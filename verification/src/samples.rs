//! Views over the channel-major sample storage of a time-series operator.
//!
//! A sample is a single-precision number carried as its 32-bit pattern: the
//! views move samples and never compute with them.
use crate::layout::{lemma_flat_bound, lemma_flat_distinct};
use vstd::prelude::*;
use vstd::slice::slice_subrange;

verus! {

/// The samples of a block, by channel and then by index.
pub type Samples = Seq<Seq<u32>>;

/// The samples after `value` has been written at `[chan][index]`.
pub open spec fn written(samples: Samples, chan: int, index: int, value: u32) -> Samples {
    samples.update(chan, samples[chan].update(index, value))
}

/// A block of `channels` channels of `samples` samples each, all zero.
pub open spec fn silence(channels: nat, samples: nat) -> Samples {
    Seq::new(channels, |c: int| Seq::new(samples, |i: int| 0u32))
}

/// The output block of a time-series operator for one cook: `num_channels`
/// channels of `num_samples` samples, stored channel after channel.
///
/// The extents are fixed when the block is made. Every access takes a
/// channel and a sample index below the counts the block itself reports.
pub struct ChopOutput {
    num_channels: usize,
    num_samples: usize,
    sample_rate: i32,
    start_index: usize,
    samples: Vec<u32>,
}

impl View for ChopOutput {
    type V = Samples;

    /// The samples by channel, then by index.
    closed spec fn view(&self) -> Samples {
        Seq::new(
            self.num_channels as nat,
            |c: int| Seq::new(self.num_samples as nat, |i: int| self.samples@[c * self.num_samples + i]),
        )
    }
}

impl ChopOutput {
    #[verifier::type_invariant]
    spec fn well_formed(&self) -> bool {
        self.samples@.len() == self.num_channels * self.num_samples
    }

    /// The number of channels.
    pub closed spec fn channel_count(&self) -> nat {
        self.num_channels as nat
    }

    /// The number of samples in each channel.
    pub closed spec fn sample_count(&self) -> nat {
        self.num_samples as nat
    }

    /// The rate at which the samples are to be played, in samples per second.
    pub closed spec fn rate(&self) -> i32 {
        self.sample_rate
    }

    /// The position of the first sample on the host's timeline.
    pub closed spec fn first_index(&self) -> usize {
        self.start_index
    }

    /// Two blocks have the same shape when counts, rate and start agree.
    pub open spec fn same_shape(&self, other: &ChopOutput) -> bool {
        &&& self.channel_count() == other.channel_count()
        &&& self.sample_count() == other.sample_count()
        &&& self.rate() == other.rate()
        &&& self.first_index() == other.first_index()
    }

    /// The view has exactly the extents that the block reports.
    pub proof fn lemma_view_shape(&self)
        ensures
            self@.len() == self.channel_count(),
            forall|c: int| 0 <= c < self.channel_count() ==> (#[trigger] self@[c]).len() == self.sample_count(),
    {
    }

    /// A block of the given extents with every sample zero, or `None` when
    /// that many samples cannot be addressed on this machine.
    pub fn new(num_channels: usize, num_samples: usize, sample_rate: i32, start_index: usize) -> (r: Option<ChopOutput>)
        ensures
            r is Some <==> num_channels * num_samples <= usize::MAX,
            r matches Some(out) ==> {
                &&& out.channel_count() == num_channels
                &&& out.sample_count() == num_samples
                &&& out.rate() == sample_rate
                &&& out.first_index() == start_index
                &&& out@ == silence(num_channels as nat, num_samples as nat)
            },
    {
        match num_channels.checked_mul(num_samples) {
            None => None,
            Some(total) => {
                let mut samples: Vec<u32> = Vec::new();
                while samples.len() < total
                    invariant
                        samples@.len() <= total,
                        forall|k: int| 0 <= k < samples@.len() ==> samples@[k] == 0u32,
                    decreases total - samples@.len(),
                {
                    samples.push(0u32);
                }
                let out = ChopOutput { num_channels, num_samples, sample_rate, start_index, samples };
                proof {
                    assert forall|c: int| 0 <= c < num_channels implies #[trigger] out@[c] == silence(
                        num_channels as nat,
                        num_samples as nat,
                    )[c] by {
                        assert forall|i: int| 0 <= i < num_samples implies out@[c][i] == 0u32 by {
                            lemma_flat_bound(c, i, num_channels as int, num_samples as int);
                        }
                        assert(out@[c] =~= Seq::new(num_samples as nat, |i: int| 0u32));
                    }
                    assert(out@ =~= silence(num_channels as nat, num_samples as nat));
                }
                Some(out)
            },
        }
    }

    /// The number of channels.
    pub fn num_channels(&self) -> (n: usize)
        ensures
            n == self.channel_count(),
            n == self@.len(),
    {
        self.num_channels
    }

    /// The number of samples in each channel.
    pub fn num_samples(&self) -> (n: usize)
        ensures
            n == self.sample_count(),
    {
        self.num_samples
    }

    /// The sample rate.
    pub fn sample_rate(&self) -> (r: i32)
        ensures
            r == self.rate(),
    {
        self.sample_rate
    }

    /// The position of the first sample on the host's timeline.
    pub fn start_index(&self) -> (i: usize)
        ensures
            i == self.first_index(),
    {
        self.start_index
    }

    /// Reads the sample at `[chan][index]`.
    pub fn get(&self, chan: usize, index: usize) -> (value: u32)
        requires
            chan < self.channel_count(),
            index < self.sample_count(),
        ensures
            value == self@[chan as int][index as int],
    {
        let total: usize = self.samples.len();
        proof {
            use_type_invariant(self);
            lemma_flat_bound(chan as int, index as int, self.num_channels as int, self.num_samples as int);
            assert(chan * self.num_samples + index < total);
        }
        self.samples[chan * self.num_samples + index]
    }

    /// Writes `value` at `[chan][index]` and leaves every other sample, and
    /// the shape, as they were.
    pub fn set(&mut self, chan: usize, index: usize, value: u32)
        requires
            chan < old(self).channel_count(),
            index < old(self).sample_count(),
        ensures
            final(self)@ == written(old(self)@, chan as int, index as int, value),
            final(self).same_shape(old(self)),
    {
        let total: usize = self.samples.len();
        proof {
            use_type_invariant(&*self);
            lemma_flat_bound(chan as int, index as int, self.num_channels as int, self.num_samples as int);
            assert(chan * self.num_samples + index < total);
        }
        let flat: usize = chan * self.num_samples + index;
        self.samples[flat] = value;
        proof {
            let samples = self.num_samples as int;
            let after = self@;
            let expected = written(old(self)@, chan as int, index as int, value);
            assert forall|c: int| 0 <= c < self.num_channels implies #[trigger] after[c] == expected[c] by {
                assert forall|i: int| 0 <= i < samples implies after[c][i] == expected[c][i] by {
                    lemma_flat_bound(c, i, self.num_channels as int, samples);
                    if c * samples + i == flat as int {
                        lemma_flat_distinct(c, i, chan as int, index as int, samples);
                    }
                }
                assert(after[c] =~= expected[c]);
            }
            assert(after =~= expected);
        }
    }

    /// The samples of channel `chan`, in order.
    pub fn channel(&self, chan: usize) -> (samples: &[u32])
        requires
            chan < self.channel_count(),
        ensures
            samples@ == self@[chan as int],
    {
        let total: usize = self.samples.len();
        proof {
            use_type_invariant(self);
            let c = chan as int;
            let s = self.num_samples as int;
            assert(c * s >= 0) by (nonlinear_arith)
                requires
                    c >= 0,
                    s >= 0,
            ;
            assert((c + 1) * s <= self.num_channels * s) by (nonlinear_arith)
                requires
                    c + 1 <= self.num_channels,
                    s >= 0,
            ;
            assert((c + 1) * s == c * s + s) by (nonlinear_arith);
            assert(chan * self.num_samples + self.num_samples <= total);
        }
        let from: usize = chan * self.num_samples;
        let out = slice_subrange(self.samples.as_slice(), from, from + self.num_samples);
        proof {
            assert(out@ =~= self@[chan as int]);
        }
        out
    }
}

/// The samples of an upstream operator, for reading only. An upstream
/// operator's output block is what a downstream operator sees as its input.
pub struct ChopInput {
    source: ChopOutput,
}

impl View for ChopInput {
    type V = Samples;

    closed spec fn view(&self) -> Samples {
        self.source@
    }
}

impl ChopInput {
    /// The number of channels.
    pub closed spec fn channel_count(&self) -> nat {
        self.source.channel_count()
    }

    /// The number of samples in each channel.
    pub closed spec fn sample_count(&self) -> nat {
        self.source.sample_count()
    }

    /// The rate at which the samples were produced.
    pub closed spec fn rate(&self) -> i32 {
        self.source.rate()
    }

    /// The position of the first sample on the host's timeline.
    pub closed spec fn first_index(&self) -> usize {
        self.source.first_index()
    }

    /// A read-only view of the block that an upstream operator wrote.
    pub fn new(source: ChopOutput) -> (input: ChopInput)
        ensures
            input@ == source@,
            input.channel_count() == source.channel_count(),
            input.sample_count() == source.sample_count(),
            input.rate() == source.rate(),
            input.first_index() == source.first_index(),
    {
        ChopInput { source }
    }

    /// The number of channels.
    pub fn num_channels(&self) -> (n: usize)
        ensures
            n == self.channel_count(),
    {
        self.source.num_channels()
    }

    /// The number of samples in each channel.
    pub fn num_samples(&self) -> (n: usize)
        ensures
            n == self.sample_count(),
    {
        self.source.num_samples()
    }

    /// The sample rate.
    pub fn sample_rate(&self) -> (r: i32)
        ensures
            r == self.rate(),
    {
        self.source.sample_rate()
    }

    /// The position of the first sample on the host's timeline.
    pub fn start_index(&self) -> (i: usize)
        ensures
            i == self.first_index(),
    {
        self.source.start_index()
    }

    /// Reads the sample at `[chan][index]`.
    pub fn get(&self, chan: usize, index: usize) -> (value: u32)
        requires
            chan < self.channel_count(),
            index < self.sample_count(),
        ensures
            value == self@[chan as int][index as int],
    {
        self.source.get(chan, index)
    }

    /// The samples of channel `chan`, in order.
    pub fn channel(&self, chan: usize) -> (samples: &[u32])
        requires
            chan < self.channel_count(),
        ensures
            samples@ == self@[chan as int],
    {
        self.source.channel(chan)
    }
}

/// A sample written through an output view is the sample read back at the
/// same place, through that view or through an input view of the same
/// block; every other sample and the extents are as before the write.
pub proof fn lemma_write_then_read(samples: Samples, chan: int, index: int, value: u32)
    requires
        0 <= chan < samples.len(),
        0 <= index < samples[chan].len(),
    ensures
        written(samples, chan, index, value)[chan][index] == value,
        written(samples, chan, index, value).len() == samples.len(),
        forall|c: int|
            0 <= c < samples.len() ==> (#[trigger] written(samples, chan, index, value)[c]).len()
                == samples[c].len(),
        forall|c: int, i: int|
            0 <= c < samples.len() && 0 <= i < samples[c].len() && (c != chan || i != index)
                ==> written(samples, chan, index, value)[c][i] == samples[c][i],
{
}

} // verus!
