//! Time-series operators: what a plugin of this kind implements, and the
//! adapter through which the host drives it.
use crate::inputs::OperatorInputs;
use crate::marshal::{count_to_host, host_encoding, index_from_host, index_to_host, wrapped_i32, HostString};
use crate::op::{
    asked_cell, entry_at, error_string, info_chop_chan, info_dat_entry, info_dat_size, info_popup_string,
    num_info_chop_chans, pulse_pressed, setup_parameters, warning_string, HostInfoDatSize, Op,
};
use crate::params::{declare_all, ParameterManager};
use crate::samples::{silence, ChopOutput, Samples};
use vstd::prelude::*;

verus! {

/// How a time-series operator wants to be scheduled.
#[derive(Clone, Copy, Debug, PartialEq, Eq, Structural)]
pub struct ChopGeneralInfo {
    pub cook_every_frame: bool,
    pub cook_every_frame_if_asked: bool,
    pub timeslice: bool,
    pub input_match_index: i32,
}

/// The shape that a time-series operator wants its output to have. The
/// sample rate is a single-precision number carried as its 32-bit pattern.
#[derive(Clone, Copy, Debug, PartialEq, Eq, Structural)]
pub struct ChopOutputInfo {
    pub num_channels: u32,
    pub num_samples: u32,
    pub sample_rate: u32,
    pub start_index: usize,
}

/// The scheduling record of a time-series operator as the host reads it.
#[derive(Clone, Copy, Debug, PartialEq, Eq, Structural)]
pub struct HostChopGeneralInfo {
    pub cook_every_frame: bool,
    pub cook_every_frame_if_asked: bool,
    pub timeslice: bool,
    pub input_match_index: i32,
}

/// The output shape of a time-series operator as the host reads it.
#[derive(Clone, Copy, Debug, PartialEq, Eq, Structural)]
pub struct HostChopOutputInfo {
    pub num_channels: i32,
    pub num_samples: i32,
    pub sample_rate: u32,
    pub start_index: u32,
}

/// The scheduling of an operator that asks for nothing: it cooks on demand
/// only, is not time-sliced and matches its first input.
pub open spec fn on_demand() -> ChopGeneralInfo {
    ChopGeneralInfo {
        cook_every_frame: false,
        cook_every_frame_if_asked: false,
        timeslice: false,
        input_match_index: 0,
    }
}

impl Default for ChopGeneralInfo {
    fn default() -> (info: ChopGeneralInfo)
        ensures
            info == on_demand(),
    {
        ChopGeneralInfo {
            cook_every_frame: false,
            cook_every_frame_if_asked: false,
            timeslice: false,
            input_match_index: 0,
        }
    }
}

/// The host's scheduling record for what the operator answered.
pub open spec fn host_general_info(info: ChopGeneralInfo) -> HostChopGeneralInfo {
    HostChopGeneralInfo {
        cook_every_frame: info.cook_every_frame,
        cook_every_frame_if_asked: info.cook_every_frame_if_asked,
        timeslice: info.timeslice,
        input_match_index: info.input_match_index,
    }
}

/// The host's shape record for what the operator answered.
pub open spec fn host_output_info(info: ChopOutputInfo) -> HostChopOutputInfo {
    HostChopOutputInfo {
        num_channels: wrapped_i32(info.num_channels as int) as i32,
        num_samples: wrapped_i32(info.num_samples as int) as i32,
        sample_rate: info.sample_rate,
        start_index: ((info.start_index as int) % 0x1_0000_0000) as u32,
    }
}

/// What a time-series plugin implements. The cook is its one mandatory
/// capability; scheduling, output shape and channel names are optional, and
/// their default answers let the host decide.
pub trait Chop: Op {
    /// The operator's scheduling for these inputs.
    open spec fn general_info_of(&self, inputs: &OperatorInputs) -> ChopGeneralInfo {
        on_demand()
    }

    /// How the operator wants to be scheduled. Asked before every cook.
    fn general_info(&self, inputs: &OperatorInputs) -> (info: ChopGeneralInfo)
        ensures
            info == self.general_info_of(inputs),
    ;

    /// The output shape that the operator wants for these inputs.
    open spec fn output_info_of(&self, inputs: &OperatorInputs) -> Option<ChopOutputInfo> {
        None
    }

    /// The output shape that the operator wants; `None` leaves the shape to
    /// the host.
    fn output_info(&self, inputs: &OperatorInputs) -> (info: Option<ChopOutputInfo>)
        ensures
            info == self.output_info_of(inputs),
    ;

    /// The operator's name for the output channel at `index`.
    open spec fn channel_name_of(&self, index: usize, inputs: &OperatorInputs) -> Option<Seq<char>> {
        None
    }

    /// The name of the output channel at `index`; `None` leaves the name to
    /// the host.
    fn channel_name(&self, index: usize, inputs: &OperatorInputs) -> (name: Option<String>)
        ensures
            name is Some <==> self.channel_name_of(index, inputs) is Some,
            name matches Some(text) ==> Some(text@) == self.channel_name_of(index, inputs),
    ;

    /// The operator after a cook on these inputs, with the samples that the
    /// cook leaves in the block it was given.
    spec fn cooked(self, output: ChopOutput, inputs: OperatorInputs) -> (Self, Samples);

    /// Cooks: fills the output block from the inputs and the parameters.
    /// The block keeps the extents that it came with.
    fn execute(&mut self, output: &mut ChopOutput, inputs: &OperatorInputs)
        ensures
            *final(self) == old(self).cooked(*old(output), *inputs).0,
            final(output)@ == old(self).cooked(*old(output), *inputs).1,
            final(output).same_shape(old(output)),
    ;
}

/// An output block of the shape that the operator asked for, every sample
/// zero, or `None` when that many samples cannot be addressed on this
/// machine.
pub fn output_for(info: &ChopOutputInfo, sample_rate: i32) -> (block: Option<ChopOutput>)
    ensures
        block is Some <==> info.num_channels * info.num_samples <= usize::MAX,
        block matches Some(out) ==> {
            &&& out.channel_count() == info.num_channels
            &&& out.sample_count() == info.num_samples
            &&& out.rate() == sample_rate
            &&& out.first_index() == info.start_index
            &&& out@ == silence(info.num_channels as nat, info.num_samples as nat)
        },
{
    ChopOutput::new(info.num_channels as usize, info.num_samples as usize, sample_rate, info.start_index)
}

/// The adapter of one time-series operator. It owns the plugin instance
/// from the host's construct call to its destroy call, and answers every
/// host call in between from it.
pub struct RustChopPluginImpl<P: Chop> {
    pub inner: P,
}

/// Makes the adapter for a new operator node around its plugin instance.
pub fn chop_new<P: Chop>(plugin: P) -> (adapter: RustChopPluginImpl<P>)
    ensures
        adapter.inner == plugin,
{
    RustChopPluginImpl { inner: plugin }
}

impl<P: Chop> RustChopPluginImpl<P> {
    /// The plugin instance.
    pub fn inner(&self) -> (plugin: &P)
        ensures
            *plugin == self.inner,
    {
        &self.inner
    }

    /// The plugin instance, for changing it.
    pub fn innerMut(&mut self) -> (plugin: &mut P)
        ensures
            *plugin == old(self).inner,
            final(self).inner == *final(plugin),
    {
        &mut self.inner
    }

    /// Ends the operator: hands the plugin instance back to be dropped. The
    /// adapter is consumed, so no call can follow.
    pub fn destroy(self) -> (plugin: P)
        ensures
            plugin == self.inner,
    {
        self.inner
    }

    /// Answers the host's scheduling question: applies the parameter
    /// snapshot, asks the operator, and fills the host's record.
    pub fn getGeneralInfo(&mut self, info: &mut HostChopGeneralInfo, input: &OperatorInputs)
        ensures
            final(self).inner == old(self).inner.with_params(input.params),
            *final(info) == host_general_info(final(self).inner.general_info_of(input)),
    {
        self.inner.update_params(input.params());
        let gen_info = self.inner.general_info(input);
        info.cook_every_frame = gen_info.cook_every_frame;
        info.cook_every_frame_if_asked = gen_info.cook_every_frame_if_asked;
        info.timeslice = gen_info.timeslice;
        info.input_match_index = gen_info.input_match_index;
    }

    /// Answers the host's question for the output shape: applies the
    /// parameter snapshot and asks the operator. Where the operator names a
    /// shape it is written to the host's record and the answer is `true`;
    /// else the record is left alone and the answer is `false`, by which
    /// the host uses its own shape.
    pub fn getOutputInfo(&mut self, info: &mut HostChopOutputInfo, input: &OperatorInputs) -> (custom: bool)
        ensures
            final(self).inner == old(self).inner.with_params(input.params),
            match final(self).inner.output_info_of(input) {
                Some(shape) => custom && *final(info) == host_output_info(shape),
                None => !custom && *final(info) == *old(info),
            },
    {
        self.inner.update_params(input.params());
        match self.inner.output_info(input) {
            Some(out_info) => {
                info.num_channels = count_to_host(out_info.num_channels);
                info.sample_rate = out_info.sample_rate;
                info.num_samples = count_to_host(out_info.num_samples);
                info.start_index = index_to_host(out_info.start_index);
                true
            },
            None => false,
        }
    }

    /// Answers the host's question for a channel's name. Where the index is
    /// one and the operator names the channel, the name is copied out; else
    /// the host's storage is left as it was.
    pub fn getChannelName(&mut self, index: i32, name: &mut HostString, input: &OperatorInputs)
        ensures
            *final(self) == *old(self),
            index >= 0 && old(self).inner.channel_name_of(index as usize, input) is Some ==> final(name)@
                == host_encoding(old(self).inner.channel_name_of(index as usize, input)->0),
            index < 0 || old(self).inner.channel_name_of(index as usize, input) is None ==> *final(name)
                == *old(name),
    {
        match index_from_host(index) {
            Some(i) => {
                match self.inner.channel_name(i, input) {
                    Some(chan_name) => {
                        name.setString(chan_name.as_str());
                    },
                    None => {},
                }
            },
            None => {},
        }
    }

    /// Cooks the operator into the host's output block: applies the
    /// parameter snapshot, then has the operator fill the block. The block
    /// keeps its extents.
    pub fn execute(&mut self, output: &mut ChopOutput, input: &OperatorInputs)
        ensures
            final(self).inner == old(self).inner.with_params(input.params).cooked(*old(output), *input).0,
            final(output)@ == old(self).inner.with_params(input.params).cooked(*old(output), *input).1,
            final(output).same_shape(old(output)),
    {
        self.inner.update_params(input.params());
        self.inner.execute(output, input);
    }

    /// Answers the host's question for the number of info channels.
    pub fn getNumInfoCHOPChans(&mut self) -> (n: i32)
        ensures
            *final(self) == *old(self),
            n == wrapped_i32(old(self).inner.info_chop_len() as int),
    {
        num_info_chop_chans(&self.inner)
    }

    /// Answers the host's question for the info channel at `index`.
    pub fn getInfoCHOPChan(&mut self, index: i32, name: &mut HostString, value: &mut u32)
        ensures
            *final(self) == *old(self),
            match entry_at(index, old(self).inner.info_chop_len() as int) {
                Some(i) => {
                    &&& final(name)@ == host_encoding(old(self).inner.info_chop_entry(i).0)
                    &&& *final(value) == old(self).inner.info_chop_entry(i).1
                },
                None => *final(name) == *old(name) && *final(value) == *old(value),
            },
    {
        info_chop_chan(&self.inner, index, name, value);
    }

    /// Answers the host's question for the size of the info table.
    pub fn getInfoDATSize(&mut self, info: &mut HostInfoDatSize) -> (present: bool)
        ensures
            *final(self) == *old(self),
            match old(self).inner.info_dat_extent() {
                Some((rows, cols)) => {
                    &&& present
                    &&& final(info).rows == wrapped_i32(rows as int)
                    &&& final(info).cols == wrapped_i32(cols as int)
                    &&& final(info).by_column == old(info).by_column
                },
                None => !present && *final(info) == *old(info),
            },
    {
        info_dat_size(&self.inner, info)
    }

    /// Answers the host's question for a cell of the info table. The text
    /// of a cell inside the table is copied out, an empty one too; for any
    /// other pair of indices the host's storage is left as it was.
    pub fn getInfoDATEntry(&mut self, index: i32, entryIndex: i32, entry: &mut HostString)
        ensures
            *final(self) == *old(self),
            match asked_cell(&old(self).inner, index, entryIndex) {
                Some(text) => final(entry)@ == host_encoding(text),
                None => *final(entry) == *old(entry),
            },
    {
        info_dat_entry(&self.inner, index, entryIndex, entry);
    }

    /// Copies the operator's warning into the host's storage.
    pub fn getWarningString(&mut self, warning: &mut HostString)
        ensures
            *final(self) == *old(self),
            final(warning)@ == host_encoding(old(self).inner.warning_text()),
    {
        warning_string(&self.inner, warning);
    }

    /// Copies the operator's error into the host's storage.
    pub fn getErrorString(&mut self, error: &mut HostString)
        ensures
            *final(self) == *old(self),
            final(error)@ == host_encoding(old(self).inner.error_text()),
    {
        error_string(&self.inner, error);
    }

    /// Copies the operator's information text into the host's storage.
    pub fn getInfoPopupString(&mut self, info: &mut HostString)
        ensures
            *final(self) == *old(self),
            final(info)@ == host_encoding(old(self).inner.info_text()),
    {
        info_popup_string(&self.inner, info);
    }

    /// Has the operator declare its parameters in the host's sink.
    pub fn setupParameters(&mut self, manager: &mut ParameterManager)
        ensures
            *final(self) == *old(self),
            final(manager)@ == declare_all(old(manager)@, old(self).inner.declared_params()),
    {
        setup_parameters(&self.inner, manager);
    }

    /// Passes on that the pulse parameter `name` was pressed.
    pub fn pulsePressed(&mut self, name: &str)
        ensures
            final(self).inner == old(self).inner.pulsed(name@),
    {
        pulse_pressed(&mut self.inner, name);
    }
}

/// Scheduling and shape are functions of the operator and its inputs: a
/// second query with the same inputs leaves the operator as the first left
/// it, and is answered as the first was.
pub proof fn lemma_queries_repeatable<P: Chop>(plugin: P, inputs: OperatorInputs)
    ensures
        ({
            let once = plugin.with_params(inputs.params);
            let twice = once.with_params(inputs.params);
            &&& twice == once
            &&& host_general_info(twice.general_info_of(&inputs)) == host_general_info(
                once.general_info_of(&inputs),
            )
            &&& twice.output_info_of(&inputs) == once.output_info_of(&inputs)
        }),
{
    plugin.with_params_settles(inputs.params);
}

} // verus!
