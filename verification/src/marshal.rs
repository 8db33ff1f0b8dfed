//! Values as they cross the host boundary: 32-bit host integers and
//! NUL-terminated host strings.
use vstd::prelude::*;
use vstd::utf8::{decode_utf8, encode_utf8, encode_utf8_decode_utf8};

verus! {

/// The number a signed 32-bit host field holds once the low 32 bits of `n`
/// have been stored in it.
pub open spec fn wrapped_i32(n: int) -> int {
    let low = n % 0x1_0000_0000;
    if low < 0x8000_0000 {
        low
    } else {
        low - 0x1_0000_0000
    }
}

/// Stores an unsigned 32-bit count in a signed 32-bit host field.
/// Counts up to `i32::MAX` keep their value; larger ones wrap.
pub fn count_to_host(n: u32) -> (r: i32)
    ensures
        r == wrapped_i32(n as int),
        n <= i32::MAX ==> r == n,
{
    if n < 0x8000_0000 {
        n as i32
    } else {
        let high: i32 = (n - 0x8000_0000) as i32;
        high + i32::MIN
    }
}

/// Stores a size in a signed 32-bit host field, keeping its low 32 bits.
pub fn size_to_host(n: usize) -> (r: i32)
    ensures
        r == wrapped_i32(n as int),
        n <= i32::MAX ==> r == n,
{
    let low: u64 = (n as u64) % 0x1_0000_0000;
    count_to_host(low as u32)
}

/// Stores an index in an unsigned 32-bit host field, keeping its low 32 bits.
pub fn index_to_host(n: usize) -> (r: u32)
    ensures
        r == (n as int) % 0x1_0000_0000,
{
    let low: u64 = (n as u64) % 0x1_0000_0000;
    low as u32
}

/// Reads an index that the host passed as a signed 32-bit integer.
/// A negative number is no index.
pub fn index_from_host(i: i32) -> (r: Option<usize>)
    ensures
        i < 0 ==> r is None,
        i >= 0 ==> r == Some(i as usize) && r->0 == i,
{
    if i < 0 {
        None
    } else {
        Some(i as usize)
    }
}

/// Whether two texts are the same, character for character.
pub fn same_text(a: &str, b: &str) -> (same: bool)
    ensures
        same == (a@ == b@),
{
    let x = a.as_bytes();
    let y = b.as_bytes();
    proof {
        encode_utf8_decode_utf8(a@);
        encode_utf8_decode_utf8(b@);
    }
    if x.len() != y.len() {
        return false;
    }
    let mut i: usize = 0;
    while i < x.len()
        invariant
            i <= x.len(),
            x.len() == y.len(),
            x@ == encode_utf8(a@),
            y@ == encode_utf8(b@),
            forall|k: int| 0 <= k < i ==> x@[k] == y@[k],
        decreases x.len() - i,
    {
        if x[i] != y[i] {
            return false;
        }
        i = i + 1;
    }
    proof {
        assert(x@ =~= y@);
        assert(decode_utf8(encode_utf8(a@)) == decode_utf8(encode_utf8(b@)));
    }
    true
}

/// The byte that stands for a NUL inside a text handed to the host.
pub const NUL_SUBSTITUTE: u8 = 0x3F;

/// A byte of a text as the host receives it.
pub open spec fn host_byte(b: u8) -> u8 {
    if b == 0 {
        NUL_SUBSTITUTE
    } else {
        b
    }
}

/// The bytes the host receives for `text`: its UTF-8 encoding with every NUL
/// replaced by a visible substitute, then one terminating NUL.
pub open spec fn host_encoding(text: Seq<char>) -> Seq<u8> {
    encode_utf8(text).map_values(|b: u8| host_byte(b)).push(0u8)
}

/// Host-provided string storage. It is empty until the adapter copies a
/// text into it.
pub struct HostString {
    bytes: Vec<u8>,
}

impl View for HostString {
    type V = Seq<u8>;

    closed spec fn view(&self) -> Seq<u8> {
        self.bytes@
    }
}

impl HostString {
    /// Storage that nothing has been copied into.
    pub fn new() -> (s: Self)
        ensures
            s@ == Seq::<u8>::empty(),
    {
        HostString { bytes: Vec::new() }
    }

    /// Copies `text` into the storage, replacing whatever it held.
    pub fn setString(&mut self, text: &str)
        ensures
            final(self)@ == host_encoding(text@),
    {
        let src = text.as_bytes();
        let mut out: Vec<u8> = Vec::new();
        let mut i: usize = 0;
        while i < src.len()
            invariant
                i <= src.len(),
                src@ == encode_utf8(text@),
                out@ == src@.subrange(0, i as int).map_values(|b: u8| host_byte(b)),
            decreases src.len() - i,
        {
            let b: u8 = src[i];
            let stored: u8 = if b == 0 {
                NUL_SUBSTITUTE
            } else {
                b
            };
            out.push(stored);
            i = i + 1;
            assert(out@ == src@.subrange(0, i as int).map_values(|b: u8| host_byte(b)));
        }
        assert(src@.subrange(0, i as int) == src@);
        out.push(0u8);
        self.bytes = out;
    }

    /// The bytes the storage holds.
    pub fn as_bytes(&self) -> (b: &Vec<u8>)
        ensures
            b@ == self@,
    {
        &self.bytes
    }
}

/// A text copied to the host is a well-formed C string: it ends in NUL and
/// holds no other NUL, whatever the text was.
pub proof fn lemma_host_encoding_terminated(text: Seq<char>)
    ensures
        host_encoding(text).len() == encode_utf8(text).len() + 1,
        host_encoding(text).last() == 0u8,
        forall|i: int| 0 <= i < host_encoding(text).len() - 1 ==> host_encoding(text)[i] != 0u8,
        forall|i: int|
            0 <= i < encode_utf8(text).len() && encode_utf8(text)[i] != 0u8
                ==> host_encoding(text)[i] == encode_utf8(text)[i],
{
}

/// The empty text reaches the host as the empty C string.
pub proof fn lemma_host_encoding_empty()
    ensures
        host_encoding(Seq::<char>::empty()) == seq![0u8],
{
    assert(encode_utf8(Seq::<char>::empty()) == Seq::<u8>::empty());
}

} // verus!
