//! Fixed-order binary encoding: little-endian integers, byte strings with a
//! four-byte length prefix, and fixed-size keys.

use vstd::bytes::{
    spec_u16_from_le_bytes, spec_u16_to_le_bytes, spec_u32_from_le_bytes, spec_u32_to_le_bytes,
    spec_u64_from_le_bytes, spec_u64_to_le_bytes, u16_from_le_bytes, u16_to_le_bytes,
    u32_from_le_bytes, u32_to_le_bytes, u64_from_le_bytes, u64_to_le_bytes,
};
use vstd::prelude::*;
use vstd::slice::slice_subrange;

verus! {

/// Whether two byte strings hold the same bytes.
pub fn slices_equal(a: &[u8], b: &[u8]) -> (r: bool)
    ensures
        r == (a@ == b@),
{
    if a.len() != b.len() {
        return false;
    }
    let mut i: usize = 0;
    while i < a.len()
        invariant
            a@.len() == b@.len(),
            i <= a@.len(),
            forall|k: int| 0 <= k < i ==> a@[k] == b@[k],
        decreases a@.len() - i,
    {
        if a[i] != b[i] {
            return false;
        }
        i += 1;
    }
    assert(a@ =~= b@);
    true
}

/// The 20 bytes of `data` that start at `at`.
pub fn array20_at(data: &[u8], at: usize) -> (r: [u8; 20])
    requires
        at + 20 <= data.len(),
    ensures
        r@ == data@.subrange(at as int, at + 20),
{
    let mut out = [0u8; 20];
    let mut i: usize = 0;
    while i < 20
        invariant
            at + 20 <= data.len(),
            i <= 20,
            forall|k: int| 0 <= k < i ==> out@[k] == data@[at + k],
        decreases 20 - i,
    {
        out[i] = data[at + i];
        i += 1;
    }
    assert(out@ =~= data@.subrange(at as int, at + 20));
    out
}

/// The 32 bytes of `data` that start at `at`.
pub fn array32_at(data: &[u8], at: usize) -> (r: [u8; 32])
    requires
        at + 32 <= data.len(),
    ensures
        r@ == data@.subrange(at as int, at + 32),
{
    let mut out = [0u8; 32];
    let mut i: usize = 0;
    while i < 32
        invariant
            at + 32 <= data.len(),
            i <= 32,
            forall|k: int| 0 <= k < i ==> out@[k] == data@[at + k],
        decreases 32 - i,
    {
        out[i] = data[at + i];
        i += 1;
    }
    assert(out@ =~= data@.subrange(at as int, at + 32));
    out
}

/// The 64 bytes of `data` that start at `at`.
pub fn array64_at(data: &[u8], at: usize) -> (r: [u8; 64])
    requires
        at + 64 <= data.len(),
    ensures
        r@ == data@.subrange(at as int, at + 64),
{
    let mut out = [0u8; 64];
    let mut i: usize = 0;
    while i < 64
        invariant
            at + 64 <= data.len(),
            i <= 64,
            forall|k: int| 0 <= k < i ==> out@[k] == data@[at + k],
        decreases 64 - i,
    {
        out[i] = data[at + i];
        i += 1;
    }
    assert(out@ =~= data@.subrange(at as int, at + 64));
    out
}

/// Appends `tail` to `out`.
pub fn append(out: &mut Vec<u8>, tail: &[u8])
    ensures
        final(out)@ == old(out)@ + tail@,
{
    let mut i: usize = 0;
    while i < tail.len()
        invariant
            i <= tail@.len(),
            out@ == old(out)@ + tail@.subrange(0, i as int),
        decreases tail@.len() - i,
    {
        out.push(tail[i]);
        i += 1;
    }
    assert(tail@.subrange(0, tail@.len() as int) =~= tail@);
}

/// The bytes of `data` from `from` up to `to`, as a vector of their own.
pub fn copy_range(data: &[u8], from: usize, to: usize) -> (r: Vec<u8>)
    requires
        from <= to <= data.len(),
    ensures
        r@ == data@.subrange(from as int, to as int),
{
    let mut out: Vec<u8> = Vec::new();
    append(&mut out, slice_subrange(data, from, to));
    out
}

/// The little-endian `u16` in the two bytes of `data` that start at `at`.
pub fn read_u16(data: &[u8], at: usize) -> (r: u16)
    requires
        at + 2 <= data.len(),
    ensures
        r == spec_u16_from_le_bytes(data@.subrange(at as int, at + 2)),
{
    u16_from_le_bytes(slice_subrange(data, at, at + 2))
}

/// The little-endian `u32` in the four bytes of `data` that start at `at`.
pub fn read_u32(data: &[u8], at: usize) -> (r: u32)
    requires
        at + 4 <= data.len(),
    ensures
        r == spec_u32_from_le_bytes(data@.subrange(at as int, at + 4)),
{
    u32_from_le_bytes(slice_subrange(data, at, at + 4))
}

/// The little-endian `u64` in the eight bytes of `data` that start at `at`.
pub fn read_u64(data: &[u8], at: usize) -> (r: u64)
    requires
        at + 8 <= data.len(),
    ensures
        r == spec_u64_from_le_bytes(data@.subrange(at as int, at + 8)),
{
    u64_from_le_bytes(slice_subrange(data, at, at + 8))
}

/// Appends `x` in two little-endian bytes.
pub fn write_u16(out: &mut Vec<u8>, x: u16)
    ensures
        final(out)@ == old(out)@ + spec_u16_to_le_bytes(x),
{
    let b = u16_to_le_bytes(x);
    append(out, b.as_slice());
}

/// Appends `x` in four little-endian bytes.
pub fn write_u32(out: &mut Vec<u8>, x: u32)
    ensures
        final(out)@ == old(out)@ + spec_u32_to_le_bytes(x),
{
    let b = u32_to_le_bytes(x);
    append(out, b.as_slice());
}

/// Appends `x` in eight little-endian bytes.
pub fn write_u64(out: &mut Vec<u8>, x: u64)
    ensures
        final(out)@ == old(out)@ + spec_u64_to_le_bytes(x),
{
    let b = u64_to_le_bytes(x);
    append(out, b.as_slice());
}

/// A text by its characters.
pub open spec fn text_view(r: Option<String>) -> Option<Seq<char>> {
    match r {
        Some(text) => Some(text@),
        None => None,
    }
}

/// The text that bytes encode in UTF-8, or `None` where they encode none.
pub open spec fn utf8_text(bytes: Seq<u8>) -> Option<Seq<char>> {
    if vstd::utf8::valid_utf8(bytes) {
        Some(vstd::utf8::decode_utf8(bytes))
    } else {
        None
    }
}

/// Calls `String::from_utf8`. Trusted: it succeeds exactly on valid UTF-8
/// and then holds the characters that the bytes encode.
#[verifier::external_body]
pub(crate) fn string_from_utf8(bytes: Vec<u8>) -> (r: Option<String>)
    ensures
        text_view(r) == utf8_text(bytes@),
{
    String::from_utf8(bytes).ok()
}

} // verus!
