//! Little-endian integer and boolean byte codecs shared by the record layouts.

use vstd::bytes::lemma_auto_spec_u64_to_from_le_bytes;
use vstd::bytes::spec_u64_from_le_bytes;
use vstd::bytes::spec_u64_to_le_bytes;
use vstd::bytes::u64_from_le_bytes;
use vstd::bytes::u64_to_le_bytes;
use vstd::prelude::*;
use vstd::slice::slice_subrange;

verus! {

/// Canonical encoding of a boolean field: one byte, 0 or 1.
pub open spec fn bool_as_byte(b: bool) -> u8 {
    if b {
        1u8
    } else {
        0u8
    }
}

/// Unchecked reading of a boolean field: zero is false, anything else true.
pub open spec fn byte_as_bool(b: u8) -> bool {
    b != 0
}

/// A strict decode accepts only the two canonical boolean bytes.
pub open spec fn valid_bool_byte(b: u8) -> bool {
    b == 0 || b == 1
}

/// The signed value carried by eight little-endian bytes, two's complement.
pub open spec fn spec_i64_from_le_bytes(s: Seq<u8>) -> i64 {
    u64_as_i64(spec_u64_from_le_bytes(s))
}

/// The eight little-endian bytes of `x`, two's complement.
pub open spec fn spec_i64_to_le_bytes(x: i64) -> Seq<u8> {
    spec_u64_to_le_bytes(i64_as_u64(x))
}

/// Reinterpretation of an unsigned 64-bit value as signed, two's complement.
pub open spec fn u64_as_i64(u: u64) -> i64 {
    if u < 0x8000000000000000 {
        u as i64
    } else {
        (u - 0x10000000000000000) as i64
    }
}

/// Reinterpretation of a signed 64-bit value as unsigned, two's complement.
pub open spec fn i64_as_u64(x: i64) -> u64 {
    if x >= 0 {
        x as u64
    } else {
        (x + 0x10000000000000000) as u64
    }
}

/// The signed byte codec round-trips: decoding the encoding of any value
/// yields the value back.
pub proof fn lemma_i64_le_bytes_round_trip(x: i64)
    ensures
        spec_i64_to_le_bytes(x).len() == 8,
        spec_i64_from_le_bytes(spec_i64_to_le_bytes(x)) == x,
{
    lemma_auto_spec_u64_to_from_le_bytes();
}

/// Reads the u64 stored little-endian at `offset`.
pub fn read_u64_le(src: &[u8], offset: usize) -> (r: u64)
    requires
        offset + 8 <= src@.len(),
    ensures
        r == spec_u64_from_le_bytes(src@.subrange(offset as int, offset as int + 8)),
{
    let _len: usize = src.len();
    let sub = slice_subrange(src, offset, offset + 8);
    u64_from_le_bytes(sub)
}

/// Reads the i64 stored little-endian at `offset`.
pub fn read_i64_le(src: &[u8], offset: usize) -> (r: i64)
    requires
        offset + 8 <= src@.len(),
    ensures
        r == spec_i64_from_le_bytes(src@.subrange(offset as int, offset as int + 8)),
{
    let u = read_u64_le(src, offset);
    if u < 0x8000000000000000 {
        u as i64
    } else {
        let d = u - 0x8000000000000000;
        (d as i64) + (-0x7fffffffffffffff - 1)
    }
}

/// Appends the eight little-endian bytes of `x` to `v`.
pub fn push_u64_le(v: &mut Vec<u8>, x: u64)
    ensures
        final(v)@ == old(v)@ + spec_u64_to_le_bytes(x),
{
    let mut b = u64_to_le_bytes(x);
    v.append(&mut b);
}

/// Appends the eight little-endian bytes of `x` to `v`, two's complement.
pub fn push_i64_le(v: &mut Vec<u8>, x: i64)
    ensures
        final(v)@ == old(v)@ + spec_i64_to_le_bytes(x),
{
    if x >= 0 {
        push_u64_le(v, x as u64);
    } else {
        let d = x - (-0x7fffffffffffffff - 1);
        push_u64_le(v, (d as u64) + 0x8000000000000000);
    }
}

} // verus!
