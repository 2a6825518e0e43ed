//! Little-endian conversions between byte sequences and fixed-width integers.
use vstd::bytes::*;
use vstd::prelude::*;
use vstd::slice::slice_subrange;

verus! {

/// Reads the first two bytes of `bytes` as a little-endian `u16`.
pub fn read_u16_le(bytes: &[u8]) -> (r: u16)
    requires
        bytes@.len() >= 2,
    ensures
        r == spec_u16_from_le_bytes(bytes@.take(2)),
{
    let prefix = slice_subrange(bytes, 0, 2);
    assert(prefix@ =~= bytes@.take(2));
    u16_from_le_bytes(prefix)
}

/// Reads the first four bytes of `bytes` as a little-endian `u32`.
pub fn read_u32_le(bytes: &[u8]) -> (r: u32)
    requires
        bytes@.len() >= 4,
    ensures
        r == spec_u32_from_le_bytes(bytes@.take(4)),
{
    let prefix = slice_subrange(bytes, 0, 4);
    assert(prefix@ =~= bytes@.take(4));
    u32_from_le_bytes(prefix)
}

/// Reads the first eight bytes of `bytes` as a little-endian `u64`.
pub fn read_u64_le(bytes: &[u8]) -> (r: u64)
    requires
        bytes@.len() >= 8,
    ensures
        r == spec_u64_from_le_bytes(bytes@.take(8)),
{
    let prefix = slice_subrange(bytes, 0, 8);
    assert(prefix@ =~= bytes@.take(8));
    u64_from_le_bytes(prefix)
}

/// Reads the first sixteen bytes of `bytes` as a little-endian `u128`.
pub fn read_u128_le(bytes: &[u8]) -> (r: u128)
    requires
        bytes@.len() >= 16,
    ensures
        r == spec_u128_from_le_bytes(bytes@.take(16)),
{
    let prefix = slice_subrange(bytes, 0, 16);
    assert(prefix@ =~= bytes@.take(16));
    u128_from_le_bytes(prefix)
}

/// The two little-endian bytes of `x`.
pub fn u16_le_bytes(x: u16) -> (r: Vec<u8>)
    ensures
        r@ == spec_u16_to_le_bytes(x),
        r@.len() == 2,
{
    u16_to_le_bytes(x)
}

/// The four little-endian bytes of `x`.
pub fn u32_le_bytes(x: u32) -> (r: Vec<u8>)
    ensures
        r@ == spec_u32_to_le_bytes(x),
        r@.len() == 4,
{
    u32_to_le_bytes(x)
}

/// The eight little-endian bytes of `x`.
pub fn u64_le_bytes(x: u64) -> (r: Vec<u8>)
    ensures
        r@ == spec_u64_to_le_bytes(x),
        r@.len() == 8,
{
    u64_to_le_bytes(x)
}

/// The sixteen little-endian bytes of `x`.
pub fn u128_le_bytes(x: u128) -> (r: Vec<u8>)
    ensures
        r@ == spec_u128_to_le_bytes(x),
        r@.len() == 16,
{
    u128_to_le_bytes(x)
}

/// Bytes to integer to bytes gives back the bytes, at each of the four widths.
pub proof fn law_bytes_round_trip(s16: Seq<u8>, s32: Seq<u8>, s64: Seq<u8>, s128: Seq<u8>)
    ensures
        s16.len() == 2 ==> spec_u16_to_le_bytes(spec_u16_from_le_bytes(s16)) == s16,
        s32.len() == 4 ==> spec_u32_to_le_bytes(spec_u32_from_le_bytes(s32)) == s32,
        s64.len() == 8 ==> spec_u64_to_le_bytes(spec_u64_from_le_bytes(s64)) == s64,
        s128.len() == 16 ==> spec_u128_to_le_bytes(spec_u128_from_le_bytes(s128)) == s128,
{
    lemma_auto_spec_u16_to_from_le_bytes();
    lemma_auto_spec_u32_to_from_le_bytes();
    lemma_auto_spec_u64_to_from_le_bytes();
    lemma_auto_spec_u128_to_from_le_bytes();
}

/// Integer to bytes to integer gives back the integer, at each of the four widths.
pub proof fn law_int_round_trip(x16: u16, x32: u32, x64: u64, x128: u128)
    ensures
        spec_u16_from_le_bytes(spec_u16_to_le_bytes(x16)) == x16,
        spec_u32_from_le_bytes(spec_u32_to_le_bytes(x32)) == x32,
        spec_u64_from_le_bytes(spec_u64_to_le_bytes(x64)) == x64,
        spec_u128_from_le_bytes(spec_u128_to_le_bytes(x128)) == x128,
{
    lemma_auto_spec_u16_to_from_le_bytes();
    lemma_auto_spec_u32_to_from_le_bytes();
    lemma_auto_spec_u64_to_from_le_bytes();
    lemma_auto_spec_u128_to_from_le_bytes();
    assert(spec_u16_to_le_bytes(x16).len() == 2);
    assert(spec_u32_to_le_bytes(x32).len() == 4);
    assert(spec_u64_to_le_bytes(x64).len() == 8);
    assert(spec_u128_to_le_bytes(x128).len() == 16);
}

} // verus!
