//! The compression function shared by every absorption step and by the digest.
use vstd::arithmetic::div_mod::{lemma_mod_multiples_vanish, lemma_mul_mod_noop_left, lemma_small_mod};
use vstd::arithmetic::mul::lemma_mul_is_associative;
use vstd::prelude::*;

verus! {

/// Odd multiplier taken from a 64-bit linear congruential generator.
pub const MULTIPLE: u64 = 6364136223846793005;

/// `x` rotated left by `n` bits, for `0 < n < 64`.
pub open spec fn rotl(x: u64, n: u64) -> u64
    recommends
        0 < n < 64,
{
    (x << n) | (x >> (64 - n) as u64)
}

/// The compression function: `((data * M) rotl 17 ^ key) * M`, products taken modulo 2^64.
pub open spec fn mix(data: u64, key: u64) -> u64 {
    (rotl(data.wrapping_mul(MULTIPLE), 17) ^ key).wrapping_mul(MULTIPLE)
}

/// Rotates `x` left by `n` bits.
pub fn rotate_left(x: u64, n: u64) -> (r: u64)
    requires
        0 < n < 64,
    ensures
        r == rotl(x, n),
{
    (x << n) | (x >> (64 - n))
}

/// Mixes `data` under `key`.
pub fn hash(data: u64, key: u64) -> (r: u64)
    ensures
        r == mix(data, key),
{
    (rotate_left(data.wrapping_mul(MULTIPLE), 17) ^ key).wrapping_mul(MULTIPLE)
}

/// Multiplying by `MULTIPLE` modulo 2^64 is undone by multiplying by its
/// inverse, 13877824140714322085.
proof fn lemma_multiple_inverse(a: u64)
    ensures
        (a.wrapping_mul(MULTIPLE) as int * 13877824140714322085int) % 0x1_0000_0000_0000_0000int
            == a as int,
{
    let n: int = 0x1_0000_0000_0000_0000int;
    let m: int = MULTIPLE as int;
    let inv: int = 13877824140714322085int;
    let q: int = 4787856489426250814int;
    let x: int = a as int;
    assert(m * inv == 1 + q * n);
    lemma_mul_mod_noop_left(x * m, inv, n);
    lemma_mul_is_associative(x, m, inv);
    assert(x * (m * inv) == n * (x * q) + x) by (nonlinear_arith)
        requires
            m * inv == 1 + q * n,
    ;
    lemma_mod_multiples_vanish(x * q, x, n);
    lemma_small_mod(a as nat, n as nat);
}

/// Multiplication by `MULTIPLE` modulo 2^64 is one-to-one.
pub proof fn lemma_multiple_injective(a: u64, b: u64)
    ensures
        a.wrapping_mul(MULTIPLE) == b.wrapping_mul(MULTIPLE) ==> a == b,
{
    lemma_multiple_inverse(a);
    lemma_multiple_inverse(b);
}

/// A rotation is one-to-one.
pub proof fn lemma_rotl_injective(x: u64, y: u64, n: u64)
    requires
        0 < n < 64,
    ensures
        rotl(x, n) == rotl(y, n) ==> x == y,
{
    assert(0 < n < 64 && (x << n) | (x >> (64 - n) as u64) == (y << n) | (y >> (64 - n) as u64)
        ==> x == y) by (bit_vector);
}

/// For a fixed key, distinct data mix to distinct words.
pub proof fn lemma_mix_injective_in_data(d1: u64, d2: u64, key: u64)
    ensures
        d1 != d2 ==> mix(d1, key) != mix(d2, key),
{
    let r1 = rotl(d1.wrapping_mul(MULTIPLE), 17);
    let r2 = rotl(d2.wrapping_mul(MULTIPLE), 17);
    lemma_multiple_injective(r1 ^ key, r2 ^ key);
    assert((r1 ^ key) == (r2 ^ key) ==> r1 == r2) by (bit_vector);
    lemma_rotl_injective(d1.wrapping_mul(MULTIPLE), d2.wrapping_mul(MULTIPLE), 17);
    lemma_multiple_injective(d1, d2);
}

/// For fixed data, distinct keys mix to distinct words.
pub proof fn lemma_mix_injective_in_key(data: u64, k1: u64, k2: u64)
    ensures
        k1 != k2 ==> mix(data, k1) != mix(data, k2),
{
    let r = rotl(data.wrapping_mul(MULTIPLE), 17);
    lemma_multiple_injective(r ^ k1, r ^ k2);
    assert((r ^ k1) == (r ^ k2) ==> k1 == k2) by (bit_vector);
}

/// Moving a single set bit from position 0 to position 32 changes the mixed word.
pub proof fn law_mix_bit_sensitivity()
    ensures
        mix(1u64 << 32u64, 0) != mix(1, 0),
{
    assert(1u64 << 32u64 != 1u64) by (bit_vector);
    lemma_mix_injective_in_data(1u64 << 32u64, 1, 0);
}

} // verus!
