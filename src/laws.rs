//! Properties of the hasher over whole sequences of absorption calls.
use crate::hasher::{
    absorb, absorb_all, absorb_blocks, absorb_bytes, absorb_word, block_tail, default_state,
    digest, fold_tail, lemma_absorb_blocks_key, Absorption, AHasher, HasherState,
};
use crate::mixing::{lemma_mix_injective_in_data, lemma_mix_injective_in_key, lemma_rotl_injective, rotl};
use vstd::bytes::{spec_u16_from_le_bytes, spec_u32_from_le_bytes, spec_u64_from_le_bytes};
use vstd::prelude::*;

verus! {

/// Xor by a fixed word, then rotation, is one-to-one.
proof fn lemma_xor_rotl_injective(b1: u64, b2: u64, v: u64, n: u64)
    requires
        0 < n < 64,
        b1 != b2,
    ensures
        rotl(b1 ^ v, n) != rotl(b2 ^ v, n),
{
    assert(b1 != b2 ==> b1 ^ v != b2 ^ v) by (bit_vector);
    lemma_rotl_injective(b1 ^ v, b2 ^ v, n);
}

/// Under one key, absorbing a word keeps distinct buffers distinct.
proof fn lemma_word_injective(s1: HasherState, s2: HasherState, v: u64)
    requires
        s1.key == s2.key,
        s1.buffer != s2.buffer,
    ensures
        absorb_word(s1, v).buffer != absorb_word(s2, v).buffer,
{
    let (b1, b2) = (s1.buffer, s2.buffer);
    assert(b1 != b2 ==> b1 ^ v != b2 ^ v) by (bit_vector);
    lemma_mix_injective_in_data(b1 ^ v, b2 ^ v, s1.key);
}

/// Under one key, absorbing whole blocks keeps distinct buffers distinct.
proof fn lemma_blocks_injective(s1: HasherState, s2: HasherState, bytes: Seq<u8>)
    requires
        s1.key == s2.key,
        s1.buffer != s2.buffer,
    ensures
        absorb_blocks(s1, bytes).buffer != absorb_blocks(s2, bytes).buffer,
    decreases bytes.len(),
{
    if bytes.len() >= 8 {
        let v = spec_u64_from_le_bytes(bytes.take(8));
        lemma_word_injective(s1, s2, v);
        lemma_blocks_injective(absorb_word(s1, v), absorb_word(s2, v), bytes.skip(8));
    }
}

/// Folding the same tail keeps distinct buffers distinct.
proof fn lemma_fold_tail_injective(b1: u64, b2: u64, tail: Seq<u8>)
    requires
        b1 != b2,
    ensures
        fold_tail(b1, tail) != fold_tail(b2, tail),
{
    let (c1, c2) = if tail.len() >= 4 {
        let v = spec_u32_from_le_bytes(tail.take(4)) as u64;
        lemma_xor_rotl_injective(b1, b2, v, 32);
        (rotl(b1 ^ v, 32), rotl(b2 ^ v, 32))
    } else {
        (b1, b2)
    };
    let t4 = if tail.len() >= 4 {
        tail.skip(4)
    } else {
        tail
    };
    let (d1, d2) = if t4.len() >= 2 {
        let v = spec_u16_from_le_bytes(t4.take(2)) as u64;
        lemma_xor_rotl_injective(c1, c2, v, 16);
        (rotl(c1 ^ v, 16), rotl(c2 ^ v, 16))
    } else {
        (c1, c2)
    };
    let t2 = if t4.len() >= 2 {
        t4.skip(2)
    } else {
        t4
    };
    if t2.len() >= 1 {
        lemma_xor_rotl_injective(d1, d2, t2[0] as u64, 8);
    }
}

/// Under one key, absorbing a byte sequence keeps distinct buffers distinct.
proof fn lemma_bytes_injective(s1: HasherState, s2: HasherState, bytes: Seq<u8>)
    requires
        s1.key == s2.key,
        s1.buffer != s2.buffer,
    ensures
        absorb_bytes(s1, bytes).buffer != absorb_bytes(s2, bytes).buffer,
{
    lemma_blocks_injective(s1, s2, bytes);
    let f1 = fold_tail(absorb_blocks(s1, bytes).buffer, block_tail(bytes));
    let f2 = fold_tail(absorb_blocks(s2, bytes).buffer, block_tail(bytes));
    lemma_fold_tail_injective(
        absorb_blocks(s1, bytes).buffer,
        absorb_blocks(s2, bytes).buffer,
        block_tail(bytes),
    );
    lemma_word_injective(
        HasherState { buffer: f1, key: s1.key },
        HasherState { buffer: f2, key: s2.key },
        bytes.len() as u64,
    );
}

/// Under one key, any sequence of calls keeps distinct buffers distinct.
proof fn lemma_absorb_all_injective(s1: HasherState, s2: HasherState, calls: Seq<Absorption>)
    requires
        s1.key == s2.key,
        s1.buffer != s2.buffer,
    ensures
        absorb_all(s1, calls).buffer != absorb_all(s2, calls).buffer,
        absorb_all(s1, calls).key == s1.key,
        absorb_all(s2, calls).key == s2.key,
    decreases calls.len(),
{
    if calls.len() > 0 {
        match calls[0] {
            Absorption::Word(v) => {
                lemma_word_injective(s1, s2, v);
            },
            Absorption::Wide(v) => {
                let lo = (v % 0x1_0000_0000_0000_0000) as u64;
                lemma_word_injective(s1, s2, lo);
                lemma_word_injective(absorb_word(s1, lo), absorb_word(s2, lo), (v / 0x1_0000_0000_0000_0000) as u64);
            },
            Absorption::Bytes(b) => {
                lemma_bytes_injective(s1, s2, b);
                lemma_absorb_blocks_key(s1, b);
                lemma_absorb_blocks_key(s2, b);
            },
        }
        lemma_absorb_all_injective(absorb(s1, calls[0]), absorb(s2, calls[0]), calls.drop_first());
    }
}

/// No absorption call changes the key.
pub proof fn law_key_fixed(s: HasherState, calls: Seq<Absorption>)
    ensures
        absorb_all(s, calls).key == s.key,
    decreases calls.len(),
{
    if calls.len() > 0 {
        if let Absorption::Bytes(b) = calls[0] {
            lemma_absorb_blocks_key(s, b);
        }
        law_key_fixed(absorb(s, calls[0]), calls.drop_first());
    }
}

/// Hashers in equal states that receive the same calls reach equal states and
/// give equal digests.
pub proof fn law_determinism(a: HasherState, b: HasherState, calls: Seq<Absorption>)
    requires
        a == b,
    ensures
        absorb_all(a, calls) == absorb_all(b, calls),
        digest(absorb_all(a, calls)) == digest(absorb_all(b, calls)),
{
}

/// Two hashers that differ only in their initial buffer (`key0`) give
/// different digests after any sequence of calls.
pub proof fn law_key0_sensitivity(k0a: u64, k0b: u64, key1: u64, calls: Seq<Absorption>)
    requires
        k0a != k0b,
    ensures
        digest(absorb_all(HasherState { buffer: k0a, key: key1 }, calls)) != digest(
            absorb_all(HasherState { buffer: k0b, key: key1 }, calls),
        ),
{
    let s1 = absorb_all(HasherState { buffer: k0a, key: key1 }, calls);
    let s2 = absorb_all(HasherState { buffer: k0b, key: key1 }, calls);
    lemma_absorb_all_injective(
        HasherState { buffer: k0a, key: key1 },
        HasherState { buffer: k0b, key: key1 },
        calls,
    );
    lemma_mix_injective_in_data(s1.buffer, s2.buffer, key1);
}

/// Two fresh hashers that differ only in their key (`key1`) give different digests.
pub proof fn law_key1_sensitivity_fresh(key0: u64, k1a: u64, k1b: u64)
    requires
        k1a != k1b,
    ensures
        digest(HasherState { buffer: key0, key: k1a }) != digest(
            HasherState { buffer: key0, key: k1b },
        ),
{
    lemma_mix_injective_in_key(key0, k1a, k1b);
}

/// Default-constructed hashers have non-zero, distinct buffer and key, start
/// in the same state, and give equal digests for equal calls.
pub proof fn law_default_consistency(a: AHasher, b: AHasher, calls: Seq<Absorption>)
    requires
        a@ == default_state(),
        b@ == default_state(),
    ensures
        a@.buffer != 0,
        a@.key != 0,
        a@.buffer != a@.key,
        a@ == b@,
        digest(absorb_all(a@, calls)) == digest(absorb_all(b@, calls)),
{
}

} // verus!
