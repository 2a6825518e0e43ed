//! The keyed hasher state and its absorption rules.
use crate::mixing::{hash, mix, rotate_left, rotl};
use crate::convert::{read_u16_le, read_u32_le, read_u64_le};
use vstd::bytes::{spec_u16_from_le_bytes, spec_u32_from_le_bytes, spec_u64_from_le_bytes};
use vstd::prelude::*;
use vstd::slice::slice_subrange;

verus! {

/// Initial buffer of a default-constructed hasher (the first fractional hex digits of pi).
pub const DEFAULT_KEY0: u64 = 0x243f_6a88_85a3_08d3;

/// Key of a default-constructed hasher (the next fractional hex digits of pi).
pub const DEFAULT_KEY1: u64 = 0x1319_8a2e_0370_7344;

/// The abstract value of a hasher: the running buffer and the key.
pub struct HasherState {
    pub buffer: u64,
    pub key: u64,
}

/// Absorbs one 64-bit word: `buffer := mix(buffer ^ v, key)`.
pub open spec fn absorb_word(s: HasherState, v: u64) -> HasherState {
    HasherState { buffer: mix(s.buffer ^ v, s.key), key: s.key }
}

/// Absorbs a 128-bit value as its low 64 bits, then its high 64 bits.
pub open spec fn absorb_wide(s: HasherState, v: u128) -> HasherState {
    absorb_word(
        absorb_word(s, (v % 0x1_0000_0000_0000_0000) as u64),
        (v / 0x1_0000_0000_0000_0000) as u64,
    )
}

/// Absorbs each whole 8-byte block of `bytes`, front to back, as a little-endian word.
pub open spec fn absorb_blocks(s: HasherState, bytes: Seq<u8>) -> HasherState
    decreases bytes.len(),
{
    if bytes.len() < 8 {
        s
    } else {
        absorb_blocks(absorb_word(s, spec_u64_from_le_bytes(bytes.take(8))), bytes.skip(8))
    }
}

/// What remains of `bytes` once its whole 8-byte blocks are taken off the front.
pub open spec fn block_tail(bytes: Seq<u8>) -> Seq<u8>
    decreases bytes.len(),
{
    if bytes.len() < 8 {
        bytes
    } else {
        block_tail(bytes.skip(8))
    }
}

/// Folds a remainder of fewer than 8 bytes into `buffer` by xor and rotation:
/// first 4 bytes (if there are 4), then 2 of what is left, then the last one.
pub open spec fn fold_tail(buffer: u64, tail: Seq<u8>) -> u64 {
    let b4 = if tail.len() >= 4 {
        rotl(buffer ^ (spec_u32_from_le_bytes(tail.take(4)) as u64), 32)
    } else {
        buffer
    };
    let t4 = if tail.len() >= 4 {
        tail.skip(4)
    } else {
        tail
    };
    let b2 = if t4.len() >= 2 {
        rotl(b4 ^ (spec_u16_from_le_bytes(t4.take(2)) as u64), 16)
    } else {
        b4
    };
    let t2 = if t4.len() >= 2 {
        t4.skip(2)
    } else {
        t4
    };
    if t2.len() >= 1 {
        rotl(b2 ^ (t2[0] as u64), 8)
    } else {
        b2
    }
}

/// Absorbs a byte sequence: its whole blocks, then its folded tail, then its length.
pub open spec fn absorb_bytes(s: HasherState, bytes: Seq<u8>) -> HasherState {
    let blocks = absorb_blocks(s, bytes);
    let folded = HasherState { buffer: fold_tail(blocks.buffer, block_tail(bytes)), key: s.key };
    absorb_word(folded, bytes.len() as u64)
}

/// The digest of a state.
pub open spec fn digest(s: HasherState) -> u64 {
    mix(s.buffer, s.key)
}

/// The state of a default-constructed hasher.
pub open spec fn default_state() -> HasherState {
    HasherState { buffer: DEFAULT_KEY0, key: DEFAULT_KEY1 }
}

/// One absorption call: a primitive integer widened to 64 bits (`write_u8`
/// through `write_u64`, and `write_usize`), a 128-bit value (`write_u128`), or
/// a byte sequence (`write`).
pub enum Absorption {
    Word(u64),
    Wide(u128),
    Bytes(Seq<u8>),
}

/// The state after one absorption call.
pub open spec fn absorb(s: HasherState, a: Absorption) -> HasherState {
    match a {
        Absorption::Word(v) => absorb_word(s, v),
        Absorption::Wide(v) => absorb_wide(s, v),
        Absorption::Bytes(b) => absorb_bytes(s, b),
    }
}

/// The state after a sequence of absorption calls, first to last.
pub open spec fn absorb_all(s: HasherState, calls: Seq<Absorption>) -> HasherState
    decreases calls.len(),
{
    if calls.len() == 0 {
        s
    } else {
        absorb_all(absorb(s, calls[0]), calls.drop_first())
    }
}

/// Absorbing whole blocks never changes the key.
pub proof fn lemma_absorb_blocks_key(s: HasherState, bytes: Seq<u8>)
    ensures
        absorb_blocks(s, bytes).key == s.key,
    decreases bytes.len(),
{
    if bytes.len() >= 8 {
        lemma_absorb_blocks_key(absorb_word(s, spec_u64_from_le_bytes(bytes.take(8))), bytes.skip(8));
    }
}

/// Folds a remainder of fewer than 8 bytes into `buffer`.
fn fold_tail_word(buffer: u64, tail: &[u8]) -> (r: u64)
    requires
        tail@.len() < 8,
    ensures
        r == fold_tail(buffer, tail@),
{
    let mut b = buffer;
    let mut pos: usize = 0;
    if tail.len() >= 4 {
        let v = read_u32_le(tail);
        b = rotate_left(b ^ v as u64, 32);
        pos = 4;
    }
    let ghost t4 = tail@.skip(pos as int);
    proof {
        if tail@.len() >= 4 {
            assert(t4 =~= tail@.skip(4));
        } else {
            assert(t4 =~= tail@);
        }
    }
    if tail.len() - pos >= 2 {
        let rest = slice_subrange(tail, pos, tail.len());
        assert(rest@ =~= t4);
        let v = read_u16_le(rest);
        b = rotate_left(b ^ v as u64, 16);
        pos = pos + 2;
    }
    let ghost t2 = tail@.skip(pos as int);
    proof {
        if t4.len() >= 2 {
            assert(t2 =~= t4.skip(2));
        } else {
            assert(t2 =~= t4);
        }
    }
    if tail.len() - pos >= 1 {
        b = rotate_left(b ^ tail[pos] as u64, 8);
    }
    b
}

/// A hasher for an arbitrary stream of integers and bytes.
///
/// Each absorption updates the buffer; the key stays as constructed.
/// Cloning gives an independent copy, so that two digests can share a prefix.
#[derive(Debug, Clone, Copy)]
pub struct AHasher {
    buffer: u64,
    key: u64,
}

impl View for AHasher {
    type V = HasherState;

    closed spec fn view(&self) -> HasherState {
        HasherState { buffer: self.buffer, key: self.key }
    }
}

impl AHasher {
    /// Creates a hasher whose buffer starts at `key0` and whose key is `key1`.
    pub fn new_with_keys(key0: u64, key1: u64) -> (r: AHasher)
        ensures
            r@ == (HasherState { buffer: key0, key: key1 }),
    {
        AHasher { buffer: key0, key: key1 }
    }

    /// The running buffer.
    pub fn buffer(&self) -> (r: u64)
        ensures
            r == self@.buffer,
    {
        self.buffer
    }

    /// The key.
    pub fn key(&self) -> (r: u64)
        ensures
            r == self@.key,
    {
        self.key
    }

    /// Absorbs a byte.
    pub fn write_u8(&mut self, i: u8)
        ensures
            final(self)@ == absorb_word(old(self)@, i as u64),
    {
        self.buffer = hash(self.buffer ^ i as u64, self.key);
    }

    /// Absorbs a 16-bit value.
    pub fn write_u16(&mut self, i: u16)
        ensures
            final(self)@ == absorb_word(old(self)@, i as u64),
    {
        self.buffer = hash(self.buffer ^ i as u64, self.key);
    }

    /// Absorbs a 32-bit value.
    pub fn write_u32(&mut self, i: u32)
        ensures
            final(self)@ == absorb_word(old(self)@, i as u64),
    {
        self.buffer = hash(self.buffer ^ i as u64, self.key);
    }

    /// Absorbs a 64-bit value.
    pub fn write_u64(&mut self, i: u64)
        ensures
            final(self)@ == absorb_word(old(self)@, i),
    {
        self.buffer = hash(self.buffer ^ i, self.key);
    }

    /// Absorbs a 128-bit value, low half first.
    pub fn write_u128(&mut self, i: u128)
        ensures
            final(self)@ == absorb_wide(old(self)@, i),
    {
        let low = (i & 0xffff_ffff_ffff_ffff) as u64;
        let high = (i >> 64u32) as u64;
        assert(i & 0xffff_ffff_ffff_ffff == i % 0x1_0000_0000_0000_0000) by (bit_vector);
        assert(i >> 64u32 == i / 0x1_0000_0000_0000_0000) by (bit_vector);
        self.buffer = hash(self.buffer ^ low, self.key);
        self.buffer = hash(self.buffer ^ high, self.key);
    }

    /// Absorbs a platform-width value as a 64-bit one.
    pub fn write_usize(&mut self, i: usize)
        ensures
            final(self)@ == absorb_word(old(self)@, i as u64),
    {
        self.write_u64(i as u64);
    }

    /// Absorbs each whole 8-byte block of `input`; returns where the tail starts.
    fn write_blocks(&mut self, input: &[u8]) -> (pos: usize)
        ensures
            final(self)@ == absorb_blocks(old(self)@, input@),
            pos <= input@.len(),
            input@.len() - pos < 8,
            input@.skip(pos as int) == block_tail(input@),
    {
        let mut pos: usize = 0;
        assert(input@.skip(0) =~= input@);
        while input.len() - pos >= 8
            invariant
                pos <= input@.len(),
                absorb_blocks(self@, input@.skip(pos as int)) == absorb_blocks(old(self)@, input@),
                block_tail(input@.skip(pos as int)) == block_tail(input@),
            decreases input@.len() - pos,
        {
            let rest = slice_subrange(input, pos, input.len());
            let v = read_u64_le(rest);
            proof {
                assert(input@.skip(pos as int) =~= rest@);
                assert(input@.skip(pos as int).skip(8) =~= input@.skip(pos + 8));
            }
            self.write_u64(v);
            pos = pos + 8;
        }
        pos
    }

    /// Absorbs a byte sequence: each whole 8-byte block as a little-endian word,
    /// then the remaining 0 to 7 bytes folded in by xor and rotation, then the
    /// length. An empty sequence still absorbs its length.
    pub fn write(&mut self, input: &[u8])
        ensures
            final(self)@ == absorb_bytes(old(self)@, input@),
    {
        let length = input.len() as u64;
        let pos = self.write_blocks(input);
        proof {
            lemma_absorb_blocks_key(old(self)@, input@);
        }
        let tail = slice_subrange(input, pos, input.len());
        proof {
            assert(tail@ =~= input@.skip(pos as int));
        }
        self.buffer = fold_tail_word(self.buffer, tail);
        self.buffer = hash(self.buffer ^ length, self.key);
    }

    /// The digest of everything absorbed so far; the state is left as it is.
    pub fn finish(&self) -> (r: u64)
        ensures
            r == digest(self@),
    {
        hash(self.buffer, self.key)
    }
}

impl Default for AHasher {
    /// A hasher on the library's fixed default keys: every default-constructed
    /// hasher starts from the same state.
    fn default() -> (r: AHasher)
        ensures
            r@ == default_state(),
    {
        AHasher { buffer: DEFAULT_KEY0, key: DEFAULT_KEY1 }
    }
}

/// The standard streaming-hasher interface, through the methods above.
impl core::hash::Hasher for AHasher {
    fn write_u8(&mut self, i: u8) {
        AHasher::write_u8(self, i)
    }

    fn write_u16(&mut self, i: u16) {
        AHasher::write_u16(self, i)
    }

    fn write_u32(&mut self, i: u32) {
        AHasher::write_u32(self, i)
    }

    fn write_u64(&mut self, i: u64) {
        AHasher::write_u64(self, i)
    }

    fn write_u128(&mut self, i: u128) {
        AHasher::write_u128(self, i)
    }

    fn write_usize(&mut self, i: usize) {
        AHasher::write_usize(self, i)
    }

    fn write(&mut self, bytes: &[u8]) {
        AHasher::write(self, bytes)
    }

    fn finish(&self) -> u64 {
        AHasher::finish(self)
    }
}

} // verus!
