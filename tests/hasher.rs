use ahash::convert::{
    read_u128_le, read_u16_le, read_u32_le, read_u64_le, u128_le_bytes, u16_le_bytes,
    u32_le_bytes, u64_le_bytes,
};
use ahash::{hash, AHasher};
use std::collections::HashMap;
use std::hash::{BuildHasherDefault, Hasher};

fn bytes_from(start: u8, n: usize) -> Vec<u8> {
    (0..n).map(|i| start + i as u8).collect()
}

#[test]
fn test_builder() {
    let mut map = HashMap::<u32, u64, BuildHasherDefault<AHasher>>::default();
    map.insert(1, 3);
}

#[test]
fn test_default() {
    let hasher_a = AHasher::default();
    assert_ne!(0, hasher_a.buffer());
    assert_ne!(0, hasher_a.key());
    assert_ne!(hasher_a.buffer(), hasher_a.key());
    let hasher_b = AHasher::default();
    assert_eq!(hasher_a.buffer(), hasher_b.buffer());
    assert_eq!(hasher_a.key(), hasher_b.key());
}

#[test]
fn test_hash() {
    let value: u64 = 1 << 32;
    let result = hash(value, 0);
    let value2: u64 = 1;
    let result2 = hash(value2, 0);
    let result = u64_le_bytes(result);
    let result2 = u64_le_bytes(result2);
    assert_ne!(hex::encode(result), hex::encode(result2));
}

#[test]
fn test_conversion() {
    let input: &[u8] = "dddddddd".as_bytes();
    let bytes: u64 = read_u64_le(input);
    assert_eq!(bytes, 0x6464646464646464);
}

#[test]
fn mix_exact_values() {
    assert_eq!(hash(1 << 32, 0), 15290602766209696354);
    assert_eq!(hash(1, 0), 14218322098621835687);
    assert_eq!(hash(0, 456), 5907298501738006568);
    assert_eq!(hash(123, 456), 15127757388206713960);
}

#[test]
fn explicit_keys_scenario() {
    let mut hasher = AHasher::new_with_keys(123, 456);
    hasher.write_u32(1989);
    hasher.write_u8(11);
    hasher.write_u8(9);
    hasher.write(b"Huh?");
    assert_eq!(hasher.finish(), 10767859532161196736);
}

#[test]
fn explicit_keys_are_stored() {
    let hasher = AHasher::new_with_keys(123, 456);
    assert_eq!(hasher.buffer(), 123);
    assert_eq!(hasher.key(), 456);
    assert_eq!(hasher.finish(), 15127757388206713960);
}

#[test]
fn finish_leaves_state_unchanged() {
    let mut hasher = AHasher::new_with_keys(7, 8);
    hasher.write_u64(99);
    let first = hasher.finish();
    assert_eq!(hasher.finish(), first);
    hasher.write_u8(1);
    assert_ne!(hasher.finish(), first);
    assert_eq!(hasher.key(), 8);
}

#[test]
fn same_calls_give_same_digest() {
    let run = || {
        let mut h = AHasher::new_with_keys(31, 41);
        h.write_u16(5);
        h.write(b"repeatable");
        h.write_u128(77);
        h.finish()
    };
    assert_eq!(run(), run());
}

#[test]
fn key_sensitivity() {
    let mut a = AHasher::new_with_keys(1, 2);
    let mut b = AHasher::new_with_keys(1, 3);
    a.write_u64(1);
    b.write_u64(1);
    assert_eq!(a.finish(), 17026940608149055180);
    assert_eq!(b.finish(), 6583976722408199910);
    let mut c = AHasher::new_with_keys(9, 2);
    c.write_u64(1);
    assert_ne!(a.finish(), c.finish());
}

#[test]
fn default_hashers_agree() {
    let mut a = AHasher::default();
    let mut b = AHasher::default();
    a.write_u32(8128);
    b.write_u32(8128);
    assert_eq!(a.finish(), b.finish());
}

#[test]
fn length_sensitivity() {
    let mut a = AHasher::new_with_keys(123, 456);
    let mut b = AHasher::new_with_keys(123, 456);
    a.write(&[0x61]);
    b.write(&[0x61, 0x62]);
    assert_eq!(a.finish(), 12286393895751187667);
    assert_eq!(b.finish(), 2884546494822875167);
    let mut c = AHasher::default();
    let mut d = AHasher::default();
    c.write(&[0x61]);
    d.write(&[0x61, 0x62]);
    assert_eq!(c.finish(), 8035804499919493835);
    assert_eq!(d.finish(), 457855200718912089);
}

#[test]
fn single_bytes_differ_from_bulk_bytes() {
    let mut a = AHasher::new_with_keys(123, 456);
    let mut b = AHasher::new_with_keys(123, 456);
    a.write_u8(0x61);
    a.write_u8(0x62);
    b.write(&[0x61, 0x62]);
    assert_eq!(a.finish(), 2565354004445159394);
    assert_eq!(b.finish(), 2884546494822875167);
    assert_ne!(a.finish(), b.finish());
}

#[test]
fn empty_write_absorbs_length() {
    let mut hasher = AHasher::new_with_keys(1, 2);
    let before = hasher.buffer();
    hasher.write(&[]);
    assert_ne!(hasher.buffer(), before);
    assert_eq!(hasher.buffer(), 1490049650928249677);
    assert_eq!(hasher.finish(), 2882276250781082866);
}

#[test]
fn write_at_each_tail_length() {
    let expected: [(usize, u64, u64); 9] = [
        (1, 5112015642142066519, 4487537825900739030),
        (2, 9987097870546122385, 9089852050857085106),
        (3, 914359733449976578, 15860646392597876706),
        (4, 8452048149192319264, 8541277193078511252),
        (7, 3403772582356012924, 4489180047710736020),
        (8, 5306517031723550504, 13177230566112502999),
        (15, 15908464479457843033, 10992893414172717268),
        (16, 14251286442056194191, 2994211864312067707),
        (17, 5117687371118133479, 7911552943271350732),
    ];
    for (n, buffer, digest) in expected {
        let mut hasher = AHasher::new_with_keys(1, 2);
        hasher.write(&bytes_from(0x10, n));
        assert_eq!(hasher.buffer(), buffer, "length {}", n);
        assert_eq!(hasher.finish(), digest, "length {}", n);
    }
}

#[test]
fn wide_value_is_low_half_then_high_half() {
    let mut a = AHasher::new_with_keys(5, 6);
    let mut b = AHasher::new_with_keys(5, 6);
    a.write_u128(0xfedcba9876543210_0123456789abcdef);
    b.write_u64(0x0123456789abcdef);
    b.write_u64(0xfedcba9876543210);
    assert_eq!(a.finish(), b.finish());
    assert_eq!(a.finish(), 8679524111128757687);
}

#[test]
fn narrow_values_widen() {
    let mut a = AHasher::new_with_keys(5, 6);
    let mut b = AHasher::new_with_keys(5, 6);
    let mut c = AHasher::new_with_keys(5, 6);
    let mut d = AHasher::new_with_keys(5, 6);
    let mut e = AHasher::new_with_keys(5, 6);
    a.write_u8(200);
    b.write_u16(200);
    c.write_u32(200);
    d.write_u64(200);
    e.write_usize(200);
    assert_eq!(a.finish(), d.finish());
    assert_eq!(b.finish(), d.finish());
    assert_eq!(c.finish(), d.finish());
    assert_eq!(e.finish(), d.finish());
}

#[test]
fn clones_evolve_independently() {
    let mut a = AHasher::new_with_keys(10, 20);
    a.write(b"shared prefix");
    let mut b = a.clone();
    assert_eq!(a.finish(), b.finish());
    a.write_u8(1);
    b.write_u8(2);
    assert_ne!(a.finish(), b.finish());
}

#[test]
fn hasher_trait_matches_methods() {
    let mut a = AHasher::new_with_keys(123, 456);
    {
        let h: &mut dyn Hasher = &mut a;
        h.write_u32(1989);
        h.write_u8(11);
        h.write_u8(9);
        h.write(b"Huh?");
        assert_eq!(h.finish(), 10767859532161196736);
    }
}

#[test]
fn le_round_trips() {
    let b16: [u8; 2] = [0xab, 0xcd];
    let b32: [u8; 4] = [1, 2, 3, 4];
    let b64: [u8; 8] = [9, 8, 7, 6, 5, 4, 3, 2];
    let b128: Vec<u8> = bytes_from(0x30, 16);
    assert_eq!(read_u16_le(&b16), 0xcdab);
    assert_eq!(read_u32_le(&b32), 0x04030201);
    assert_eq!(read_u64_le(&b64), 0x0203040506070809);
    assert_eq!(u16_le_bytes(read_u16_le(&b16)), b16.to_vec());
    assert_eq!(u32_le_bytes(read_u32_le(&b32)), b32.to_vec());
    assert_eq!(u64_le_bytes(read_u64_le(&b64)), b64.to_vec());
    assert_eq!(u128_le_bytes(read_u128_le(&b128)), b128);
    assert_eq!(read_u128_le(&u128_le_bytes(0x0102030405060708090a0b0c0d0e0f10)), 0x0102030405060708090a0b0c0d0e0f10);
}

#[test]
fn read_takes_only_the_prefix() {
    let input: &[u8] = "dddddddde".as_bytes();
    assert_eq!(read_u64_le(input), 0x6464646464646464);
    assert_eq!(read_u16_le(&[1, 2, 3]), 0x0201);
}
