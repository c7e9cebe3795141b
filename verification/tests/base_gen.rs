//! Checks of the base generator library on concrete draws: value
//! ranges, collection length bounds, exact array sizes and variant
//! coverage.

use std::collections::{BTreeMap, BTreeSet, HashMap, HashSet};

use autorand::num::{
    random_i32, random_i64, random_thousandths, random_u16, random_u32, random_u64, random_u8,
};
use autorand::{random_variant_index, variant_index_from, Random, LEN_LIMIT};
use autorand::base::{rand_iter, rand_length_iter, random_string};
use autorand::fixtures::{E, U};

#[test]
fn primitive_ranges() {
    for _ in 0..1000 {
        assert!(random_u8() < u8::MAX);
        assert!(random_u16() < u16::MAX);
        assert!(random_u32(false) < u32::MAX);
        assert!(random_u64(false) < u64::MAX);
        assert!(random_i32(false) < i32::MAX);
        assert!(random_i64(false) < i64::MAX);
    }
}

#[test]
fn primitive_ranges_limited() {
    for _ in 0..1000 {
        assert!(random_u32(true) < 65535);
        assert!(random_u64(true) < 65535);
        let i = random_i32(true);
        assert!(-65535 <= i && i < 65535);
        let j = random_i64(true);
        assert!(-65535 <= j && j < 65535);
    }
}

#[test]
fn thousandths_range() {
    for _ in 0..1000 {
        assert!(random_thousandths() <= 1000);
    }
}

#[test]
fn text_and_sequence_lengths() {
    for _ in 0..200 {
        let s = random_string();
        assert!(s.len() < LEN_LIMIT);
        assert!(s.chars().all(|c| c.is_ascii_alphanumeric()));
        let v = rand_length_iter::<u8>();
        assert!(v.len() < LEN_LIMIT);
        let w = <Vec<u16> as Random>::random();
        assert!(w.len() < LEN_LIMIT);
    }
}

#[test]
fn set_and_mapping_lengths() {
    for _ in 0..100 {
        let m = <HashMap<u8, u16> as Random>::random();
        assert!(m.len() < LEN_LIMIT);
        let s = <HashSet<u32> as Random>::random();
        assert!(s.len() < LEN_LIMIT);
        let bm = <BTreeMap<u8, u16> as Random>::random();
        assert!(bm.len() < LEN_LIMIT);
        let bs = <BTreeSet<u32> as Random>::random();
        assert!(bs.len() < LEN_LIMIT);
    }
}

#[test]
fn fixed_size_arrays_fully_initialized() {
    let a = <[u8; 16] as Random>::random();
    assert_eq!(a.len(), 16);
    let b = <[u16; 32] as Random>::random();
    assert_eq!(b.len(), 32);
    let exact = rand_iter::<u8>(7);
    assert_eq!(exact.len(), 7);
}

#[test]
fn variant_selector_formula() {
    assert_eq!(variant_index_from(7, 3), 1);
    assert_eq!(variant_index_from(0, 3), 0);
    assert_eq!(variant_index_from(65535, 2), 1);
    assert_eq!(random_variant_index(1), 0);
    for _ in 0..1000 {
        assert!(random_variant_index(3) < 3);
    }
}

#[test]
fn sum_variant_coverage() {
    let mut unit = 0usize;
    let mut named = 0usize;
    let mut wrapped = 0usize;
    for _ in 0..10000 {
        match <E<u8, u8, u8>>::random() {
            E::A => unit += 1,
            E::B { u, c, primitive: _ } => {
                named += 1;
                assert_eq!(u.value.len(), 16);
                assert!(c.a.len() < LEN_LIMIT);
                assert!(c.c.len() < LEN_LIMIT);
            }
            E::C(inner) => {
                wrapped += 1;
                assert!(inner.b.len() < LEN_LIMIT);
            }
        }
    }
    assert!(unit > 0);
    assert!(named > 0);
    assert!(wrapped > 0);
}

#[test]
fn record_scenario() {
    let one = <U<u8, i32, i64>>::random();
    assert_eq!(one.value.len(), 16);
    for _ in 0..10000 {
        let u = <U<u8, i32, i64>>::random();
        let encoded = serde_json::to_string(&(u.a, u.b, u.c, u.value.to_vec())).unwrap();
        let (a, b, c, value): (u8, i32, i64, Vec<u8>) = serde_json::from_str(&encoded).unwrap();
        assert_eq!(a, u.a);
        assert_eq!(b, u.b);
        assert_eq!(c, u.c);
        assert_eq!(value, u.value.to_vec());
        assert_eq!(value.len(), 16);
    }
}

#[test]
fn optional_values_both_ways() {
    let mut present = 0usize;
    let mut absent = 0usize;
    for _ in 0..1000 {
        match <Option<u8> as Random>::random() {
            Some(v) => {
                present += 1;
                assert!(v < u8::MAX);
            }
            None => absent += 1,
        }
    }
    assert!(present > 0);
    assert!(absent > 0);
}
