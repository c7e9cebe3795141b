//! Pseudo-random test-fixture generation.
//!
//! The crate has two halves. A base library generates values of primitive
//! and built-in composite shapes: integers, booleans, characters, text,
//! optional values, sequences, sets, mappings, fixed-size arrays and
//! tuples. A derivation component analyzes the shape of a user-defined
//! type (a product of fields or a sum of variants) and produces the plan
//! of a generator implementation for it, injecting the generation
//! capability into the type's generic parameters.

use vstd::prelude::*;

pub mod base;
pub mod fixtures;
pub mod json;
pub mod maps;
pub mod num;
pub mod render;
pub mod rng;
pub mod shape;
pub mod tuples;

verus! {

/// Upper bound (exclusive) on the length chosen for generated text and
/// collection values.
pub const LEN_LIMIT: usize = 16;

/// The capability of producing a fresh pseudo-random value.
///
/// `gen_valid` describes what holds of every value that `random` can
/// return; generation is total and never fails.
pub trait Random: Sized {
    spec fn gen_valid(&self) -> bool;

    fn random() -> (r: Self)
        ensures
            r.gen_valid(),
    ;
}

/// Turns a raw random draw into a variant selector: the dispatch index
/// of a sum shape with `count` variants is the draw reduced modulo
/// `count`, so it always lands in `[0, count)`.
pub fn variant_index_from(raw: u16, count: usize) -> (i: usize)
    requires
        count >= 1,
    ensures
        i < count,
        i == (raw as int) % (count as int),
{
    (raw as usize) % count
}

/// Draws the dispatch index for a sum shape with `count` variants:
/// the index is uniform over `[0, count)` whenever `count` divides the
/// raw draw's range.
pub fn random_variant_index(count: usize) -> (i: usize)
    requires
        count >= 1,
    ensures
        i < count,
{
    let raw = rng::rand_u16();
    variant_index_from(raw, count)
}

} // verus!
