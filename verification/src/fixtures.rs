//! Worked examples of derived generators: one generic record type,
//! one generic record holding containers, and one three-variant sum
//! type. Each `Random` implementation here is exactly what the
//! derivation plan of `shape` prescribes for the type, expanded by
//! hand, with the injected generation bound beside the pre-existing
//! ones.

use vstd::prelude::*;
use std::collections::{HashMap, HashSet};
use std::fmt::{Debug, Display};
use std::hash::Hash;
use crate::Random;

verus! {

/// A record whose last field is a fixed-size array.
pub struct U<T1, T2, T3> {
    pub a: T1,
    pub b: T2,
    pub c: T3,
    pub value: [T1; 16],
}

/// A record holding sequence and mapping containers.
pub struct C<T1, T2, T3> {
    pub a: Vec<T1>,
    pub b: Vec<T2>,
    pub c: HashMap<Vec<T3>, Vec<HashSet<T3>>>,
    pub value: (T1, T2, T3),
}

/// A sum type with a unit variant, a named-field variant and a
/// variant wrapping a product type.
pub enum E<T1, T2, T3> {
    A,
    B { u: U<T1, T2, T3>, c: C<T1, T2, T3>, primitive: char },
    C(C<T1, T2, T3>),
}

impl<T1: Random, T2: Random + Debug, T3: Random + Display> Random for U<T1, T2, T3> {
    open spec fn gen_valid(&self) -> bool {
        &&& self.a.gen_valid()
        &&& self.b.gen_valid()
        &&& self.c.gen_valid()
        &&& self.value.gen_valid()
    }

    fn random() -> (r: Self) {
        U {
            a: T1::random(),
            b: T2::random(),
            c: T3::random(),
            value: <[T1; 16] as Random>::random(),
        }
    }
}

impl<T1: Random, T2: Random + Debug, T3: Random + Eq + Hash> Random for C<T1, T2, T3> {
    open spec fn gen_valid(&self) -> bool {
        &&& self.a.gen_valid()
        &&& self.b.gen_valid()
        &&& self.c.gen_valid()
        &&& self.value.gen_valid()
    }

    fn random() -> (r: Self) {
        C {
            a: <Vec<T1> as Random>::random(),
            b: <Vec<T2> as Random>::random(),
            c: <HashMap<Vec<T3>, Vec<HashSet<T3>>> as Random>::random(),
            value: <(T1, T2, T3) as Random>::random(),
        }
    }
}

impl<
    T1: Random,
    T2: Random + Debug,
    T3: Random + Display + Eq + Hash,
> Random for E<T1, T2, T3> {
    open spec fn gen_valid(&self) -> bool {
        match self {
            E::A => true,
            E::B { u, c, primitive } => u.gen_valid() && c.gen_valid() && primitive.gen_valid(),
            E::C(inner) => inner.gen_valid(),
        }
    }

    fn random() -> (r: Self) {
        let idx = crate::random_variant_index(3);
        if idx == 0 {
            E::A
        } else if idx == 1 {
            E::B {
                u: <U<T1, T2, T3> as Random>::random(),
                c: <C<T1, T2, T3> as Random>::random(),
                primitive: <char as Random>::random(),
            }
        } else {
            E::C(<C<T1, T2, T3> as Random>::random())
        }
    }
}

} // verus!
