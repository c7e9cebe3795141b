//! Base generators for built-in composite shapes: optional values,
//! text, sequences and fixed-size arrays.

use vstd::prelude::*;
use std::collections::VecDeque;
use crate::Random;
use crate::rng;

verus! {

/// Produces exactly `n` independently generated values, in order.
pub fn rand_iter<T: Random>(n: usize) -> (v: Vec<T>)
    ensures
        v@.len() == n as nat,
        forall|i: int| 0 <= i < v@.len() ==> v@[i].gen_valid(),
{
    let mut v: Vec<T> = Vec::new();
    let mut i: usize = 0;
    while i < n
        invariant
            i <= n,
            v@.len() == i as nat,
            forall|j: int| 0 <= j < v@.len() ==> v@[j].gen_valid(),
        decreases n - i,
    {
        v.push(T::random());
        i = i + 1;
    }
    v
}

/// Chooses a length below `LEN_LIMIT`, then produces that many
/// independently generated values.
pub fn rand_length_iter<T: Random>() -> (v: Vec<T>)
    ensures
        v@.len() < crate::LEN_LIMIT as nat,
        forall|i: int| 0 <= i < v@.len() ==> v@[i].gen_valid(),
{
    let len = rng::rand_range_u64(0, crate::LEN_LIMIT as u64) as usize;
    rand_iter(len)
}

/// Relies on `String`'s `FromIterator` for characters: collecting
/// characters yields exactly those characters in order.
#[verifier::external_body]
pub(crate) fn chars_to_string(cs: &Vec<char>) -> (s: String)
    ensures
        s@ == cs@,
{
    cs.iter().collect()
}

/// Chooses a length below `LEN_LIMIT`, then samples that many
/// alphanumeric characters.
pub fn random_string() -> (s: String)
    ensures
        s@.len() < crate::LEN_LIMIT as nat,
        forall|i: int| 0 <= i < s@.len() ==> rng::is_alnum_char(s@[i]),
{
    let len = rng::rand_range_u64(0, crate::LEN_LIMIT as u64) as usize;
    let mut cs: Vec<char> = Vec::new();
    let mut i: usize = 0;
    while i < len
        invariant
            i <= len,
            cs@.len() == i as nat,
            forall|j: int| 0 <= j < cs@.len() ==> rng::is_alnum_char(cs@[j]),
        decreases len - i,
    {
        cs.push(rng::rand_alnum_char());
        i = i + 1;
    }
    chars_to_string(&cs)
}

/// Relies on std's `TryFrom<Vec<T>>` for arrays: a vector of length
/// `N` converts into the array holding exactly its elements. The
/// conversion fails only on a length mismatch, which the precondition
/// excludes.
#[verifier::external_body]
fn vec_into_array<T, const N: usize>(v: Vec<T>) -> (a: [T; N])
    requires
        v@.len() == N as nat,
    ensures
        a@ == v@,
{
    let r: Result<[T; N], Vec<T>> = v.try_into();
    r.ok().unwrap()
}

impl<T: Random> Random for Option<T> {
    open spec fn gen_valid(&self) -> bool {
        match self {
            Some(t) => t.gen_valid(),
            None => true,
        }
    }

    fn random() -> (r: Self) {
        if rng::rand_bool() {
            Some(T::random())
        } else {
            None
        }
    }
}

impl Random for String {
    open spec fn gen_valid(&self) -> bool {
        &&& self@.len() < crate::LEN_LIMIT as nat
        &&& forall|i: int| 0 <= i < self@.len() ==> rng::is_alnum_char(self@[i])
    }

    fn random() -> (r: Self) {
        random_string()
    }
}

impl<T: Random> Random for Vec<T> {
    open spec fn gen_valid(&self) -> bool {
        &&& self@.len() < crate::LEN_LIMIT as nat
        &&& forall|i: int| 0 <= i < self@.len() ==> self@[i].gen_valid()
    }

    fn random() -> (r: Self) {
        rand_length_iter()
    }
}

impl<T: Random> Random for VecDeque<T> {
    open spec fn gen_valid(&self) -> bool {
        &&& self@.len() < crate::LEN_LIMIT as nat
        &&& forall|i: int| 0 <= i < self@.len() ==> self@[i].gen_valid()
    }

    fn random() -> (r: Self) {
        let len = rng::rand_range_u64(0, crate::LEN_LIMIT as u64) as usize;
        let mut q: VecDeque<T> = VecDeque::new();
        let mut i: usize = 0;
        while i < len
            invariant
                i <= len,
                len < crate::LEN_LIMIT,
                q@.len() == i as nat,
                forall|j: int| 0 <= j < q@.len() ==> q@[j].gen_valid(),
            decreases len - i,
        {
            q.push_back(T::random());
            i = i + 1;
        }
        q
    }
}

impl<T: Random, const N: usize> Random for [T; N] {
    open spec fn gen_valid(&self) -> bool {
        forall|i: int| 0 <= i < self@.len() ==> self@[i].gen_valid()
    }

    fn random() -> (r: Self) {
        let v = rand_iter::<T>(N);
        vec_into_array(v)
    }
}

} // verus!
