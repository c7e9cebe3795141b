//! Base generators for set and mapping containers: a length below
//! `LEN_LIMIT` is chosen, that many independent elements (or key/value
//! pairs) are generated and inserted. Colliding keys silently reduce
//! the collected count, so only an upper bound on the size holds.
//!
//! The containers' verified interfaces speak of their contents only
//! under vstd's key-model conditions (`obeys_key_model`, `obeys_cmp`),
//! as the standard-library specifications do.

use vstd::prelude::*;
use std::collections::{BTreeMap, BTreeSet, HashMap, HashSet};
use std::hash::Hash;
use vstd::laws_cmp::obeys_cmp;
use vstd::std_specs::hash::obeys_key_model;
use crate::Random;
use crate::base::rand_length_iter;

verus! {

broadcast use vstd::std_specs::hash::group_hash_axioms;

impl<K: Random + Eq + Hash, V: Random> Random for HashMap<K, V> {
    open spec fn gen_valid(&self) -> bool {
        obeys_key_model::<K>() ==> {
            &&& self@.dom().finite()
            &&& self@.dom().len() < crate::LEN_LIMIT as nat
            &&& forall|k: K| #[trigger]
                self@.dom().contains(k) ==> k.gen_valid() && self@[k].gen_valid()
        }
    }

    fn random() -> (r: Self) {
        let mut pairs = rand_length_iter::<(K, V)>();
        let mut m: HashMap<K, V> = HashMap::new();
        loop
            invariant
                forall|i: int| 0 <= i < pairs@.len() ==> #[trigger] pairs@[i].gen_valid(),
                obeys_key_model::<K>() ==> {
                    &&& m@.dom().finite()
                    &&& m@.dom().len() + pairs@.len() < crate::LEN_LIMIT as nat
                    &&& forall|k: K| #[trigger]
                        m@.dom().contains(k) ==> k.gen_valid() && m@[k].gen_valid()
                },
            decreases pairs@.len(),
        {
            match pairs.pop() {
                Some(kv) => {
                    let ghost prev = m@;
                    m.insert(kv.0, kv.1);
                    proof {
                        assert(kv.gen_valid());
                        if obeys_key_model::<K>() {
                            assert(m@.dom() == prev.dom().insert(kv.0));
                            assert(m@.dom().len() <= prev.dom().len() + 1);
                        }
                    }
                },
                None => {
                    return m;
                },
            }
        }
    }
}

impl<T: Random + Eq + Hash> Random for HashSet<T> {
    open spec fn gen_valid(&self) -> bool {
        obeys_key_model::<T>() ==> {
            &&& self@.finite()
            &&& self@.len() < crate::LEN_LIMIT as nat
            &&& forall|t: T| #[trigger] self@.contains(t) ==> t.gen_valid()
        }
    }

    fn random() -> (r: Self) {
        let mut items = rand_length_iter::<T>();
        let mut s: HashSet<T> = HashSet::new();
        loop
            invariant
                forall|i: int| 0 <= i < items@.len() ==> #[trigger] items@[i].gen_valid(),
                obeys_key_model::<T>() ==> {
                    &&& s@.finite()
                    &&& s@.len() + items@.len() < crate::LEN_LIMIT as nat
                    &&& forall|t: T| #[trigger] s@.contains(t) ==> t.gen_valid()
                },
            decreases items@.len(),
        {
            match items.pop() {
                Some(t) => {
                    s.insert(t);
                },
                None => {
                    return s;
                },
            }
        }
    }
}

impl<K: Random + Ord, V: Random> Random for BTreeMap<K, V> {
    open spec fn gen_valid(&self) -> bool {
        obeys_cmp::<K>() ==> {
            &&& self@.dom().finite()
            &&& self@.dom().len() < crate::LEN_LIMIT as nat
            &&& forall|k: K| #[trigger]
                self@.dom().contains(k) ==> k.gen_valid() && self@[k].gen_valid()
        }
    }

    fn random() -> (r: Self) {
        let mut pairs = rand_length_iter::<(K, V)>();
        let mut m: BTreeMap<K, V> = BTreeMap::new();
        loop
            invariant
                forall|i: int| 0 <= i < pairs@.len() ==> #[trigger] pairs@[i].gen_valid(),
                obeys_cmp::<K>() ==> {
                    &&& m@.dom().finite()
                    &&& m@.dom().len() + pairs@.len() < crate::LEN_LIMIT as nat
                    &&& forall|k: K| #[trigger]
                        m@.dom().contains(k) ==> k.gen_valid() && m@[k].gen_valid()
                },
            decreases pairs@.len(),
        {
            match pairs.pop() {
                Some(kv) => {
                    let ghost prev = m@;
                    m.insert(kv.0, kv.1);
                    proof {
                        assert(kv.gen_valid());
                        if obeys_cmp::<K>() {
                            assert(m@.dom() == prev.dom().insert(kv.0));
                            assert(m@.dom().len() <= prev.dom().len() + 1);
                        }
                    }
                },
                None => {
                    return m;
                },
            }
        }
    }
}

impl<T: Random + Ord> Random for BTreeSet<T> {
    open spec fn gen_valid(&self) -> bool {
        obeys_cmp::<T>() ==> {
            &&& self@.finite()
            &&& self@.len() < crate::LEN_LIMIT as nat
            &&& forall|t: T| #[trigger] self@.contains(t) ==> t.gen_valid()
        }
    }

    fn random() -> (r: Self) {
        let mut items = rand_length_iter::<T>();
        let mut s: BTreeSet<T> = BTreeSet::new();
        loop
            invariant
                forall|i: int| 0 <= i < items@.len() ==> #[trigger] items@[i].gen_valid(),
                obeys_cmp::<T>() ==> {
                    &&& s@.finite()
                    &&& s@.len() + items@.len() < crate::LEN_LIMIT as nat
                    &&& forall|t: T| #[trigger] s@.contains(t) ==> t.gen_valid()
                },
            decreases items@.len(),
        {
            match items.pop() {
                Some(t) => {
                    s.insert(t);
                },
                None => {
                    return s;
                },
            }
        }
    }
}

} // verus!
