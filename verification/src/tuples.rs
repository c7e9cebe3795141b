//! Base generators for tuples of arity one to eleven: each position's
//! value is generated independently, in order.

use vstd::prelude::*;
use crate::Random;

verus! {

impl<A: Random> Random for (A,) {
    open spec fn gen_valid(&self) -> bool {
        self.0.gen_valid()
    }

    fn random() -> (r: Self) {
        (A::random(),)
    }
}

impl<A: Random, B: Random> Random for (A, B) {
    open spec fn gen_valid(&self) -> bool {
        self.0.gen_valid() && self.1.gen_valid()
    }

    fn random() -> (r: Self) {
        (A::random(), B::random())
    }
}

impl<A: Random, B: Random, C: Random> Random for (A, B, C) {
    open spec fn gen_valid(&self) -> bool {
        self.0.gen_valid() && self.1.gen_valid() && self.2.gen_valid()
    }

    fn random() -> (r: Self) {
        (A::random(), B::random(), C::random())
    }
}

impl<A: Random, B: Random, C: Random, D: Random> Random for (A, B, C, D) {
    open spec fn gen_valid(&self) -> bool {
        self.0.gen_valid() && self.1.gen_valid() && self.2.gen_valid() && self.3.gen_valid()
    }

    fn random() -> (r: Self) {
        (A::random(), B::random(), C::random(), D::random())
    }
}

impl<A: Random, B: Random, C: Random, D: Random, E: Random> Random for (A, B, C, D, E) {
    open spec fn gen_valid(&self) -> bool {
        self.0.gen_valid() && self.1.gen_valid() && self.2.gen_valid() && self.3.gen_valid()
            && self.4.gen_valid()
    }

    fn random() -> (r: Self) {
        (A::random(), B::random(), C::random(), D::random(), E::random())
    }
}

impl<A: Random, B: Random, C: Random, D: Random, E: Random, F: Random> Random for (
    A,
    B,
    C,
    D,
    E,
    F,
) {
    open spec fn gen_valid(&self) -> bool {
        self.0.gen_valid() && self.1.gen_valid() && self.2.gen_valid() && self.3.gen_valid()
            && self.4.gen_valid() && self.5.gen_valid()
    }

    fn random() -> (r: Self) {
        (A::random(), B::random(), C::random(), D::random(), E::random(), F::random())
    }
}

impl<A: Random, B: Random, C: Random, D: Random, E: Random, F: Random, G: Random> Random for (
    A,
    B,
    C,
    D,
    E,
    F,
    G,
) {
    open spec fn gen_valid(&self) -> bool {
        self.0.gen_valid() && self.1.gen_valid() && self.2.gen_valid() && self.3.gen_valid()
            && self.4.gen_valid() && self.5.gen_valid() && self.6.gen_valid()
    }

    fn random() -> (r: Self) {
        (A::random(), B::random(), C::random(), D::random(), E::random(), F::random(), G::random())
    }
}

impl<
    A: Random,
    B: Random,
    C: Random,
    D: Random,
    E: Random,
    F: Random,
    G: Random,
    H: Random,
> Random for (A, B, C, D, E, F, G, H) {
    open spec fn gen_valid(&self) -> bool {
        self.0.gen_valid() && self.1.gen_valid() && self.2.gen_valid() && self.3.gen_valid()
            && self.4.gen_valid() && self.5.gen_valid() && self.6.gen_valid()
            && self.7.gen_valid()
    }

    fn random() -> (r: Self) {
        (
            A::random(),
            B::random(),
            C::random(),
            D::random(),
            E::random(),
            F::random(),
            G::random(),
            H::random(),
        )
    }
}

impl<
    A: Random,
    B: Random,
    C: Random,
    D: Random,
    E: Random,
    F: Random,
    G: Random,
    H: Random,
    I: Random,
> Random for (A, B, C, D, E, F, G, H, I) {
    open spec fn gen_valid(&self) -> bool {
        self.0.gen_valid() && self.1.gen_valid() && self.2.gen_valid() && self.3.gen_valid()
            && self.4.gen_valid() && self.5.gen_valid() && self.6.gen_valid()
            && self.7.gen_valid() && self.8.gen_valid()
    }

    fn random() -> (r: Self) {
        (
            A::random(),
            B::random(),
            C::random(),
            D::random(),
            E::random(),
            F::random(),
            G::random(),
            H::random(),
            I::random(),
        )
    }
}

impl<
    A: Random,
    B: Random,
    C: Random,
    D: Random,
    E: Random,
    F: Random,
    G: Random,
    H: Random,
    I: Random,
    J: Random,
> Random for (A, B, C, D, E, F, G, H, I, J) {
    open spec fn gen_valid(&self) -> bool {
        self.0.gen_valid() && self.1.gen_valid() && self.2.gen_valid() && self.3.gen_valid()
            && self.4.gen_valid() && self.5.gen_valid() && self.6.gen_valid()
            && self.7.gen_valid() && self.8.gen_valid() && self.9.gen_valid()
    }

    fn random() -> (r: Self) {
        (
            A::random(),
            B::random(),
            C::random(),
            D::random(),
            E::random(),
            F::random(),
            G::random(),
            H::random(),
            I::random(),
            J::random(),
        )
    }
}

impl<
    A: Random,
    B: Random,
    C: Random,
    D: Random,
    E: Random,
    F: Random,
    G: Random,
    H: Random,
    I: Random,
    J: Random,
    K: Random,
> Random for (A, B, C, D, E, F, G, H, I, J, K) {
    open spec fn gen_valid(&self) -> bool {
        self.0.gen_valid() && self.1.gen_valid() && self.2.gen_valid() && self.3.gen_valid()
            && self.4.gen_valid() && self.5.gen_valid() && self.6.gen_valid()
            && self.7.gen_valid() && self.8.gen_valid() && self.9.gen_valid()
            && self.10.gen_valid()
    }

    fn random() -> (r: Self) {
        (
            A::random(),
            B::random(),
            C::random(),
            D::random(),
            E::random(),
            F::random(),
            G::random(),
            H::random(),
            I::random(),
            J::random(),
            K::random(),
        )
    }
}

} // verus!
