//! The zero ring: the ring with a single element, in which zero and one coincide.
use vstd::prelude::*;
use crate::grouplike::{
    AbelianGroup, CommutativeMagma, Magma, Monoid, Quasigroup, Semigroup, UnitalMagma,
};
use crate::operators::{BinaryOperator, Plus, Times};
use crate::ringlike::{CommutativeRing, Ring};

verus! {

/// The only element of the zero ring. It is both zero and one, and its own inverse under
/// either operation.
#[derive(PartialEq, Eq, Structural, Clone, Copy, Debug)]
pub struct ZeroRing;

impl BinaryOperator<Plus> for ZeroRing {
    open spec fn op_spec(self, rhs: Self) -> Self {
        ZeroRing
    }

    fn op(&self, rhs: Self) -> (r: Self) {
        ZeroRing
    }

    fn op_assign(&mut self, rhs: Self) {
        *self = ZeroRing;
    }
}

impl BinaryOperator<Times> for ZeroRing {
    open spec fn op_spec(self, rhs: Self) -> Self {
        ZeroRing
    }

    fn op(&self, rhs: Self) -> (r: Self) {
        ZeroRing
    }

    fn op_assign(&mut self, rhs: Self) {
        *self = ZeroRing;
    }
}

impl Magma<Plus> for ZeroRing {}

impl Semigroup<Plus> for ZeroRing {
    proof fn lemma_associative(x: Self, y: Self, z: Self) {
    }
}

impl UnitalMagma<Plus> for ZeroRing {
    const IDENTITY: Self = ZeroRing;

    proof fn lemma_identity(x: Self) {
    }
}

impl Quasigroup<Plus> for ZeroRing {
    open spec fn inverse_spec(self) -> Self {
        ZeroRing
    }

    fn inverse(&self) -> (r: Self) {
        ZeroRing
    }

    proof fn lemma_inverse(x: Self, y: Self) {
    }
}

impl CommutativeMagma<Plus> for ZeroRing {
    proof fn lemma_commutative(x: Self, y: Self) {
    }
}

impl AbelianGroup<Plus> for ZeroRing {}

impl Magma<Times> for ZeroRing {}

impl Semigroup<Times> for ZeroRing {
    proof fn lemma_associative(x: Self, y: Self, z: Self) {
    }
}

impl UnitalMagma<Times> for ZeroRing {
    const IDENTITY: Self = ZeroRing;

    proof fn lemma_identity(x: Self) {
    }
}

impl CommutativeMagma<Times> for ZeroRing {
    proof fn lemma_commutative(x: Self, y: Self) {
    }
}

impl Monoid<Times> for ZeroRing {}

impl Ring for ZeroRing {
    const ZERO: Self = ZeroRing;

    const ONE: Self = ZeroRing;

    proof fn lemma_zero_one() {
    }

    proof fn lemma_distributive(x: Self, y: Self, z: Self) {
    }

    fn left_inverse_mul(&self) -> (r: Option<Self>) {
        Some(ZeroRing)
    }

    fn right_inverse_mul(&self) -> (r: Option<Self>) {
        Some(ZeroRing)
    }

    fn inverse_mul(&self) -> (r: Option<Self>) {
        Some(ZeroRing)
    }
}

impl CommutativeRing for ZeroRing {}

} // verus!
