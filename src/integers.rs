//! The 64-bit integers under wrapping addition: an [`AbelianGroup`] tagged [`Plus`].
//!
//! Wrapping addition is addition modulo 2^64, read back in the range of `i64`. It is total,
//! and it is exact on every sum that fits.
use vstd::prelude::*;
use crate::grouplike::{
    AbelianGroup, AssociativeQuasigroup, CommutativeMagma, CommutativeMonoid, Group, Loop, Magma,
    Monoid, Quasigroup, Semigroup, UnitalMagma,
};
use crate::operators::{BinaryOperator, Plus, UnaryOperator};

verus! {

impl BinaryOperator<Plus> for i64 {
    open spec fn op_spec(self, rhs: Self) -> Self {
        self.wrapping_add(rhs)
    }

    fn op(&self, rhs: Self) -> (r: Self) {
        self.wrapping_add(rhs)
    }

    fn op_assign(&mut self, rhs: Self) {
        *self = self.wrapping_add(rhs);
    }
}

/// Negation, wrapping at `i64::MIN`.
impl UnaryOperator<Plus> for i64 {
    open spec fn unary_op_spec(self) -> Self {
        0i64.wrapping_sub(self)
    }

    fn unary_op(&self) -> (r: Self) {
        0i64.wrapping_sub(*self)
    }

    fn unary_op_assign(&mut self) {
        *self = 0i64.wrapping_sub(*self);
    }
}

impl Magma<Plus> for i64 {}

impl Semigroup<Plus> for i64 {
    proof fn lemma_associative(x: Self, y: Self, z: Self) {
    }
}

impl Quasigroup<Plus> for i64 {
    open spec fn inverse_spec(self) -> Self {
        0i64.wrapping_sub(self)
    }

    fn inverse(&self) -> (r: Self) {
        0i64.wrapping_sub(*self)
    }

    proof fn lemma_inverse(x: Self, y: Self) {
    }
}

impl UnitalMagma<Plus> for i64 {
    const IDENTITY: Self = 0;

    proof fn lemma_identity(x: Self) {
    }
}

impl CommutativeMagma<Plus> for i64 {
    proof fn lemma_commutative(x: Self, y: Self) {
    }
}

impl Monoid<Plus> for i64 {}

impl AssociativeQuasigroup<Plus> for i64 {}

impl Loop<Plus> for i64 {}

impl CommutativeMonoid<Plus> for i64 {}

impl Group<Plus> for i64 {}

impl AbelianGroup<Plus> for i64 {}

} // verus!
