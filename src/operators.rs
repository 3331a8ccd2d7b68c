//! Unary and binary operators, the ground on which every algebraic structure is built.
//!
//! A binary operator is indexed by a tag type `O`, so that one type may carry several
//! independent operators (addition and multiplication, say). [`Plus`] and [`Times`] are the
//! tags used by the ring-like structures; any other type, `()` included, serves as a tag for a
//! structure with a single operation.
use vstd::prelude::*;

verus! {

/// A closed unary operator.
///
/// `unary_op` and `unary_op_assign` compute the same value, one as a new value and one in place.
pub trait UnaryOperator<Output>: Sized {
    /// The value of the operator applied to `self`.
    spec fn unary_op_spec(self) -> Self;

    fn unary_op(&self) -> (r: Self)
        ensures
            r == self.unary_op_spec(),
    ;

    fn unary_op_assign(&mut self)
        ensures
            *final(self) == old(self).unary_op_spec(),
    ;
}

/// A closed binary operation that is defined for all inputs, tagged by `O`.
///
/// Formally, for all *x*, *y* in the type we have *xy* in the type. The two methods compute the
/// same value: `op` returns it, `op_assign` stores it in the left operand.
pub trait BinaryOperator<O>: Sized {
    /// The value of `self` combined with `rhs`.
    spec fn op_spec(self, rhs: Self) -> Self;

    fn op(&self, rhs: Self) -> (r: Self)
        ensures
            r == self.op_spec(rhs),
    ;

    fn op_assign(&mut self, rhs: Self)
        ensures
            *final(self) == old(self).op_spec(rhs),
    ;
}

/// The tag of an additive operation.
pub struct Plus;

/// The tag of a multiplicative operation.
pub struct Times;

/// The sum `x + y`: the operator tagged [`Plus`].
pub open spec fn sum<T: BinaryOperator<Plus>>(x: T, y: T) -> T {
    <T as BinaryOperator<Plus>>::op_spec(x, y)
}

/// The product `x * y`: the operator tagged [`Times`].
pub open spec fn product<T: BinaryOperator<Times>>(x: T, y: T) -> T {
    <T as BinaryOperator<Times>>::op_spec(x, y)
}

} // verus!
