//! Group-like algebraic structures: a set with one closed binary operator.
//!
//! The operator is the [`BinaryOperator`] tagged `O`; all of these structures are *total*, their
//! operator being defined for all inputs. Each law of a structure is a proof function of its trait,
//! so an implementation states the law and proves it for its own type.
use vstd::prelude::*;
use crate::operators::BinaryOperator;

verus! {

/// A set with a closed [`BinaryOperator`] that is defined for all inputs.
pub trait Magma<O>: BinaryOperator<O> {}

/// A [`Magma`] with associativity: for all *x*, *y*, *z* we have *(xy)z* = *x(yz)*.
pub trait Semigroup<O>: Magma<O> {
    /// Associativity.
    proof fn lemma_associative(x: Self, y: Self, z: Self)
        ensures
            x.op_spec(y).op_spec(z) == x.op_spec(y.op_spec(z)),
    ;
}

/// A [`Magma`] with invertibility.
///
/// For every *x* there is an *x'* = `inverse(x)` such that *xx'* = *x'x* and that element is an
/// identity of the set: it leaves every *y* unchanged on either side.
pub trait Quasigroup<O>: Magma<O> {
    /// The inverse of `self`.
    spec fn inverse_spec(self) -> Self;

    /// Finds the inverse of `self`.
    fn inverse(&self) -> (r: Self)
        ensures
            r == self.inverse_spec(),
    ;

    /// `x` combined with its inverse, on either side, is an identity.
    proof fn lemma_inverse(x: Self, y: Self)
        ensures
            x.op_spec(x.inverse_spec()) == x.inverse_spec().op_spec(x),
            x.op_spec(x.inverse_spec()).op_spec(y) == y,
            y.op_spec(x.op_spec(x.inverse_spec())) == y,
    ;
}

/// A [`Magma`] with identity: there is an *i* such that for all *x*, *xi* = *ix* = *x*.
pub trait UnitalMagma<O>: Magma<O> {
    const IDENTITY: Self;

    /// `IDENTITY` is a two-sided identity.
    proof fn lemma_identity(x: Self)
        ensures
            x.op_spec(Self::IDENTITY) == x,
            Self::IDENTITY.op_spec(x) == x,
    ;
}

/// A commutative [`Magma`]: for all *x*, *y*, *xy* = *yx*.
pub trait CommutativeMagma<O>: Magma<O> {
    /// Commutativity.
    proof fn lemma_commutative(x: Self, y: Self)
        ensures
            x.op_spec(y) == y.op_spec(x),
    ;
}

/// A [`Semigroup`] with identity: a [`Semigroup`] that is also a [`UnitalMagma`].
pub trait Monoid<O>: Semigroup<O> + UnitalMagma<O> {}

/// A [`Semigroup`] that is also a [`Quasigroup`].
pub trait AssociativeQuasigroup<O>: Semigroup<O> + Quasigroup<O> {}

/// A [`Quasigroup`] that has an identity: a [`Quasigroup`] that is also a [`UnitalMagma`].
pub trait Loop<O>: Quasigroup<O> + UnitalMagma<O> {}

/// A [`Monoid`] that is also commutative.
pub trait CommutativeMonoid<O>: Semigroup<O> + UnitalMagma<O> + CommutativeMagma<O> {}

/// A [`Monoid`] with invertibility: a [`Semigroup`], [`UnitalMagma`] and [`Quasigroup`] at once.
pub trait Group<O>: Semigroup<O> + UnitalMagma<O> + Quasigroup<O> {}

/// A commutative [`Group`].
pub trait AbelianGroup<O>: Semigroup<O> + UnitalMagma<O> + Quasigroup<O> + CommutativeMagma<O> {}

/// In a [`Quasigroup`] with an identity, an element combined with its inverse on either side
/// gives `IDENTITY`.
pub proof fn lemma_inverse_is_identity<O, T: Quasigroup<O> + UnitalMagma<O>>(x: T)
    ensures
        x.op_spec(x.inverse_spec()) == T::IDENTITY,
        x.inverse_spec().op_spec(x) == T::IDENTITY,
{
    let e = x.op_spec(x.inverse_spec());
    T::lemma_inverse(x, T::IDENTITY);
    T::lemma_identity(e);
}

} // verus!
