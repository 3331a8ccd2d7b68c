//! Ring-like structures: two binary operators, addition ([`Plus`]) and multiplication
//! ([`Times`]), linked by distributivity.
//!
//! Addition forms an [`AbelianGroup`] whose identity is called zero, multiplication a [`Monoid`]
//! whose identity is called one. Multiplicative inverses are partial: the inverse queries of a
//! [`Ring`] say whether an inverse exists instead of failing.
use vstd::prelude::*;
use crate::grouplike::{AbelianGroup, CommutativeMagma, Monoid, Quasigroup, Semigroup, UnitalMagma};
use crate::operators::{product, sum, Plus, Times};

verus! {

/// `i` is a left multiplicative inverse of `x`: *ix* = 1, where 1 is the identity of
/// multiplication.
pub open spec fn is_left_inverse<R: UnitalMagma<Times>>(i: R, x: R) -> bool {
    product(i, x) == R::IDENTITY
}

/// `i` is a right multiplicative inverse of `x`: *xi* = 1.
pub open spec fn is_right_inverse<R: UnitalMagma<Times>>(i: R, x: R) -> bool {
    product(x, i) == R::IDENTITY
}

/// `i` is a two-sided multiplicative inverse of `x`: *ix* = *xi* = 1.
pub open spec fn is_inverse<R: UnitalMagma<Times>>(i: R, x: R) -> bool {
    is_left_inverse(i, x) && is_right_inverse(i, x)
}

/// `x` is a unit: it has a two-sided multiplicative inverse.
pub open spec fn is_unit_spec<R: UnitalMagma<Times>>(x: R) -> bool {
    exists|i: R| is_inverse(i, x)
}

/// `x` and `y` are associates: *x* = *uy* for some unit *u*.
pub open spec fn associated<R: UnitalMagma<Times>>(x: R, y: R) -> bool {
    exists|u: R| is_unit_spec(u) && x == product(u, y)
}

/// `c` divides `a`: *a* = *ck* for some *k*.
pub open spec fn divides<R: UnitalMagma<Times>>(c: R, a: R) -> bool {
    exists|k: R| a == product(c, k)
}

/// `g` is a greatest common divisor of `a` and `b`: it divides both, and every common divisor
/// of `a` and `b` divides it.
pub open spec fn is_gcd<R: UnitalMagma<Times>>(g: R, a: R, b: R) -> bool {
    &&& divides(g, a)
    &&& divides(g, b)
    &&& forall|c: R| #![trigger divides(c, a), divides(c, b)]
        divides(c, a) && divides(c, b) ==> divides(c, g)
}

/// A ring: addition forms an [`AbelianGroup`], multiplication a [`Monoid`], and multiplication
/// distributes over addition on both sides.
///
/// `ZERO` is the additive identity and `ONE` the multiplicative one. An element with a
/// two-sided multiplicative inverse is a *unit*.
pub trait Ring: AbelianGroup<Plus> + Monoid<Times> {
    const ZERO: Self;

    const ONE: Self;

    /// `ZERO` and `ONE` are the identities of addition and multiplication.
    proof fn lemma_zero_one()
        ensures
            Self::ZERO == <Self as UnitalMagma<Plus>>::IDENTITY,
            Self::ONE == <Self as UnitalMagma<Times>>::IDENTITY,
    ;

    /// Multiplication distributes over addition: *x(y + z)* = *xy* + *xz* and
    /// *(y + z)x* = *yx* + *zx*.
    proof fn lemma_distributive(x: Self, y: Self, z: Self)
        ensures
            product(x, sum(y, z)) == sum(product(x, y), product(x, z)),
            product(sum(y, z), x) == sum(product(y, x), product(z, x)),
    ;

    /// The left multiplicative inverse: `Some(i)` with *ia* = 1 for the given *a*, or `None`
    /// when there is no such *i*.
    fn left_inverse_mul(&self) -> (r: Option<Self>)
        ensures
            match r {
                Some(i) => is_left_inverse(i, *self),
                None => forall|i: Self| !is_left_inverse(i, *self),
            },
    ;

    /// The right multiplicative inverse: `Some(i)` with *ai* = 1 for the given *a*, or `None`
    /// when there is no such *i*.
    fn right_inverse_mul(&self) -> (r: Option<Self>)
        ensures
            match r {
                Some(i) => is_right_inverse(i, *self),
                None => forall|i: Self| !is_right_inverse(i, *self),
            },
    ;

    /// The two-sided multiplicative inverse: `Some(i)` with *ai* = *ia* = 1, or `None` when
    /// `self` is not a unit. A two-sided inverse is unique when it exists.
    fn inverse_mul(&self) -> (r: Option<Self>)
        ensures
            match r {
                Some(i) => is_inverse(i, *self),
                None => !is_unit_spec(*self),
            },
    ;

    /// The additive inverse, as given by the additive [`Quasigroup`].
    fn inverse_add(&self) -> (r: Self)
        ensures
            r == <Self as Quasigroup<Plus>>::inverse_spec(*self),
    {
        <Self as Quasigroup<Plus>>::inverse(self)
    }

    /// Whether `self` is a unit.
    fn is_unit(&self) -> (r: bool)
        ensures
            r == is_unit_spec(*self),
    {
        self.inverse_mul().is_some()
    }
}

/// A commutative ring: a [`Ring`] whose multiplication is commutative as well.
pub trait CommutativeRing: Ring + CommutativeMagma<Times> {}

/// An integral domain: a [`CommutativeRing`] without zero divisors. If *xy* = 0, then *x* = 0
/// or *y* = 0.
pub trait IntegralDomain: CommutativeRing {
    /// There are no zero divisors.
    proof fn lemma_no_zero_divisors(x: Self, y: Self)
        ensures
            product(x, y) == Self::ZERO ==> x == Self::ZERO || y == Self::ZERO,
    ;

    /// Whether `self` and `rhs` are associates: `self` = *u* `rhs` for some unit *u*.
    fn associates(&self, rhs: Self) -> (r: bool)
        ensures
            r == associated(*self, rhs),
    ;
}

/// A unique factorisation domain: every element has a prime factorisation, unique up to the
/// order of the factors and to associates.
pub trait UniqueFactorisationDomain: IntegralDomain {}

/// A principal ideal domain: every ideal is generated by a single element.
pub trait PrincipalIdealDomain: UniqueFactorisationDomain {}

/// A GCD domain: a domain with a greatest common divisor function.
pub trait GCDDomain: PrincipalIdealDomain {
    /// A greatest common divisor of `self` and `b`. It is unique up to associates.
    fn gcd(&self, b: Self) -> (g: Self)
        ensures
            is_gcd(g, *self, b),
    ;
}

/// A Euclidean domain: a domain with a valuation under which division with remainder is always
/// possible.
pub trait EuclideanDomain: PrincipalIdealDomain {
    /// The valuation of `self`.
    spec fn valuation_spec(self) -> nat;

    fn valuation(&self) -> (r: usize)
        ensures
            r == self.valuation_spec(),
    ;

    /// Division with remainder: for `b` nonzero, *a* = *bq* + *r* where *r* is zero or has a
    /// smaller valuation than `b`.
    proof fn lemma_division_with_remainder(a: Self, b: Self)
        requires
            b != Self::ZERO,
        ensures
            exists|q: Self, r: Self|
                a == sum(product(b, q), r) && (r == Self::ZERO || r.valuation_spec()
                    < b.valuation_spec()),
    ;
}

/// A division ring: a [`Ring`] in which the nonzero elements form a group under multiplication,
/// that is, every nonzero element is a unit. So [`Ring::inverse_mul`] returns `None` on zero
/// alone.
///
/// Zero has no multiplicative inverse (unless the ring has a single element), so multiplication
/// over the whole set is no [`crate::grouplike::Group`]: the group law is stated here, for the
/// nonzero elements.
pub trait DivisionRing: Ring {
    /// Every nonzero element is a unit.
    proof fn lemma_nonzero_is_unit(x: Self)
        requires
            x != Self::ZERO,
        ensures
            is_unit_spec(x),
    ;

    /// `self` times the inverse of `rhs`, on the right: the *r* with *r* `rhs` = `self`.
    /// `rhs` must be nonzero.
    fn div_right(&self, rhs: Self) -> (r: Self)
        requires
            rhs != Self::ZERO,
        ensures
            product(r, rhs) == *self,
            forall|i: Self| is_inverse(i, rhs) ==> r == product(*self, i),
    ;

    /// The inverse of `rhs` times `self`, on the left: the *r* with `rhs` *r* = `self`.
    /// `rhs` must be nonzero.
    fn div_left(&self, rhs: Self) -> (r: Self)
        requires
            rhs != Self::ZERO,
        ensures
            product(rhs, r) == *self,
            forall|i: Self| is_inverse(i, rhs) ==> r == product(i, *self),
    ;
}

/// A field: a [`EuclideanDomain`] that is a [`DivisionRing`], that is, a commutative ring in
/// which every nonzero element has a multiplicative inverse. A field has two distinct elements
/// at least: `ZERO` and `ONE` differ.
pub trait Field: EuclideanDomain + DivisionRing {
    /// Zero and one differ.
    proof fn lemma_zero_ne_one()
        ensures
            Self::ZERO != Self::ONE,
    ;

    /// `self` divided by `rhs`: the *r* with *r* `rhs` = `self`. `rhs` must be nonzero.
    fn div(&self, rhs: Self) -> (r: Self)
        requires
            rhs != Self::ZERO,
        ensures
            product(r, rhs) == *self,
            forall|i: Self| is_inverse(i, rhs) ==> r == product(*self, i),
    ;
}

/// A left inverse and a right inverse of the same element are equal.
proof fn lemma_left_equals_right<R: Ring>(l: R, x: R, r: R)
    requires
        is_left_inverse(l, x),
        is_right_inverse(r, x),
    ensures
        l == r,
{
    R::lemma_zero_one();
    <R as UnitalMagma<Times>>::lemma_identity(l);
    <R as UnitalMagma<Times>>::lemma_identity(r);
    <R as Semigroup<Times>>::lemma_associative(l, x, r);
}

/// When `x` has a left inverse `l` and a right inverse `r`, the two are equal, `x` is a unit, and
/// `l` is its only two-sided inverse. So whenever `left_inverse_mul` and `right_inverse_mul` both
/// return an inverse of `x`, they return the same one, and `inverse_mul` returns it too.
pub proof fn lemma_one_sided_inverses_agree<R: Ring>(x: R, l: R, r: R)
    requires
        is_left_inverse(l, x),
        is_right_inverse(r, x),
    ensures
        l == r,
        is_inverse(l, x),
        is_unit_spec(x),
        forall|i: R| #[trigger] is_inverse(i, x) ==> i == l,
{
    lemma_left_equals_right(l, x, r);
    assert(is_inverse(l, x));
    assert forall|i: R| #[trigger] is_inverse(i, x) implies i == l by {
        lemma_left_equals_right(i, x, r);
    }
}

/// A product of two units is a unit, with inverse the product of their inverses in the reverse
/// order.
proof fn lemma_unit_product<R: Ring>(u: R, w: R, ui: R, wi: R)
    requires
        is_inverse(ui, u),
        is_inverse(wi, w),
    ensures
        is_inverse(product(wi, ui), product(u, w)),
{
    let one = <R as UnitalMagma<Times>>::IDENTITY;
    <R as Semigroup<Times>>::lemma_associative(u, w, product(wi, ui));
    <R as Semigroup<Times>>::lemma_associative(w, wi, ui);
    <R as UnitalMagma<Times>>::lemma_identity(ui);
    assert(product(product(u, w), product(wi, ui)) == one);
    <R as Semigroup<Times>>::lemma_associative(wi, ui, product(u, w));
    <R as Semigroup<Times>>::lemma_associative(ui, u, w);
    <R as UnitalMagma<Times>>::lemma_identity(w);
    assert(product(product(wi, ui), product(u, w)) == one);
}

/// Being associates is an equivalence relation: reflexive, symmetric and transitive.
pub proof fn lemma_associated_equivalence<R: Ring>(x: R, y: R, z: R)
    ensures
        associated(x, x),
        associated(x, y) ==> associated(y, x),
        associated(x, y) && associated(y, z) ==> associated(x, z),
{
    let one = <R as UnitalMagma<Times>>::IDENTITY;
    <R as UnitalMagma<Times>>::lemma_identity(one);
    <R as UnitalMagma<Times>>::lemma_identity(x);
    assert(is_inverse(one, one));
    assert(is_unit_spec(one) && x == product(one, x));
    if associated(x, y) {
        let u = choose|u: R| is_unit_spec(u) && x == product(u, y);
        let ui = choose|i: R| is_inverse(i, u);
        <R as Semigroup<Times>>::lemma_associative(ui, u, y);
        <R as UnitalMagma<Times>>::lemma_identity(y);
        assert(is_inverse(u, ui));
        assert(is_unit_spec(ui) && y == product(ui, x));
        if associated(y, z) {
            let w = choose|w: R| is_unit_spec(w) && y == product(w, z);
            let wi = choose|i: R| is_inverse(i, w);
            lemma_unit_product(u, w, ui, wi);
            <R as Semigroup<Times>>::lemma_associative(u, w, z);
            assert(is_unit_spec(product(u, w)) && x == product(product(u, w), z));
        }
    }
}

} // verus!
