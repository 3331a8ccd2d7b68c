//! The integers modulo 7, as an enumeration of the residue classes.
//!
//! Seven being prime, they form a field: every nonzero class has a multiplicative inverse.
use vstd::prelude::*;
use vstd::arithmetic::div_mod::{lemma_add_mod_noop, lemma_mul_mod_noop_left, lemma_mul_mod_noop_right};
use vstd::arithmetic::mul::{lemma_mul_is_associative, lemma_mul_is_commutative, lemma_mul_is_distributive_add};
use crate::grouplike::{
    AbelianGroup, CommutativeMagma, Magma, Monoid, Quasigroup, Semigroup, UnitalMagma,
};
use crate::operators::{product, sum, BinaryOperator, Plus, Times};
use crate::ringlike::{
    associated, divides, is_inverse, is_left_inverse, is_right_inverse, is_unit_spec,
    lemma_one_sided_inverses_agree, CommutativeRing, DivisionRing, EuclideanDomain, Field,
    GCDDomain, IntegralDomain, PrincipalIdealDomain, Ring, UniqueFactorisationDomain,
};

verus! {

/// A residue class of the integers modulo 7.
#[derive(PartialEq, Eq, Structural, Clone, Copy, Debug)]
pub enum IntMod7 {
    R0,
    R1,
    R2,
    R3,
    R4,
    R5,
    R6,
}

impl IntMod7 {
    /// The residue in `0..7` that `self` stands for.
    pub open spec fn residue(self) -> nat {
        match self {
            IntMod7::R0 => 0,
            IntMod7::R1 => 1,
            IntMod7::R2 => 2,
            IntMod7::R3 => 3,
            IntMod7::R4 => 4,
            IntMod7::R5 => 5,
            IntMod7::R6 => 6,
        }
    }

    /// The class of `n` modulo 7.
    pub open spec fn of_residue(n: nat) -> Self {
        let r = n % 7;
        if r == 0 {
            IntMod7::R0
        } else if r == 1 {
            IntMod7::R1
        } else if r == 2 {
            IntMod7::R2
        } else if r == 3 {
            IntMod7::R3
        } else if r == 4 {
            IntMod7::R4
        } else if r == 5 {
            IntMod7::R5
        } else {
            IntMod7::R6
        }
    }

    /// The class of `n` modulo 7.
    pub fn new(n: u8) -> (r: Self)
        ensures
            r == Self::of_residue(n as nat),
    {
        let r: u8 = n % 7;
        if r == 0 {
            IntMod7::R0
        } else if r == 1 {
            IntMod7::R1
        } else if r == 2 {
            IntMod7::R2
        } else if r == 3 {
            IntMod7::R3
        } else if r == 4 {
            IntMod7::R4
        } else if r == 5 {
            IntMod7::R5
        } else {
            IntMod7::R6
        }
    }

    /// The residue in `0..7` that `self` stands for.
    pub fn value(&self) -> (r: u8)
        ensures
            r == self.residue(),
    {
        match self {
            IntMod7::R0 => 0,
            IntMod7::R1 => 1,
            IntMod7::R2 => 2,
            IntMod7::R3 => 3,
            IntMod7::R4 => 4,
            IntMod7::R5 => 5,
            IntMod7::R6 => 6,
        }
    }

    proof fn lemma_of_residue(n: nat)
        ensures
            Self::of_residue(n).residue() == n % 7,
    {
    }

    /// The multiplicative inverse of a nonzero class; zero is mapped to itself.
    pub open spec fn reciprocal_spec(self) -> Self {
        match self {
            IntMod7::R0 => IntMod7::R0,
            IntMod7::R1 => IntMod7::R1,
            IntMod7::R2 => IntMod7::R4,
            IntMod7::R3 => IntMod7::R5,
            IntMod7::R4 => IntMod7::R2,
            IntMod7::R5 => IntMod7::R3,
            IntMod7::R6 => IntMod7::R6,
        }
    }

    fn reciprocal(&self) -> (r: Self)
        ensures
            r == self.reciprocal_spec(),
    {
        match self {
            IntMod7::R0 => IntMod7::R0,
            IntMod7::R1 => IntMod7::R1,
            IntMod7::R2 => IntMod7::R4,
            IntMod7::R3 => IntMod7::R5,
            IntMod7::R4 => IntMod7::R2,
            IntMod7::R5 => IntMod7::R3,
            IntMod7::R6 => IntMod7::R6,
        }
    }

    /// Every nonzero class has its reciprocal as two-sided inverse.
    proof fn lemma_reciprocal(x: Self)
        requires
            x != IntMod7::R0,
        ensures
            is_inverse(x.reciprocal_spec(), x),
            x.reciprocal_spec() != IntMod7::R0,
    {
    }

    /// The units are the nonzero classes; zero has no inverse on either side.
    proof fn lemma_units(x: Self)
        ensures
            is_unit_spec(x) <==> x != IntMod7::R0,
            x != IntMod7::R0 ==> is_inverse(x.reciprocal_spec(), x),
            x == IntMod7::R0 ==> forall|i: Self|
                !is_left_inverse(i, x) && !is_right_inverse(i, x),
    {
        if x == IntMod7::R0 {
            assert forall|i: Self| !is_left_inverse(i, x) && !is_right_inverse(i, x) by {
                IntMod7::lemma_zero_absorbs(i);
            }
        } else {
            IntMod7::lemma_reciprocal(x);
        }
    }

    /// `x` and `y` are associates exactly when both are zero or both are nonzero.
    proof fn lemma_associates(x: Self, y: Self)
        ensures
            associated(x, y) <==> ((x == IntMod7::R0) == (y == IntMod7::R0)),
    {
        IntMod7::lemma_units(IntMod7::R1);
        IntMod7::lemma_zero_absorbs(IntMod7::R1);
        if x == IntMod7::R0 && y == IntMod7::R0 {
            assert(is_unit_spec(IntMod7::R1) && x == product(IntMod7::R1, y));
        } else if x != IntMod7::R0 && y != IntMod7::R0 {
            let u = product(x, y.reciprocal_spec());
            IntMod7::lemma_cancel(x, y);
            IntMod7::lemma_reciprocal(y);
            IntMod7::lemma_no_zero_divisors(x, y.reciprocal_spec());
            IntMod7::lemma_units(u);
            assert(is_unit_spec(u) && x == product(u, y));
        } else {
            assert forall|u: Self| is_unit_spec(u) implies x != product(u, y) by {
                IntMod7::lemma_units(u);
                IntMod7::lemma_zero_absorbs(u);
                IntMod7::lemma_no_zero_divisors(u, y);
            }
        }
    }

    /// Every class divides zero.
    proof fn lemma_divides_zero(c: Self)
        ensures
            divides(c, IntMod7::R0),
    {
        IntMod7::lemma_zero_absorbs(c);
        assert(IntMod7::R0 == product(c, IntMod7::R0));
    }

    /// One divides every class.
    proof fn lemma_one_divides(a: Self)
        ensures
            divides(IntMod7::R1, a),
    {
        <IntMod7 as UnitalMagma<Times>>::lemma_identity(a);
        assert(a == product(IntMod7::R1, a));
    }

    /// A divisor of a nonzero class is nonzero, hence a unit, hence a divisor of one.
    proof fn lemma_divides_nonzero(c: Self, a: Self)
        requires
            a != IntMod7::R0,
            divides(c, a),
        ensures
            divides(c, IntMod7::R1),
    {
        let k = choose|k: Self| a == product(c, k);
        IntMod7::lemma_zero_absorbs(k);
        IntMod7::lemma_reciprocal(c);
        assert(IntMod7::R1 == product(c, c.reciprocal_spec()));
    }

    /// Multiplying by a nonzero `d` undoes multiplying by its reciprocal, on either side.
    proof fn lemma_cancel(x: Self, d: Self)
        requires
            d != IntMod7::R0,
        ensures
            product(product(x, d.reciprocal_spec()), d) == x,
            product(d, product(d.reciprocal_spec(), x)) == x,
    {
        let e = d.reciprocal_spec();
        IntMod7::lemma_reciprocal(d);
        <IntMod7 as Semigroup<Times>>::lemma_associative(x, e, d);
        <IntMod7 as Semigroup<Times>>::lemma_associative(d, e, x);
        <IntMod7 as UnitalMagma<Times>>::lemma_identity(x);
    }

    /// Zero times anything is zero, on either side.
    proof fn lemma_zero_absorbs(x: Self)
        ensures
            product(x, IntMod7::R0) == IntMod7::R0,
            product(IntMod7::R0, x) == IntMod7::R0,
    {
        assert(x.residue() * 0 == 0);
        assert(0 * x.residue() == 0);
    }
}

impl BinaryOperator<Plus> for IntMod7 {
    open spec fn op_spec(self, rhs: Self) -> Self {
        IntMod7::of_residue(self.residue() + rhs.residue())
    }

    fn op(&self, rhs: Self) -> (r: Self) {
        IntMod7::new(self.value() + rhs.value())
    }

    fn op_assign(&mut self, rhs: Self) {
        *self = IntMod7::new(self.value() + rhs.value());
    }
}

impl BinaryOperator<Times> for IntMod7 {
    open spec fn op_spec(self, rhs: Self) -> Self {
        IntMod7::of_residue(self.residue() * rhs.residue())
    }

    fn op(&self, rhs: Self) -> (r: Self) {
        let a = self.value();
        let b = rhs.value();
        assert(a * b <= 36) by (nonlinear_arith)
            requires
                a <= 6,
                b <= 6,
        ;
        IntMod7::new(a * b)
    }

    fn op_assign(&mut self, rhs: Self) {
        *self = BinaryOperator::<Times>::op(self, rhs);
    }
}

impl Magma<Plus> for IntMod7 {}

impl Semigroup<Plus> for IntMod7 {
    proof fn lemma_associative(x: Self, y: Self, z: Self) {
        let (a, b, c) = (x.residue() as int, y.residue() as int, z.residue() as int);
        IntMod7::lemma_of_residue((a + b) as nat);
        IntMod7::lemma_of_residue((b + c) as nat);
        lemma_add_mod_noop(a + b, c, 7);
        lemma_add_mod_noop(a, b + c, 7);
    }
}

impl UnitalMagma<Plus> for IntMod7 {
    const IDENTITY: Self = IntMod7::R0;

    proof fn lemma_identity(x: Self) {
    }
}

impl Quasigroup<Plus> for IntMod7 {
    open spec fn inverse_spec(self) -> Self {
        IntMod7::of_residue((7 - self.residue()) as nat)
    }

    fn inverse(&self) -> (r: Self) {
        IntMod7::new(7 - self.value())
    }

    proof fn lemma_inverse(x: Self, y: Self) {
    }
}

impl CommutativeMagma<Plus> for IntMod7 {
    proof fn lemma_commutative(x: Self, y: Self) {
    }
}

impl AbelianGroup<Plus> for IntMod7 {}

impl Magma<Times> for IntMod7 {}

impl Semigroup<Times> for IntMod7 {
    proof fn lemma_associative(x: Self, y: Self, z: Self) {
        let (a, b, c) = (x.residue() as int, y.residue() as int, z.residue() as int);
        IntMod7::lemma_of_residue((a * b) as nat);
        IntMod7::lemma_of_residue((b * c) as nat);
        lemma_mul_mod_noop_left(a * b, c, 7);
        lemma_mul_mod_noop_right(a, b * c, 7);
        lemma_mul_is_associative(a, b, c);
    }
}

impl UnitalMagma<Times> for IntMod7 {
    const IDENTITY: Self = IntMod7::R1;

    proof fn lemma_identity(x: Self) {
    }
}

impl CommutativeMagma<Times> for IntMod7 {
    proof fn lemma_commutative(x: Self, y: Self) {
        lemma_mul_is_commutative(x.residue() as int, y.residue() as int);
    }
}

impl Monoid<Times> for IntMod7 {}

impl Ring for IntMod7 {
    const ZERO: Self = IntMod7::R0;

    const ONE: Self = IntMod7::R1;

    proof fn lemma_zero_one() {
    }

    proof fn lemma_distributive(x: Self, y: Self, z: Self) {
        let (a, b, c) = (x.residue() as int, y.residue() as int, z.residue() as int);
        IntMod7::lemma_of_residue((b + c) as nat);
        IntMod7::lemma_of_residue((a * b) as nat);
        IntMod7::lemma_of_residue((a * c) as nat);
        IntMod7::lemma_of_residue((b * a) as nat);
        IntMod7::lemma_of_residue((c * a) as nat);
        lemma_mul_mod_noop_right(a, b + c, 7);
        lemma_mul_mod_noop_left(b + c, a, 7);
        lemma_mul_is_distributive_add(a, b, c);
        lemma_mul_is_commutative(a, b);
        lemma_mul_is_commutative(a, c);
        lemma_mul_is_commutative(a, b + c);
        lemma_add_mod_noop(a * b, a * c, 7);
        assert(a * b >= 0 && a * c >= 0) by (nonlinear_arith)
            requires
                a >= 0,
                b >= 0,
                c >= 0,
        ;
    }

    fn left_inverse_mul(&self) -> (r: Option<Self>) {
        proof {
            IntMod7::lemma_units(*self);
        }
        self.inverse_mul()
    }

    fn right_inverse_mul(&self) -> (r: Option<Self>) {
        proof {
            IntMod7::lemma_units(*self);
        }
        self.inverse_mul()
    }

    fn inverse_mul(&self) -> (r: Option<Self>) {
        proof {
            IntMod7::lemma_units(*self);
        }
        if *self == IntMod7::R0 {
            None
        } else {
            Some(self.reciprocal())
        }
    }
}

impl CommutativeRing for IntMod7 {}

impl IntegralDomain for IntMod7 {
    proof fn lemma_no_zero_divisors(x: Self, y: Self) {
        if product(x, y) == IntMod7::R0 && x != IntMod7::R0 {
            IntMod7::lemma_cancel(y, x);
            IntMod7::lemma_zero_absorbs(x.reciprocal_spec());
            <IntMod7 as CommutativeMagma<Times>>::lemma_commutative(x, y);
        }
    }

    fn associates(&self, rhs: Self) -> (r: bool) {
        let x = *self;
        let y = rhs;
        proof {
            IntMod7::lemma_associates(x, y);
        }
        (x == IntMod7::R0) == (y == IntMod7::R0)
    }
}

impl UniqueFactorisationDomain for IntMod7 {}

impl PrincipalIdealDomain for IntMod7 {}

impl GCDDomain for IntMod7 {
    fn gcd(&self, b: Self) -> (g: Self) {
        let a = *self;
        if a == IntMod7::R0 && b == IntMod7::R0 {
            proof {
                IntMod7::lemma_divides_zero(IntMod7::R0);
                assert forall|c: Self| #![trigger divides(c, a), divides(c, b)]
                    divides(c, a) && divides(c, b) implies divides(c, IntMod7::R0) by {
                    IntMod7::lemma_divides_zero(c);
                }
            }
            IntMod7::R0
        } else {
            proof {
                IntMod7::lemma_one_divides(a);
                IntMod7::lemma_one_divides(b);
                assert forall|c: Self| #![trigger divides(c, a), divides(c, b)]
                    divides(c, a) && divides(c, b) implies divides(c, IntMod7::R1) by {
                    IntMod7::lemma_divides_nonzero(c, if a != IntMod7::R0 { a } else { b });
                }
            }
            IntMod7::R1
        }
    }
}

impl EuclideanDomain for IntMod7 {
    /// Every class has valuation 0: in a field every division leaves remainder zero.
    open spec fn valuation_spec(self) -> nat {
        0
    }

    fn valuation(&self) -> (r: usize) {
        0
    }

    proof fn lemma_division_with_remainder(a: Self, b: Self) {
        let q = product(b.reciprocal_spec(), a);
        IntMod7::lemma_cancel(a, b);
        <IntMod7 as UnitalMagma<Plus>>::lemma_identity(product(b, q));
        assert(a == sum(product(b, q), IntMod7::R0));
    }
}

impl DivisionRing for IntMod7 {
    proof fn lemma_nonzero_is_unit(x: Self) {
        IntMod7::lemma_units(x);
    }

    fn div_right(&self, rhs: Self) -> (r: Self) {
        let r = BinaryOperator::<Times>::op(self, rhs.reciprocal());
        proof {
            IntMod7::lemma_cancel(*self, rhs);
            IntMod7::lemma_reciprocal(rhs);
            lemma_one_sided_inverses_agree(rhs, rhs.reciprocal_spec(), rhs.reciprocal_spec());
        }
        r
    }

    fn div_left(&self, rhs: Self) -> (r: Self) {
        let r = BinaryOperator::<Times>::op(&rhs.reciprocal(), *self);
        proof {
            IntMod7::lemma_cancel(*self, rhs);
            IntMod7::lemma_reciprocal(rhs);
            lemma_one_sided_inverses_agree(rhs, rhs.reciprocal_spec(), rhs.reciprocal_spec());
        }
        r
    }
}

impl Field for IntMod7 {
    proof fn lemma_zero_ne_one() {
    }

    fn div(&self, rhs: Self) -> (r: Self) {
        self.div_right(rhs)
    }
}

} // verus!
