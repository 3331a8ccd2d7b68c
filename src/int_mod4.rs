//! The integers modulo 4, as an enumeration of the residue classes.
//!
//! They form a commutative ring with zero divisors (2 · 2 = 0), in which only 1 and 3 are units.
use vstd::prelude::*;
use vstd::arithmetic::div_mod::{lemma_add_mod_noop, lemma_mul_mod_noop_left, lemma_mul_mod_noop_right};
use vstd::arithmetic::mul::{lemma_mul_is_associative, lemma_mul_is_commutative, lemma_mul_is_distributive_add};
use crate::grouplike::{
    AbelianGroup, CommutativeMagma, Magma, Monoid, Quasigroup, Semigroup, UnitalMagma,
};
use crate::operators::{BinaryOperator, Plus, Times};
use crate::ringlike::{is_left_inverse, is_right_inverse, CommutativeRing, Ring};

verus! {

/// A residue class of the integers modulo 4.
#[derive(PartialEq, Eq, Structural, Clone, Copy, Debug)]
pub enum IntMod4 {
    R0,
    R1,
    R2,
    R3,
}

impl IntMod4 {
    /// The residue in `0..4` that `self` stands for.
    pub open spec fn residue(self) -> nat {
        match self {
            IntMod4::R0 => 0,
            IntMod4::R1 => 1,
            IntMod4::R2 => 2,
            IntMod4::R3 => 3,
        }
    }

    /// The class of `n` modulo 4.
    pub open spec fn of_residue(n: nat) -> Self {
        let r = n % 4;
        if r == 0 {
            IntMod4::R0
        } else if r == 1 {
            IntMod4::R1
        } else if r == 2 {
            IntMod4::R2
        } else {
            IntMod4::R3
        }
    }

    /// The class of `n` modulo 4.
    pub fn new(n: u8) -> (r: Self)
        ensures
            r == Self::of_residue(n as nat),
    {
        let r: u8 = n % 4;
        if r == 0 {
            IntMod4::R0
        } else if r == 1 {
            IntMod4::R1
        } else if r == 2 {
            IntMod4::R2
        } else {
            IntMod4::R3
        }
    }

    /// The residue in `0..4` that `self` stands for.
    pub fn value(&self) -> (r: u8)
        ensures
            r == self.residue(),
    {
        match self {
            IntMod4::R0 => 0,
            IntMod4::R1 => 1,
            IntMod4::R2 => 2,
            IntMod4::R3 => 3,
        }
    }

    /// A left inverse of `x` is a right inverse, and conversely, multiplication being commutative.
    proof fn lemma_commuting_inverses(x: Self)
        ensures
            forall|i: Self|
                #![trigger is_left_inverse(i, x)]
                #![trigger is_right_inverse(i, x)]
                is_left_inverse(i, x) <==> is_right_inverse(i, x),
    {
        assert forall|i: Self| #[trigger] is_left_inverse(i, x) <==> is_right_inverse(i, x) by {
            <IntMod4 as CommutativeMagma<Times>>::lemma_commutative(i, x);
        }
    }

    proof fn lemma_of_residue(n: nat)
        ensures
            Self::of_residue(n).residue() == n % 4,
    {
    }
}

impl BinaryOperator<Plus> for IntMod4 {
    open spec fn op_spec(self, rhs: Self) -> Self {
        IntMod4::of_residue(self.residue() + rhs.residue())
    }

    fn op(&self, rhs: Self) -> (r: Self) {
        IntMod4::new(self.value() + rhs.value())
    }

    fn op_assign(&mut self, rhs: Self) {
        *self = IntMod4::new(self.value() + rhs.value());
    }
}

impl BinaryOperator<Times> for IntMod4 {
    open spec fn op_spec(self, rhs: Self) -> Self {
        IntMod4::of_residue(self.residue() * rhs.residue())
    }

    fn op(&self, rhs: Self) -> (r: Self) {
        let a = self.value();
        let b = rhs.value();
        assert(a * b <= 9) by (nonlinear_arith)
            requires
                a <= 3,
                b <= 3,
        ;
        IntMod4::new(a * b)
    }

    fn op_assign(&mut self, rhs: Self) {
        *self = BinaryOperator::<Times>::op(self, rhs);
    }
}

impl Magma<Plus> for IntMod4 {}

impl Semigroup<Plus> for IntMod4 {
    proof fn lemma_associative(x: Self, y: Self, z: Self) {
        let (a, b, c) = (x.residue() as int, y.residue() as int, z.residue() as int);
        IntMod4::lemma_of_residue((a + b) as nat);
        IntMod4::lemma_of_residue((b + c) as nat);
        lemma_add_mod_noop(a + b, c, 4);
        lemma_add_mod_noop(a, b + c, 4);
    }
}

impl UnitalMagma<Plus> for IntMod4 {
    const IDENTITY: Self = IntMod4::R0;

    proof fn lemma_identity(x: Self) {
    }
}

impl Quasigroup<Plus> for IntMod4 {
    open spec fn inverse_spec(self) -> Self {
        IntMod4::of_residue((4 - self.residue()) as nat)
    }

    fn inverse(&self) -> (r: Self) {
        IntMod4::new(4 - self.value())
    }

    proof fn lemma_inverse(x: Self, y: Self) {
    }
}

impl CommutativeMagma<Plus> for IntMod4 {
    proof fn lemma_commutative(x: Self, y: Self) {
    }
}

impl AbelianGroup<Plus> for IntMod4 {}

impl Magma<Times> for IntMod4 {}

impl Semigroup<Times> for IntMod4 {
    proof fn lemma_associative(x: Self, y: Self, z: Self) {
        let (a, b, c) = (x.residue() as int, y.residue() as int, z.residue() as int);
        IntMod4::lemma_of_residue((a * b) as nat);
        IntMod4::lemma_of_residue((b * c) as nat);
        lemma_mul_mod_noop_left(a * b, c, 4);
        lemma_mul_mod_noop_right(a, b * c, 4);
        lemma_mul_is_associative(a, b, c);
    }
}

impl UnitalMagma<Times> for IntMod4 {
    const IDENTITY: Self = IntMod4::R1;

    proof fn lemma_identity(x: Self) {
    }
}

impl CommutativeMagma<Times> for IntMod4 {
    proof fn lemma_commutative(x: Self, y: Self) {
        lemma_mul_is_commutative(x.residue() as int, y.residue() as int);
    }
}

impl Monoid<Times> for IntMod4 {}

impl Ring for IntMod4 {
    const ZERO: Self = IntMod4::R0;

    const ONE: Self = IntMod4::R1;

    proof fn lemma_zero_one() {
    }

    proof fn lemma_distributive(x: Self, y: Self, z: Self) {
        let (a, b, c) = (x.residue() as int, y.residue() as int, z.residue() as int);
        IntMod4::lemma_of_residue((b + c) as nat);
        IntMod4::lemma_of_residue((a * b) as nat);
        IntMod4::lemma_of_residue((a * c) as nat);
        IntMod4::lemma_of_residue((b * a) as nat);
        IntMod4::lemma_of_residue((c * a) as nat);
        lemma_mul_mod_noop_right(a, b + c, 4);
        lemma_mul_mod_noop_left(b + c, a, 4);
        lemma_mul_is_distributive_add(a, b, c);
        lemma_mul_is_commutative(a, b);
        lemma_mul_is_commutative(a, c);
        lemma_mul_is_commutative(a, b + c);
        lemma_add_mod_noop(a * b, a * c, 4);
        assert(a * b >= 0 && a * c >= 0) by (nonlinear_arith)
            requires
                a >= 0,
                b >= 0,
                c >= 0,
        ;
    }

    fn left_inverse_mul(&self) -> (r: Option<Self>) {
        let r = match self {
            IntMod4::R1 => Some(IntMod4::R1),
            IntMod4::R3 => Some(IntMod4::R3),
            _ => None,
        };
        proof {
            if r is None {
                assert forall|i: Self| !is_left_inverse(i, *self) by {
                    match i {
                        IntMod4::R0 => {},
                        IntMod4::R1 => {},
                        IntMod4::R2 => {},
                        IntMod4::R3 => {},
                    }
                }
            }
        }
        r
    }

    fn right_inverse_mul(&self) -> (r: Option<Self>) {
        let r = self.left_inverse_mul();
        proof {
            IntMod4::lemma_commuting_inverses(*self);
        }
        r
    }

    fn inverse_mul(&self) -> (r: Option<Self>) {
        let r = self.left_inverse_mul();
        proof {
            IntMod4::lemma_commuting_inverses(*self);
        }
        r
    }
}

impl CommutativeRing for IntMod4 {}

} // verus!
