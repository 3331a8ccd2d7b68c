//! Composable algebraic structures: magmas, semigroups, monoids, groups, rings and fields.
//!
//! Each structure is a trait. Its operations carry contracts, and the laws it stands for
//! (associativity, identities, inverses, distributivity, ...) are proof functions that every
//! implementation must prove. Generic code written against a trait may then rely on those laws.
//!
//! Throughout, a "set" is a type: every value of the type is an element of the set.
use vstd::prelude::*;

pub mod grouplike;
pub mod integers;
pub mod int_mod4;
pub mod int_mod7;
pub mod operators;
pub mod ringlike;
pub mod zero_ring;

verus! {

/// Adds two integers.
pub fn add(left: u64, right: u64) -> (r: u64)
    requires
        left + right <= u64::MAX,
    ensures
        r == left + right,
{
    left + right
}

} // verus!
