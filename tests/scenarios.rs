use yaaarc::grouplike::{Quasigroup, UnitalMagma};
use yaaarc::int_mod4::IntMod4;
use yaaarc::int_mod7::IntMod7;
use yaaarc::operators::{BinaryOperator, Plus, Times};
use yaaarc::ringlike::{DivisionRing, Field, Ring};
use yaaarc::zero_ring::ZeroRing;

#[test]
fn integers_under_addition() {
    assert_eq!(<i64 as UnitalMagma<Plus>>::IDENTITY, 0);
    assert_eq!(5i64.inverse(), -5);
    assert_eq!(BinaryOperator::<Plus>::op(&3i64, -3), 0);
}

#[test]
fn integers_mod_four_as_a_ring() {
    assert_eq!(<IntMod4 as Ring>::ZERO.value(), 0);
    assert_eq!(<IntMod4 as Ring>::ONE.value(), 1);
    let two = IntMod4::new(2);
    assert_eq!(BinaryOperator::<Times>::op(&two, two), IntMod4::new(0));
    assert_eq!(two.left_inverse_mul(), None);
    let three = IntMod4::new(3);
    assert_eq!(BinaryOperator::<Times>::op(&three, three), IntMod4::new(1));
    assert_eq!(three.left_inverse_mul(), Some(IntMod4::new(3)));
    assert!(IntMod4::new(1).is_unit());
    assert!(!two.is_unit());
}

#[test]
fn the_zero_ring() {
    assert_eq!(<ZeroRing as Ring>::ZERO, <ZeroRing as Ring>::ONE);
    assert_eq!(ZeroRing.inverse_mul(), Some(ZeroRing));
    assert!(ZeroRing.is_unit());
}

#[test]
fn division_in_integers_mod_seven() {
    let six = IntMod7::new(6);
    let two = IntMod7::new(2);
    assert_eq!(six.div_right(two), IntMod7::new(3));
    assert_eq!(six.div_left(two), IntMod7::new(3));
    assert_eq!(six.div(two), IntMod7::new(3));
}
