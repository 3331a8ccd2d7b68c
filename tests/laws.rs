use yaaarc::grouplike::{Quasigroup, UnitalMagma};
use yaaarc::int_mod4::IntMod4;
use yaaarc::int_mod7::IntMod7;
use yaaarc::operators::{BinaryOperator, Plus, Times, UnaryOperator};
use yaaarc::ringlike::{DivisionRing, EuclideanDomain, GCDDomain, IntegralDomain, Ring};

fn mod4_all() -> Vec<IntMod4> {
    (0u8..4).map(IntMod4::new).collect()
}

fn mod7_all() -> Vec<IntMod7> {
    (0u8..7).map(IntMod7::new).collect()
}

fn add4(x: IntMod4, y: IntMod4) -> IntMod4 {
    BinaryOperator::<Plus>::op(&x, y)
}

fn mul4(x: IntMod4, y: IntMod4) -> IntMod4 {
    BinaryOperator::<Times>::op(&x, y)
}

fn add7(x: IntMod7, y: IntMod7) -> IntMod7 {
    BinaryOperator::<Plus>::op(&x, y)
}

fn mul7(x: IntMod7, y: IntMod7) -> IntMod7 {
    BinaryOperator::<Times>::op(&x, y)
}

const SAMPLES: [i64; 7] = [0, 1, -1, 5, -3, i64::MAX, i64::MIN];

#[test]
fn monoid_identity_on_both_sides() {
    for x in mod4_all() {
        let e = <IntMod4 as UnitalMagma<Times>>::IDENTITY;
        assert_eq!(mul4(x, e), x);
        assert_eq!(mul4(e, x), x);
        let z = <IntMod4 as UnitalMagma<Plus>>::IDENTITY;
        assert_eq!(add4(x, z), x);
        assert_eq!(add4(z, x), x);
    }
    for x in SAMPLES {
        assert_eq!(BinaryOperator::<Plus>::op(&x, 0), x);
        assert_eq!(BinaryOperator::<Plus>::op(&0, x), x);
    }
}

#[test]
fn semigroup_associativity() {
    for x in mod4_all() {
        for y in mod4_all() {
            for z in mod4_all() {
                assert_eq!(add4(add4(x, y), z), add4(x, add4(y, z)));
                assert_eq!(mul4(mul4(x, y), z), mul4(x, mul4(y, z)));
            }
        }
    }
    for x in SAMPLES {
        for y in SAMPLES {
            for z in SAMPLES {
                let l = BinaryOperator::<Plus>::op(&BinaryOperator::<Plus>::op(&x, y), z);
                let r = BinaryOperator::<Plus>::op(&x, BinaryOperator::<Plus>::op(&y, z));
                assert_eq!(l, r);
            }
        }
    }
}

#[test]
fn quasigroup_inverse_gives_identity() {
    for x in SAMPLES {
        let i = x.inverse();
        assert_eq!(BinaryOperator::<Plus>::op(&x, i), 0);
        assert_eq!(BinaryOperator::<Plus>::op(&i, x), 0);
    }
    assert_eq!(i64::MIN.inverse(), i64::MIN);
    for x in mod4_all() {
        let i = x.inverse_add();
        assert_eq!(add4(x, i), IntMod4::new(0));
        assert_eq!(add4(i, x), IntMod4::new(0));
    }
    assert_eq!(IntMod4::new(1).inverse_add(), IntMod4::new(3));
    assert_eq!(IntMod7::new(2).inverse_add(), IntMod7::new(5));
}

#[test]
fn ring_distributivity() {
    for x in mod4_all() {
        for y in mod4_all() {
            for z in mod4_all() {
                assert_eq!(mul4(x, add4(y, z)), add4(mul4(x, y), mul4(x, z)));
                assert_eq!(mul4(add4(y, z), x), add4(mul4(y, x), mul4(z, x)));
            }
        }
    }
    for x in mod7_all() {
        for y in mod7_all() {
            for z in mod7_all() {
                assert_eq!(mul7(x, add7(y, z)), add7(mul7(x, y), mul7(x, z)));
                assert_eq!(mul7(add7(y, z), x), add7(mul7(y, x), mul7(z, x)));
            }
        }
    }
}

#[test]
fn one_sided_inverses_agree() {
    for x in mod4_all() {
        if let (Some(l), Some(r)) = (x.left_inverse_mul(), x.right_inverse_mul()) {
            assert_eq!(l, r);
            assert_eq!(x.inverse_mul(), Some(l));
        }
    }
    for x in mod7_all() {
        if let (Some(l), Some(r)) = (x.left_inverse_mul(), x.right_inverse_mul()) {
            assert_eq!(l, r);
            assert_eq!(x.inverse_mul(), Some(l));
        }
    }
    assert_eq!(IntMod7::new(3).inverse_mul(), Some(IntMod7::new(5)));
    assert_eq!(IntMod7::new(0).inverse_mul(), None);
    assert_eq!(IntMod7::new(0).right_inverse_mul(), None);
    assert_eq!(IntMod4::new(2).right_inverse_mul(), None);
    assert_eq!(IntMod4::new(0).inverse_mul(), None);
}

fn divides7(c: IntMod7, a: IntMod7) -> bool {
    mod7_all().into_iter().any(|k| mul7(c, k) == a)
}

#[test]
fn gcd_is_a_greatest_common_divisor() {
    for a in mod7_all() {
        for b in mod7_all() {
            let g = a.gcd(b);
            assert!(divides7(g, a));
            assert!(divides7(g, b));
            for c in mod7_all() {
                if divides7(c, a) && divides7(c, b) {
                    assert!(divides7(c, g));
                }
            }
        }
    }
    assert_eq!(IntMod7::new(0).gcd(IntMod7::new(0)), IntMod7::new(0));
    assert_eq!(IntMod7::new(3).gcd(IntMod7::new(0)), IntMod7::new(1));
    assert_eq!(IntMod7::new(2).gcd(IntMod7::new(5)), IntMod7::new(1));
}

#[test]
fn associates_in_integers_mod_seven() {
    assert!(IntMod7::new(2).associates(IntMod7::new(5)));
    assert!(IntMod7::new(0).associates(IntMod7::new(0)));
    assert!(!IntMod7::new(0).associates(IntMod7::new(3)));
    assert!(!IntMod7::new(4).associates(IntMod7::new(0)));
}

#[test]
fn valuation_and_division_with_remainder() {
    for a in mod7_all() {
        assert_eq!(a.valuation(), 0);
        for b in mod7_all() {
            if b != IntMod7::new(0) {
                let q = a.div_left(b);
                assert_eq!(mul7(b, q), a);
                let r = a.div_right(b);
                assert_eq!(mul7(r, b), a);
            }
        }
    }
}

#[test]
fn in_place_operators_match_pure_ones() {
    let mut x = IntMod4::new(3);
    BinaryOperator::<Plus>::op_assign(&mut x, IntMod4::new(2));
    assert_eq!(x, IntMod4::new(1));
    let mut y = IntMod7::new(3);
    BinaryOperator::<Times>::op_assign(&mut y, IntMod7::new(4));
    assert_eq!(y, IntMod7::new(5));
    let mut z = i64::MAX;
    BinaryOperator::<Plus>::op_assign(&mut z, 1);
    assert_eq!(z, i64::MIN);
    let mut n = 7i64;
    n.unary_op_assign();
    assert_eq!(n, -7);
    assert_eq!(5i64.unary_op(), -5);
}

#[test]
fn residue_classes_reduce() {
    assert_eq!(IntMod4::new(9), IntMod4::new(1));
    assert_eq!(IntMod4::new(255).value(), 3);
    assert_eq!(IntMod7::new(15), IntMod7::new(1));
    assert_eq!(IntMod7::new(255).value(), 3);
    assert_eq!(<IntMod7 as Ring>::ZERO, IntMod7::new(7));
}
