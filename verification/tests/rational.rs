use sr1_optimizer::rational::Rational;

#[test]
fn add_reduces_to_lowest_terms() {
    let a = Rational::new(1, 2);
    let b = Rational::new(1, 3);
    assert_eq!(a.add(&b), Some(Rational::new(5, 6)));
    let c = Rational::new(1, 4);
    assert_eq!(c.add(&c), Some(Rational::new(1, 2)));
}

#[test]
fn add_out_of_range_is_none() {
    let big = Rational::from_integer(i64::MAX);
    let one = Rational::from_integer(1);
    assert_eq!(big.add(&one), None);
}

#[test]
fn sub_is_exact() {
    let a = Rational::new(1, 2);
    let b = Rational::new(1, 3);
    assert_eq!(a.sub(&b), Some(Rational::new(1, 6)));
    assert_eq!(b.sub(&a), Some(Rational::new(-1, 6)));
}

#[test]
fn mul_reduces_to_lowest_terms() {
    let a = Rational::new(2, 3);
    let b = Rational::new(3, 4);
    assert_eq!(a.mul(&b), Some(Rational::new(1, 2)));
}

#[test]
fn neg_of_smallest_numerator_is_none() {
    let a = Rational::from_integer(i64::MIN);
    assert_eq!(a.neg(), None);
    let b = Rational::from_integer(7);
    assert_eq!(b.neg(), Some(Rational::from_integer(-7)));
}

#[test]
fn div_keeps_denominator_positive() {
    let a = Rational::new(1, 2);
    let b = Rational::new(-3, 4);
    assert_eq!(a.div(&b), Some(Rational::new(-2, 3)));
    let c = Rational::from_integer(6);
    let d = Rational::from_integer(3);
    assert_eq!(c.div(&d), Some(Rational::from_integer(2)));
}

#[test]
fn lt_compares_values() {
    let a = Rational::new(1, 3);
    let b = Rational::new(1, 2);
    assert!(a.lt(&b));
    assert!(!b.lt(&a));
    assert!(!a.lt(&a));
    let neg = Rational::new(-1, 2);
    assert!(neg.lt(&a));
}

#[test]
fn eq_rational_sees_equal_values() {
    let a = Rational::new(1, 2);
    let b = Rational::new(2, 4);
    assert!(a.eq_rational(&b));
    assert!(!a.eq_rational(&Rational::new(1, 3)));
}

#[test]
fn sign_tests() {
    assert!(Rational::new(3, 7).is_positive());
    assert!(!Rational::new(-3, 7).is_positive());
    assert!(!Rational::new(0, 7).is_positive());
    assert!(Rational::new(0, 7).is_zero());
    assert!(!Rational::new(1, 7).is_zero());
}
