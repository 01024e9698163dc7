use camera2d::gcd::gcd_u128;
use camera2d::rational::LIMIT;
use camera2d::Rational;

fn q(n: i64, d: i64) -> Rational {
    Rational::new(n, d).unwrap()
}

#[test]
fn gcd_of_small_numbers() {
    assert_eq!(gcd_u128(12, 18), 6);
    assert_eq!(gcd_u128(18, 12), 6);
    assert_eq!(gcd_u128(17, 5), 1);
}

#[test]
fn gcd_with_zero() {
    assert_eq!(gcd_u128(0, 0), 0);
    assert_eq!(gcd_u128(0, 5), 5);
    assert_eq!(gcd_u128(7, 0), 7);
}

#[test]
fn new_reduces_to_lowest_terms() {
    let r = q(6, 8);
    assert_eq!(r.numer(), 3);
    assert_eq!(r.denom(), 4);
}

#[test]
fn new_moves_sign_to_numerator() {
    let r = q(3, -6);
    assert_eq!(r.numer(), -1);
    assert_eq!(r.denom(), 2);
    let s = q(-3, -6);
    assert_eq!(s.numer(), 1);
    assert_eq!(s.denom(), 2);
}

#[test]
fn new_of_zero_numerator() {
    let r = q(0, -7);
    assert_eq!(r.numer(), 0);
    assert_eq!(r.denom(), 1);
    assert!(r.is_zero());
}

#[test]
fn new_rejects_zero_denominator() {
    assert_eq!(Rational::new(1, 0), None);
    assert_eq!(Rational::new(0, 0), None);
}

#[test]
fn new_rejects_what_is_out_of_range() {
    assert_eq!(Rational::new(i64::MIN, 1), None);
    assert_eq!(Rational::new(1, i64::MIN), None);
    assert_eq!(Rational::new(i64::MIN, 3), None);
}

#[test]
fn new_accepts_what_reduces_into_range() {
    let r = q(i64::MIN, 2);
    assert_eq!(r.numer(), -4611686018427387904);
    assert_eq!(r.denom(), 1);
    let s = q(i64::MIN, i64::MIN);
    assert_eq!(s, Rational::from_i32(1));
    let t = q(LIMIT, -LIMIT);
    assert_eq!(t, Rational::from_i32(-1));
}

#[test]
fn equal_values_are_equal() {
    assert_eq!(q(2, 4), q(1, 2));
    assert_eq!(q(-10, 5), Rational::from_i32(-2));
    assert_ne!(q(1, 2), q(1, 3));
}

#[test]
fn from_i32_is_the_integer() {
    let r = Rational::from_i32(-42);
    assert_eq!(r.numer(), -42);
    assert_eq!(r.denom(), 1);
    let m = Rational::from_i32(i32::MIN);
    assert_eq!(m.numer(), -2147483648);
    assert_eq!(m.denom(), 1);
}

#[test]
fn is_zero_only_of_zero() {
    assert!(Rational::from_i32(0).is_zero());
    assert!(!Rational::from_i32(1).is_zero());
    assert!(!q(-1, LIMIT).is_zero());
}

#[test]
fn neg_changes_the_sign() {
    assert_eq!(q(3, 4).neg(), q(-3, 4));
    assert_eq!(q(-3, 4).neg(), q(3, 4));
    assert_eq!(Rational::from_i32(0).neg(), Rational::from_i32(0));
    assert_eq!(q(LIMIT, 1).neg(), q(-LIMIT, 1));
}

#[test]
fn checked_add_exact() {
    assert_eq!(q(1, 2).checked_add(&q(1, 3)), Some(q(5, 6)));
    assert_eq!(q(1, 6).checked_add(&q(1, 3)), Some(q(1, 2)));
    assert_eq!(q(1, 2).checked_add(&q(-1, 2)), Some(Rational::from_i32(0)));
}

#[test]
fn checked_sub_exact() {
    assert_eq!(q(1, 2).checked_sub(&q(1, 3)), Some(q(1, 6)));
    assert_eq!(q(1, 3).checked_sub(&q(1, 2)), Some(q(-1, 6)));
    assert_eq!(q(7, 5).checked_sub(&q(7, 5)), Some(Rational::from_i32(0)));
}

#[test]
fn checked_mul_exact() {
    assert_eq!(q(2, 3).checked_mul(&q(3, 4)), Some(q(1, 2)));
    assert_eq!(q(-2, 3).checked_mul(&q(3, 4)), Some(q(-1, 2)));
    assert_eq!(q(5, 7).checked_mul(&Rational::from_i32(0)), Some(Rational::from_i32(0)));
}

#[test]
fn checked_div_exact() {
    assert_eq!(q(1, 2).checked_div(&q(3, 4)), Some(q(2, 3)));
    assert_eq!(q(1, 2).checked_div(&q(-1, 4)), Some(Rational::from_i32(-2)));
    assert_eq!(Rational::from_i32(0).checked_div(&q(-1, 4)), Some(Rational::from_i32(0)));
}

#[test]
fn checked_div_by_zero_is_none() {
    assert_eq!(q(1, 2).checked_div(&Rational::from_i32(0)), None);
    assert_eq!(Rational::from_i32(0).checked_div(&Rational::from_i32(0)), None);
}

#[test]
fn sums_out_of_range_are_none() {
    let max = q(LIMIT, 1);
    assert_eq!(max.checked_add(&Rational::from_i32(1)), None);
    assert_eq!(max.neg().checked_sub(&Rational::from_i32(1)), None);
    assert_eq!(max.checked_add(&max), None);
    // denominators 2^62 and 3 have no common factor: the sum needs 3 * 2^62
    assert_eq!(q(1, 4611686018427387904).checked_add(&q(1, 3)), None);
}

#[test]
fn products_out_of_range_are_none() {
    let max = q(LIMIT, 1);
    assert_eq!(max.checked_mul(&Rational::from_i32(2)), None);
    assert_eq!(q(1, LIMIT).checked_mul(&q(1, 2)), None);
    assert_eq!(q(1, LIMIT).checked_div(&Rational::from_i32(2)), None);
    assert_eq!(max.checked_div(&q(1, 2)), None);
}

#[test]
fn results_at_the_limit_are_kept() {
    let max = q(LIMIT, 1);
    assert_eq!(q(LIMIT - 1, 1).checked_add(&Rational::from_i32(1)), Some(max));
    assert_eq!(max.checked_sub(&max), Some(Rational::from_i32(0)));
    // 2^63 - 1 = 7^2 * 73 * 127 * 337 * 92737 * 649657
    assert_eq!(q(LIMIT / 7, 1).checked_mul(&Rational::from_i32(7)), Some(max));
}

#[test]
fn common_factors_cancel_before_the_range_is_tested() {
    let max = q(LIMIT, 1);
    assert_eq!(max.checked_mul(&q(1, LIMIT)), Some(Rational::from_i32(1)));
    assert_eq!(max.checked_div(&max), Some(Rational::from_i32(1)));
    assert_eq!(q(LIMIT, 2).checked_add(&q(LIMIT, 2)), Some(max));
}
