use dual_numbers::dual::Dual;

#[test]
fn basic_dual() {
    let a = Dual::new(2i64, 3i64);
    let b = Dual::new(1i64, 2i64);

    assert_eq!(a.add(b), Dual::new(3, 5));
    assert_eq!(a.sub(b), Dual::new(1, 1));
    assert_eq!(a.mul(b), Dual::new(2, 7));
    assert_eq!(a.div(b), Dual::new(2, -1));
}

#[test]
fn new_stores_the_pair() {
    let u = Dual::new(10i64, -3i64);
    assert_eq!(u.a, 10);
    assert_eq!(u.b, -3);
}

#[test]
fn assign_forms_match_the_returning_forms() {
    let a = Dual::new(2i64, 3i64);
    let b = Dual::new(1i64, 2i64);

    let mut u = a;
    u.add_assign(b);
    assert_eq!(u, a.add(b));

    let mut u = a;
    u.sub_assign(b);
    assert_eq!(u, a.sub(b));

    let mut u = a;
    u.mul_assign(b);
    assert_eq!(u, a.mul(b));

    let mut u = a;
    u.div_assign(b);
    assert_eq!(u, a.div(b));
}

#[test]
fn linearity_of_seed_and_constant() {
    // x seeded as the independent variable, c a constant.
    let x = Dual::new(7i64, 1i64);
    let c = Dual::new(4i64, 0i64);
    assert_eq!(x.add(c).b, 1);
    assert_eq!(x.mul(c).b, 4);
}

#[test]
fn product_rule_tangent() {
    // d/dx (x*x + x) at x == 2 is 2*x + 1 == 5.
    let a = Dual::new(2i64, 1i64);
    let r = a.mul(a).add(a);
    assert_eq!(r.a, 6);
    assert_eq!(r.b, 5);
}

#[test]
fn conjugate_negates_the_tangent() {
    let u = Dual::new(5i64, -9i64);
    assert_eq!(u.conjugate(), Dual::new(5, 9));
}

#[test]
fn conjugate_twice_is_identity() {
    let u = Dual::new(5i64, -9i64);
    assert_eq!(u.conjugate().conjugate(), u);
    let v = Dual::new(-8i64, 0i64);
    assert_eq!(v.conjugate().conjugate(), v);
}

#[test]
fn rounding_family_tangent_is_zero() {
    let u = Dual::new(7i64, 5i64);
    assert_eq!(u.ceil(), Dual::new(7, 0));
    assert_eq!(u.floor(), Dual::new(7, 0));
    assert_eq!(u.round(), Dual::new(7, 0));
    assert_eq!(u.trunc(), Dual::new(7, 0));
    assert_eq!(u.signum(), Dual::new(1, 0));

    let v = Dual::new(-6i64, -11i64);
    assert_eq!(v.ceil(), Dual::new(-6, 0));
    assert_eq!(v.floor(), Dual::new(-6, 0));
    assert_eq!(v.round(), Dual::new(-6, 0));
    assert_eq!(v.trunc(), Dual::new(-6, 0));
    assert_eq!(v.signum(), Dual::new(-1, 0));
}

#[test]
fn abs_multiplies_the_tangent_by_the_sign() {
    assert_eq!(Dual::new(-4i64, 5i64).abs(), Dual::new(4, -5));
    assert_eq!(Dual::new(4i64, 5i64).abs(), Dual::new(4, 5));
    // The sign of zero is taken to be zero, so the tangent vanishes.
    assert_eq!(Dual::new(0i64, 9i64).abs(), Dual::new(0, 0));
}

#[test]
fn signum_of_zero_is_zero() {
    assert_eq!(Dual::new(0i64, 3i64).signum(), Dual::new(0, 0));
}

#[test]
fn frac_keeps_the_tangent() {
    // The fractional part of an integer scalar is zero; its slope is one.
    assert_eq!(Dual::new(9i64, 8i64).frac(), Dual::new(0, 8));
}

#[test]
fn recip_follows_the_quotient_rule() {
    // 1/a and -b/(a*a), with truncating division.
    assert_eq!(Dual::new(3i64, 6i64).recip(), Dual::new(0, 0));
    assert_eq!(Dual::new(-1i64, 4i64).recip(), Dual::new(-1, -4));
    assert_eq!(Dual::new(2i64, -8i64).recip(), Dual::new(0, 2));
}

#[test]
fn powi_follows_the_power_rule() {
    // d/dx x^3 at x == 2 is 3 * 2^2 == 12.
    assert_eq!(Dual::new(2i64, 1i64).powi(3), Dual::new(8, 12));
    // d/dx x^2 at x == -3, seeded with tangent 2, is 2 * 2 * (-3) == -12.
    assert_eq!(Dual::new(-3i64, 2i64).powi(2), Dual::new(9, -12));
    // The first power is the identity.
    assert_eq!(Dual::new(5i64, 7i64).powi(1), Dual::new(5, 7));
    // A base of one keeps every power at one.
    assert_eq!(Dual::new(1i64, 9i64).powi(10), Dual::new(1, 90));
    // A large power that still fits the scalar.
    assert_eq!(Dual::new(2i64, 0i64).powi(62), Dual::new(1i64 << 62, 0));
}

#[test]
fn division_truncates_toward_zero() {
    let two = Dual::new(2i64, 0i64);
    let neg_two = Dual::new(-2i64, 0i64);
    assert_eq!(Dual::new(-7i64, 0i64).div(two).a, -3);
    assert_eq!(Dual::new(7i64, 0i64).div(neg_two).a, -3);
    assert_eq!(Dual::new(7i64, 0i64).div(two).a, 3);
    assert_eq!(Dual::new(1i64, 0i64).div(two).a, 0);
    assert_eq!(Dual::new(-1i64, 0i64).div(two).a, 0);
}

#[test]
fn mul_carries_wide_intermediate_products() {
    // The cross products overflow the scalar, but the result fits.
    let u = Dual::new(1i64 << 32, -(1i64 << 34));
    let v = Dual::new(1i64 << 30, 1i64 << 32);
    assert_eq!(u.mul(v), Dual::new(1i64 << 62, 0));
}

#[test]
fn div_carries_wide_intermediate_products() {
    // Numerator and denominator overflow the scalar, but the result fits.
    let u = Dual::new(1i64 << 32, 1i64 << 34);
    let v = Dual::new(1i64 << 30, 1i64 << 32);
    assert_eq!(u.div(v), Dual::new(4, 0));
}
