//! The fixed-point scalar: exact arithmetic, saturation, roots and
//! wrapping.

use softrender::fixed::{Fx, FX_MAX, FX_SCALE};
use softrender::math::is_equal;

#[test]
fn fixed_exact_products() {
    assert_eq!(Fx::from_int(3).mul(Fx::from_int(2)), Fx::from_int(6));
    assert_eq!(Fx::from_int(-3).mul(Fx::from_int(2)), Fx::from_int(-6));
    assert_eq!(Fx::one().mul(Fx::from_int(41)), Fx::from_int(41));
    assert_eq!(Fx::zero().mul(Fx::from_int(41)), Fx::zero());
}

#[test]
fn fixed_exact_quotients() {
    assert_eq!(Fx::from_int(1).div(Fx::from_int(2)), Fx::from_bits(FX_SCALE / 2));
    assert_eq!(Fx::from_int(6).div(Fx::from_int(2)), Fx::from_int(3));
    assert_eq!(Fx::from_int(-6).div(Fx::from_int(2)), Fx::from_int(-3));
    // A zero divisor saturates by the dividend's sign.
    assert_eq!(Fx::from_int(1).div(Fx::zero()), Fx::from_bits(FX_MAX));
    assert_eq!(Fx::zero().div(Fx::zero()), Fx::zero());
}

#[test]
fn fixed_saturates_at_the_rim() {
    let top = Fx::from_bits(FX_MAX);
    assert_eq!(top.add(Fx::one()), top);
    assert_eq!(top.neg().sub(Fx::one()), top.neg());
}

#[test]
fn fixed_square_roots() {
    assert_eq!(Fx::from_int(4).sqrt(), Fx::from_int(2));
    assert_eq!(Fx::from_int(16).sqrt(), Fx::from_int(4));
    assert_eq!(Fx::zero().sqrt(), Fx::zero());
    // 0.25 has the exact root 0.5.
    assert_eq!(Fx::from_bits(FX_SCALE / 4).sqrt(), Fx::from_bits(FX_SCALE / 2));
}

#[test]
fn fixed_fract_wraps_downward() {
    // 1.25 and -0.1 wrap into [0, 1).
    let q = Fx::from_int(1).add(Fx::from_bits(FX_SCALE / 4));
    assert_eq!(q.fract(), Fx::from_bits(FX_SCALE / 4));
    let n = Fx::from_bits(-6554);
    assert_eq!(n.fract(), Fx::from_bits(FX_SCALE - 6554));
}

#[test]
fn fixed_floor_and_clamp() {
    assert_eq!(Fx::from_bits(3 * FX_SCALE + 17).floor_int(), 3);
    assert_eq!(Fx::from_bits(-17).floor_int(), -1);
    let c = Fx::from_int(9).clamp(Fx::zero(), Fx::one());
    assert_eq!(c, Fx::one());
}

#[test]
fn is_equal_tolerates_one_quantum() {
    let a = Fx::from_bits(1000);
    assert!(is_equal(a, a));
    assert!(!is_equal(a, Fx::from_bits(1001)));
}
