use blackhole::fixed::{fadd, fsub, fneg, fmul, fdiv, fsqrt, isqrt, SCALE};

#[test]
fn fixed_mul_exact() {
    // 1.5 * 2 = 3.
    assert_eq!(fmul(1_500_000, 2_000_000), Some(3_000_000));
    assert_eq!(fmul(-1_500_000, 2_000_000), Some(-3_000_000));
    assert_eq!(fmul(-1_500_000, -2_000_000), Some(3_000_000));
}

#[test]
fn fixed_mul_truncates_toward_zero() {
    // (1e-6)^2 underflows to zero from both sides.
    assert_eq!(fmul(1, 1), Some(0));
    assert_eq!(fmul(-1, 1), Some(0));
    // 0.3 * 0.3 = 0.09 exactly at this resolution.
    assert_eq!(fmul(300_000, 300_000), Some(90_000));
    // -1.000001 * 1.000001 = -1.000002000001 truncates toward zero.
    assert_eq!(fmul(-1_000_001, 1_000_001), Some(-1_000_002));
}

#[test]
fn fixed_mul_overflow_is_none() {
    assert_eq!(fmul(i64::MAX, 2_000_000), None);
}

#[test]
fn fixed_div_exact() {
    assert_eq!(fdiv(1_000_000, 3_000_000), Some(333_333));
    assert_eq!(fdiv(-1_000_000, 3_000_000), Some(-333_333));
    assert_eq!(fdiv(1_000_000, -3_000_000), Some(-333_333));
    assert_eq!(fdiv(7_000_000, 2_000_000), Some(3_500_000));
}

#[test]
fn fixed_div_by_zero_is_none() {
    assert_eq!(fdiv(1_000_000, 0), None);
}

#[test]
fn fixed_add_sub_neg() {
    assert_eq!(fadd(2_500_000, -1_000_000), Some(1_500_000));
    assert_eq!(fadd(i64::MAX, 1), None);
    assert_eq!(fsub(i64::MIN, 1), None);
    assert_eq!(fneg(5), Some(-5));
    assert_eq!(fneg(i64::MIN), None);
}

#[test]
fn fixed_sqrt_exact() {
    // sqrt(4) = 2, sqrt(2) = 1.414213..., sqrt of a negative fails.
    assert_eq!(fsqrt(4 * SCALE), Some(2 * SCALE));
    assert_eq!(fsqrt(2 * SCALE), Some(1_414_213));
    assert_eq!(fsqrt(0), Some(0));
    assert_eq!(fsqrt(-1), None);
}

#[test]
fn integer_sqrt_floors() {
    assert_eq!(isqrt(0), 0);
    assert_eq!(isqrt(15), 3);
    assert_eq!(isqrt(16), 4);
    assert_eq!(isqrt(1_000_000_000_000), 1_000_000);
}
