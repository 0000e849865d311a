//! Fixed-point scalar arithmetic.
//!
//! A quantity is stored as an `i64` holding `value * SCALE`, so one raw unit
//! is 10^-6. Every operation is checked: it returns `None` instead of
//! wrapping when the mathematical result leaves the `i64` range, and `None`
//! propagates through compound formulas the way a floating-point NaN would.
//! The spec functions `cadd`, `csub`, `cneg`, `cmul`, `cdiv` and `csqrt`
//! define the arithmetic exactly over `Option<int>`; each executable
//! operation is proved to match its spec on all inputs.

use vstd::prelude::*;

verus! {

/// Raw units per 1.0.
pub const SCALE: i64 = 1_000_000;

/// Absolute value over `int`.
pub open spec fn iabs(a: int) -> int {
    if a >= 0 { a } else { -a }
}

/// Division truncating toward zero, the behaviour of `/` on hardware
/// integers. Unspecified for `b == 0` (guarded by every caller).
pub open spec fn tdiv(a: int, b: int) -> int
    recommends
        b != 0,
{
    let q: int = iabs(a) / iabs(b);
    if (a >= 0) == (b >= 0) { q } else { -q }
}

pub open spec fn fits_i64(a: int) -> bool {
    i64::MIN <= a <= i64::MAX
}

/// Keep the value only when it fits an `i64`.
pub open spec fn chk(a: int) -> Option<int> {
    if fits_i64(a) { Some(a) } else { None }
}

pub open spec fn cadd(a: Option<int>, b: Option<int>) -> Option<int> {
    match (a, b) {
        (Some(x), Some(y)) => chk(x + y),
        _ => None,
    }
}

pub open spec fn csub(a: Option<int>, b: Option<int>) -> Option<int> {
    match (a, b) {
        (Some(x), Some(y)) => chk(x - y),
        _ => None,
    }
}

pub open spec fn cneg(a: Option<int>) -> Option<int> {
    match a {
        Some(x) => chk(-x),
        None => None,
    }
}

/// Fixed-point product: `(x * y) / SCALE`, truncating toward zero.
pub open spec fn cmul(a: Option<int>, b: Option<int>) -> Option<int> {
    match (a, b) {
        (Some(x), Some(y)) => chk(tdiv(x * y, SCALE as int)),
        _ => None,
    }
}

/// Fixed-point quotient: `(x * SCALE) / y`, truncating toward zero.
/// Division by zero yields `None`.
pub open spec fn cdiv(a: Option<int>, b: Option<int>) -> Option<int> {
    match (a, b) {
        (Some(x), Some(y)) => if y == 0 { None } else { chk(tdiv(x * (SCALE as int), y)) },
        _ => None,
    }
}

/// Integer square root, by recursion over `n`.
pub open spec fn sqrt_floor(n: nat) -> nat
    decreases n,
{
    if n == 0 {
        0
    } else {
        let r: nat = sqrt_floor((n - 1) as nat);
        if (r + 1) * (r + 1) <= n { r + 1 } else { r }
    }
}

/// Fixed-point square root: `floor(sqrt(x * SCALE))`, so that the result is
/// again in raw units. A negative operand yields `None`.
pub open spec fn csqrt(a: Option<int>) -> Option<int> {
    match a {
        Some(x) => if x < 0 { None } else { chk(sqrt_floor((x * (SCALE as int)) as nat) as int) },
        None => None,
    }
}

/// View of an executable checked result as its mathematical counterpart.
pub open spec fn opt_int(o: Option<i64>) -> Option<int> {
    match o {
        Some(v) => Some(v as int),
        None => None,
    }
}

/// Magnitude and sign of a product of signed factors.
pub proof fn lemma_mul_sign_abs(a: int, b: int)
    ensures
        iabs(a * b) == iabs(a) * iabs(b),
        (a >= 0 && b >= 0) ==> a * b >= 0,
        (a < 0 && b < 0) ==> a * b >= 0,
        (a >= 0 && b < 0) ==> a * b <= 0,
        (a < 0 && b >= 0) ==> a * b <= 0,
{
    if a >= 0 && b >= 0 {
        assert(a * b >= 0) by (nonlinear_arith)
            requires a >= 0 && b >= 0;
    } else if a >= 0 && b < 0 {
        assert(a * b <= 0 && -(a * b) == a * (-b)) by (nonlinear_arith)
            requires a >= 0 && b < 0;
    } else if a < 0 && b >= 0 {
        assert(a * b <= 0 && -(a * b) == (-a) * b) by (nonlinear_arith)
            requires a < 0 && b >= 0;
    } else {
        assert(a * b >= 0 && a * b == (-a) * (-b)) by (nonlinear_arith)
            requires a < 0 && b < 0;
    }
}

pub proof fn lemma_sqrt_floor(n: nat)
    ensures
        sqrt_floor(n) * sqrt_floor(n) <= n,
        n < (sqrt_floor(n) + 1) * (sqrt_floor(n) + 1),
    decreases n,
{
    if n > 0 {
        lemma_sqrt_floor((n - 1) as nat);
        let r: nat = sqrt_floor((n - 1) as nat);
        let s: nat = sqrt_floor(n);
        if (r + 1) * (r + 1) <= n {
            assert(s == r + 1);
            assert(n - 1 < (r + 1) * (r + 1));
            assert(n < (s + 1) * (s + 1)) by (nonlinear_arith)
                requires s == r + 1 && n <= (r + 1) * (r + 1);
            assert(s * s <= n);
        } else {
            assert(s == r);
            assert(s * s <= n - 1);
            assert(n < (s + 1) * (s + 1));
        }
        assert(sqrt_floor(n) * sqrt_floor(n) <= n);
        assert(n < (sqrt_floor(n) + 1) * (sqrt_floor(n) + 1));
    } else {
        assert(n == 0);
        assert(sqrt_floor(n) == 0);
        assert(sqrt_floor(n) * sqrt_floor(n) <= n) by (nonlinear_arith)
            requires n == 0 && sqrt_floor(n) == 0;
        assert(n < (sqrt_floor(n) + 1) * (sqrt_floor(n) + 1)) by (nonlinear_arith)
            requires n == 0 && sqrt_floor(n) == 0;
    }
}

pub proof fn lemma_sqrt_unique(n: nat, r: nat)
    requires
        r * r <= n,
        n < (r + 1) * (r + 1),
    ensures
        r == sqrt_floor(n),
{
    lemma_sqrt_floor(n);
    let s: nat = sqrt_floor(n);
    if r < s {
        assert((r + 1) * (r + 1) <= s * s) by (nonlinear_arith)
            requires r + 1 <= s;
        assert(false);
    }
    if s < r {
        assert((s + 1) * (s + 1) <= r * r) by (nonlinear_arith)
            requires s + 1 <= r;
        assert(false);
    }
}

/// Magnitude of an `i64`, exact even for `i64::MIN`.
pub fn abs_u128(a: i64) -> (r: u128)
    ensures
        r == iabs(a as int),
{
    if a >= 0 {
        a as u128
    } else {
        let w: i128 = a as i128;
        (-w) as u128
    }
}

/// Rebuild a signed result from magnitude and sign, checking the `i64` range.
fn signed_of(mag: u128, neg: bool) -> (res: Option<i64>)
    ensures
        opt_int(res) == chk(if neg { -(mag as int) } else { mag as int }),
{
    if neg {
        if mag <= 9_223_372_036_854_775_808u128 {
            let w: i128 = -(mag as i128);
            Some(w as i64)
        } else {
            None
        }
    } else {
        if mag <= i64::MAX as u128 {
            Some(mag as i64)
        } else {
            None
        }
    }
}

pub fn fadd(a: i64, b: i64) -> (res: Option<i64>)
    ensures
        opt_int(res) == cadd(Some(a as int), Some(b as int)),
{
    let s: i128 = a as i128 + b as i128;
    if i64::MIN as i128 <= s && s <= i64::MAX as i128 {
        Some(s as i64)
    } else {
        None
    }
}

pub fn fsub(a: i64, b: i64) -> (res: Option<i64>)
    ensures
        opt_int(res) == csub(Some(a as int), Some(b as int)),
{
    let s: i128 = a as i128 - b as i128;
    if i64::MIN as i128 <= s && s <= i64::MAX as i128 {
        Some(s as i64)
    } else {
        None
    }
}

pub fn fneg(a: i64) -> (res: Option<i64>)
    ensures
        opt_int(res) == cneg(Some(a as int)),
{
    if a == i64::MIN {
        None
    } else {
        Some(-a)
    }
}

pub fn fmul(a: i64, b: i64) -> (res: Option<i64>)
    ensures
        opt_int(res) == cmul(Some(a as int), Some(b as int)),
{
    let ma: u128 = abs_u128(a);
    let mb: u128 = abs_u128(b);
    proof {
        assert(ma * mb <= 0x8000_0000_0000_0000u128 * 0x8000_0000_0000_0000u128)
            by (nonlinear_arith)
            requires ma <= 0x8000_0000_0000_0000u128 && mb <= 0x8000_0000_0000_0000u128;
        lemma_mul_sign_abs(a as int, b as int);
    }
    let p: u128 = ma * mb;
    let q: u128 = p / (SCALE as u128);
    let neg: bool = (a < 0) != (b < 0);
    proof {
        assert(q == iabs(a as int * b as int) / iabs(SCALE as int));
        if q != 0 && neg {
            assert(a as int * b as int != 0);
        }
    }
    if q == 0 {
        Some(0)
    } else {
        signed_of(q, neg)
    }
}

pub fn fdiv(a: i64, b: i64) -> (res: Option<i64>)
    ensures
        opt_int(res) == cdiv(Some(a as int), Some(b as int)),
{
    if b == 0 {
        return None;
    }
    let ma: u128 = abs_u128(a);
    let mb: u128 = abs_u128(b);
    proof {
        assert(ma * 1_000_000u128 <= 0x8000_0000_0000_0000u128 * 1_000_000u128)
            by (nonlinear_arith)
            requires ma <= 0x8000_0000_0000_0000u128;
        lemma_mul_sign_abs(a as int, SCALE as int);
    }
    let p: u128 = ma * (SCALE as u128);
    let q: u128 = p / mb;
    let neg: bool = (a < 0) != (b < 0);
    proof {
        assert(q == iabs(a as int * (SCALE as int)) / iabs(b as int));
        if q != 0 && neg {
            assert(a as int * (SCALE as int) != 0);
        }
    }
    if q == 0 {
        Some(0)
    } else {
        signed_of(q, neg)
    }
}

/// Floor square root of `n`, by bisection.
pub fn isqrt(n: u128) -> (r: u128)
    requires
        n < 0x4000_0000_0000_0000_0000_0000_0000_0000u128,
    ensures
        r * r <= n,
        n < (r + 1) * (r + 1),
        r as nat == sqrt_floor(n as nat),
{
    let mut lo: u128 = 0;
    let mut hi: u128 = 0x8000_0000_0000_0000u128;
    proof {
        assert(hi * hi == 0x4000_0000_0000_0000_0000_0000_0000_0000u128) by (nonlinear_arith)
            requires hi == 0x8000_0000_0000_0000u128;
    }
    while lo + 1 < hi
        invariant
            lo < hi,
            hi <= 0x8000_0000_0000_0000u128,
            lo * lo <= n,
            n < hi * hi,
        decreases hi - lo,
    {
        let mid: u128 = lo + (hi - lo) / 2;
        proof {
            assert(mid * mid <= 0x8000_0000_0000_0000u128 * 0x8000_0000_0000_0000u128)
                by (nonlinear_arith)
                requires mid <= 0x8000_0000_0000_0000u128;
        }
        if mid * mid <= n {
            lo = mid;
        } else {
            hi = mid;
        }
    }
    proof {
        lemma_sqrt_unique(n as nat, lo as nat);
    }
    lo
}

pub fn fsqrt(a: i64) -> (res: Option<i64>)
    ensures
        opt_int(res) == csqrt(Some(a as int)),
{
    if a < 0 {
        return None;
    }
    let au: u128 = a as u128;
    proof {
        assert(au * 1_000_000u128 <= 0x8000_0000_0000_0000u128 * 1_000_000u128)
            by (nonlinear_arith)
            requires au <= 0x8000_0000_0000_0000u128;
    }
    let n: u128 = au * (SCALE as u128);
    let r: u128 = isqrt(n);
    proof {
        if r >= 4_000_000_000_000u128 {
            assert(r * r >= 4_000_000_000_000u128 * 4_000_000_000_000u128)
                by (nonlinear_arith)
                requires r >= 4_000_000_000_000u128;
            assert(false);
        }
    }
    Some(r as i64)
}

} // verus!
