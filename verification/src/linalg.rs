//! Small fixed-point vectors.
//!
//! `Vec3` holds a Cartesian point or direction, `Vec4` a spacetime
//! `(t, r, theta, phi)` position or velocity, all components in raw units of
//! `fixed::SCALE`. The checked operations mirror the scalar kernel: a result
//! is `None` exactly when some component leaves the `i64` range.

use vstd::prelude::*;
use crate::fixed::{cadd, cmul, csub, cneg, cdiv, csqrt, iabs, opt_int, fadd, fmul, fsub, fneg, fdiv, fsqrt};

verus! {

#[derive(Clone, Copy, PartialEq, Eq, Structural, Debug)]
pub struct Vec3 {
    pub x: i64,
    pub y: i64,
    pub z: i64,
}

#[derive(Clone, Copy, PartialEq, Eq, Structural, Debug)]
pub struct Vec4 {
    pub t: i64,
    pub r: i64,
    pub th: i64,
    pub ph: i64,
}

/// Domain bound for world coordinates: 1000.0 in raw units. Keeping every
/// component of a ray origin or direction within it lets the intersection
/// arithmetic stay exact in 128 bits.
pub const RAW_BOUND: i64 = 1_000_000_000;

/// All three components at most `bound` in magnitude.
pub open spec fn bounded3(v: Vec3, bound: int) -> bool {
    iabs(v.x as int) <= bound && iabs(v.y as int) <= bound && iabs(v.z as int) <= bound
}

/// Runtime test of `bounded3`.
pub fn check_bounded3(v: &Vec3, bound: i64) -> (b: bool)
    requires
        bound >= 0,
    ensures
        b == bounded3(*v, bound as int),
{
    -bound <= v.x && v.x <= bound && -bound <= v.y && v.y <= bound && -bound <= v.z && v.z
        <= bound
}

/// A triple of checked components, `None` as soon as one is.
pub open spec fn triple(a: Option<int>, b: Option<int>, c: Option<int>) -> Option<(int, int, int)> {
    match (a, b, c) {
        (Some(x), Some(y), Some(z)) => Some((x, y, z)),
        _ => None,
    }
}

pub open spec fn opt_v3(o: Option<Vec3>) -> Option<(int, int, int)> {
    match o {
        Some(v) => Some((v.x as int, v.y as int, v.z as int)),
        None => None,
    }
}

/// The checked triple as a vector again, once all components are in range.
/// The components of a `Some` produced by the checked operations always
/// fit an `i64`, so the narrowing below never loses a value.
pub open spec fn v3_of(t: Option<(int, int, int)>) -> Option<Vec3> {
    match t {
        Some((x, y, z)) => Some(Vec3 { x: x as i64, y: y as i64, z: z as i64 }),
        None => None,
    }
}

/// A quadruple of checked components, `None` as soon as one is.
pub open spec fn quad(a: Option<int>, b: Option<int>, c: Option<int>, d: Option<int>) -> Option<
    (int, int, int, int),
> {
    match (a, b, c, d) {
        (Some(t), Some(r), Some(th), Some(ph)) => Some((t, r, th, ph)),
        _ => None,
    }
}

/// The checked quadruple as a 4-vector again; as with `v3_of`, a `Some`
/// always carries values that fit.
pub open spec fn v4_of(t: Option<(int, int, int, int)>) -> Option<Vec4> {
    match t {
        Some((a, b, c, d)) => Some(
            Vec4 { t: a as i64, r: b as i64, th: c as i64, ph: d as i64 },
        ),
        None => None,
    }
}

pub open spec fn opt_v4(o: Option<Vec4>) -> Option<(int, int, int, int)> {
    match o {
        Some(v) => Some((v.t as int, v.r as int, v.th as int, v.ph as int)),
        None => None,
    }
}

pub open spec fn scale3_spec(v: Vec3, k: int) -> Option<(int, int, int)> {
    triple(
        cmul(Some(v.x as int), Some(k)),
        cmul(Some(v.y as int), Some(k)),
        cmul(Some(v.z as int), Some(k)),
    )
}

pub open spec fn add3_spec(a: Vec3, b: Vec3) -> Option<(int, int, int)> {
    triple(
        cadd(Some(a.x as int), Some(b.x as int)),
        cadd(Some(a.y as int), Some(b.y as int)),
        cadd(Some(a.z as int), Some(b.z as int)),
    )
}

pub open spec fn neg3_spec(v: Vec3) -> Option<(int, int, int)> {
    triple(
        cneg(Some(v.x as int)),
        cneg(Some(v.y as int)),
        cneg(Some(v.z as int)),
    )
}

pub open spec fn cross3_spec(a: Vec3, b: Vec3) -> Option<(int, int, int)> {
    triple(
        csub(cmul(Some(a.y as int), Some(b.z as int)), cmul(Some(a.z as int), Some(b.y as int))),
        csub(cmul(Some(a.z as int), Some(b.x as int)), cmul(Some(a.x as int), Some(b.z as int))),
        csub(cmul(Some(a.x as int), Some(b.y as int)), cmul(Some(a.y as int), Some(b.x as int))),
    )
}

pub open spec fn dot3_spec(a: Vec3, b: Vec3) -> Option<int> {
    cadd(
        cadd(
            cmul(Some(a.x as int), Some(b.x as int)),
            cmul(Some(a.y as int), Some(b.y as int)),
        ),
        cmul(Some(a.z as int), Some(b.z as int)),
    )
}

/// Euclidean length: `sqrt(v . v)`.
pub open spec fn norm3_spec(v: Vec3) -> Option<int> {
    csqrt(dot3_spec(v, v))
}

/// `v` divided by its own length; `None` for a length of zero.
pub open spec fn normalize3_spec(v: Vec3) -> Option<(int, int, int)> {
    match norm3_spec(v) {
        Some(n) => triple(
            cdiv(Some(v.x as int), Some(n)),
            cdiv(Some(v.y as int), Some(n)),
            cdiv(Some(v.z as int), Some(n)),
        ),
        None => None,
    }
}

pub fn scale3(v: &Vec3, k: i64) -> (res: Option<Vec3>)
    ensures
        opt_v3(res) == scale3_spec(*v, k as int),
{
    let x: i64 = match fmul(v.x, k) { Some(w) => w, None => return None };
    let y: i64 = match fmul(v.y, k) { Some(w) => w, None => return None };
    let z: i64 = match fmul(v.z, k) { Some(w) => w, None => return None };
    Some(Vec3 { x, y, z })
}

pub fn add3(a: &Vec3, b: &Vec3) -> (res: Option<Vec3>)
    ensures
        opt_v3(res) == add3_spec(*a, *b),
{
    let x: i64 = match fadd(a.x, b.x) { Some(w) => w, None => return None };
    let y: i64 = match fadd(a.y, b.y) { Some(w) => w, None => return None };
    let z: i64 = match fadd(a.z, b.z) { Some(w) => w, None => return None };
    Some(Vec3 { x, y, z })
}

pub fn neg3(v: &Vec3) -> (res: Option<Vec3>)
    ensures
        opt_v3(res) == neg3_spec(*v),
{
    let x: i64 = match fneg(v.x) { Some(w) => w, None => return None };
    let y: i64 = match fneg(v.y) { Some(w) => w, None => return None };
    let z: i64 = match fneg(v.z) { Some(w) => w, None => return None };
    Some(Vec3 { x, y, z })
}

pub fn cross3(a: &Vec3, b: &Vec3) -> (res: Option<Vec3>)
    ensures
        opt_v3(res) == cross3_spec(*a, *b),
{
    let x1: i64 = match fmul(a.y, b.z) { Some(w) => w, None => return None };
    let x2: i64 = match fmul(a.z, b.y) { Some(w) => w, None => return None };
    let x: i64 = match fsub(x1, x2) { Some(w) => w, None => return None };
    let y1: i64 = match fmul(a.z, b.x) { Some(w) => w, None => return None };
    let y2: i64 = match fmul(a.x, b.z) { Some(w) => w, None => return None };
    let y: i64 = match fsub(y1, y2) { Some(w) => w, None => return None };
    let z1: i64 = match fmul(a.x, b.y) { Some(w) => w, None => return None };
    let z2: i64 = match fmul(a.y, b.x) { Some(w) => w, None => return None };
    let z: i64 = match fsub(z1, z2) { Some(w) => w, None => return None };
    Some(Vec3 { x, y, z })
}

pub fn dot3(a: &Vec3, b: &Vec3) -> (res: Option<i64>)
    ensures
        opt_int(res) == dot3_spec(*a, *b),
{
    let px: i64 = match fmul(a.x, b.x) { Some(w) => w, None => return None };
    let py: i64 = match fmul(a.y, b.y) { Some(w) => w, None => return None };
    let pz: i64 = match fmul(a.z, b.z) { Some(w) => w, None => return None };
    let s: i64 = match fadd(px, py) { Some(w) => w, None => return None };
    fadd(s, pz)
}

pub fn norm3(v: &Vec3) -> (res: Option<i64>)
    ensures
        opt_int(res) == norm3_spec(*v),
{
    match dot3(v, v) {
        Some(d) => fsqrt(d),
        None => None,
    }
}

pub fn normalize3(v: &Vec3) -> (res: Option<Vec3>)
    ensures
        opt_v3(res) == normalize3_spec(*v),
{
    let n: i64 = match norm3(v) { Some(w) => w, None => return None };
    let x: i64 = match fdiv(v.x, n) { Some(w) => w, None => return None };
    let y: i64 = match fdiv(v.y, n) { Some(w) => w, None => return None };
    let z: i64 = match fdiv(v.z, n) { Some(w) => w, None => return None };
    Some(Vec3 { x, y, z })
}

} // verus!
