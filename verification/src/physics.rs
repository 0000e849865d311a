//! Schwarzschild metric and connection coefficients.
//!
//! Units are geometrized with the mass parameter normalized so that the event
//! horizon lies at radial coordinate `r == 1`. A 4-position is `(t, r, theta,
//! phi)`. Because the trigonometric values of an angle are not representable
//! exactly, every evaluation takes `r` together with the sine (and, for the
//! connection, cosine) of `theta` as fixed-point arguments; the caller
//! supplies them. All arithmetic is checked: `None` stands where
//! floating-point evaluation would produce an infinity or NaN (division by
//! zero at the horizon or the poles, or a value out of range).

use vstd::prelude::*;
use crate::fixed::{SCALE, cadd, cmul, csub, cneg, cdiv, csqrt, opt_int, fadd, fmul, fsub, fneg,
    fdiv, fsqrt};
use crate::linalg::{Vec3, Vec4, quad, opt_v4};

verus! {

/// Fixed-point 1.0.
pub open spec fn one() -> Option<int> {
    Some(SCALE as int)
}

/// Fixed-point 2.0.
pub open spec fn two() -> Option<int> {
    Some(2 * (SCALE as int))
}

/// Metric component `g_{mu nu}` at radius `r` with `s == sin(theta)`:
/// `g_tt = -(1 - 1/r)`, `g_rr = 1/(1 - 1/r)`, `g_theta_theta = r^2`,
/// `g_phi_phi = r^2 sin^2(theta)`, zero off the diagonal.
pub open spec fn g_spec(mu: int, nu: int, r: int, s: int) -> Option<int>
    recommends
        0 <= mu < 4,
        0 <= nu < 4,
{
    if mu != nu {
        Some(0)
    } else if mu == 0 {
        cneg(csub(one(), cdiv(one(), Some(r))))
    } else if mu == 1 {
        cdiv(one(), csub(one(), cdiv(one(), Some(r))))
    } else if mu == 2 {
        cmul(Some(r), Some(r))
    } else {
        cmul(cmul(Some(r), Some(r)), cmul(Some(s), Some(s)))
    }
}

/// Connection coefficient `Gamma^l_{mu nu}` at radius `r` with
/// `s == sin(theta)`, `c == cos(theta)`. The lower index pair is sorted
/// first, so the table is symmetric in `mu, nu` by construction.
pub open spec fn gamma_spec(l: int, mu: int, nu: int, r: int, s: int, c: int) -> Option<int>
    recommends
        0 <= l < 4,
        0 <= mu < 4,
        0 <= nu < 4,
{
    let lo: int = if mu > nu { nu } else { mu };
    let hi: int = if mu > nu { mu } else { nu };
    if l == 0 && lo == 0 && hi == 1 {
        // Gamma^t_{tr} = 1/(2r(r-1))
        cdiv(one(), cmul(cmul(two(), Some(r)), csub(Some(r), one())))
    } else if l == 1 && lo == 0 && hi == 0 {
        // Gamma^r_{tt} = (r-1)/(2r^3)
        cdiv(csub(Some(r), one()), cmul(two(), cmul(Some(r), cmul(Some(r), Some(r)))))
    } else if l == 1 && lo == 1 && hi == 1 {
        // Gamma^r_{rr} = -1/(2r(r-1))
        cneg(cdiv(one(), cmul(cmul(two(), Some(r)), csub(Some(r), one()))))
    } else if l == 1 && lo == 2 && hi == 2 {
        // Gamma^r_{theta theta} = -(r-1)
        csub(one(), Some(r))
    } else if l == 1 && lo == 3 && hi == 3 {
        // Gamma^r_{phi phi} = -(r-1) sin^2(theta)
        cmul(csub(one(), Some(r)), cmul(Some(s), Some(s)))
    } else if l == 2 && lo == 1 && hi == 2 {
        // Gamma^theta_{r theta} = 1/r
        cdiv(one(), Some(r))
    } else if l == 2 && lo == 3 && hi == 3 {
        // Gamma^theta_{phi phi} = -sin(theta) cos(theta)
        cneg(cmul(Some(s), Some(c)))
    } else if l == 3 && lo == 1 && hi == 3 {
        // Gamma^phi_{r phi} = 1/r
        cdiv(one(), Some(r))
    } else if l == 3 && lo == 2 && hi == 3 {
        // Gamma^phi_{theta phi} = cot(theta)
        cdiv(Some(c), Some(s))
    } else {
        Some(0)
    }
}

/// The metric is diagonal: every off-diagonal component is exactly zero, at
/// every radius and every angle.
pub proof fn lemma_metric_diagonal(mu: int, nu: int, r: int, s: int)
    requires
        0 <= mu < 4,
        0 <= nu < 4,
        mu != nu,
    ensures
        g_spec(mu, nu, r, s) == Some(0int),
{
}

/// The connection is symmetric in its two lower indices, at every radius and
/// every angle.
pub proof fn lemma_christoffel_symmetric(l: int, mu: int, nu: int, r: int, s: int, c: int)
    ensures
        gamma_spec(l, mu, nu, r, s, c) == gamma_spec(l, nu, mu, r, s, c),
{
}

/// Beyond the nine components named in `gamma_spec` (and their mirror images
/// under the lower-index symmetry), every connection coefficient is zero.
pub proof fn lemma_christoffel_support(l: int, mu: int, nu: int, r: int, s: int, c: int)
    requires
        !(l == 0 && (mu == 0 && nu == 1 || mu == 1 && nu == 0)),
        !(l == 1 && mu == 0 && nu == 0),
        !(l == 1 && mu == 1 && nu == 1),
        !(l == 1 && mu == 2 && nu == 2),
        !(l == 1 && mu == 3 && nu == 3),
        !(l == 2 && (mu == 1 && nu == 2 || mu == 2 && nu == 1)),
        !(l == 2 && mu == 3 && nu == 3),
        !(l == 3 && (mu == 1 && nu == 3 || mu == 3 && nu == 1)),
        !(l == 3 && (mu == 2 && nu == 3 || mu == 3 && nu == 2)),
    ensures
        gamma_spec(l, mu, nu, r, s, c) == Some(0int),
{
}

/// Metric component `g_{mu nu}` evaluated at `(r, sin theta)`.
pub fn g(mu: usize, nu: usize, r: i64, s: i64) -> (res: Option<i64>)
    requires
        mu < 4,
        nu < 4,
    ensures
        opt_int(res) == g_spec(mu as int, nu as int, r as int, s as int),
{
    if mu != nu {
        Some(0)
    } else if mu == 0 {
        let ir: i64 = match fdiv(SCALE, r) { Some(w) => w, None => return None };
        let d: i64 = match fsub(SCALE, ir) { Some(w) => w, None => return None };
        fneg(d)
    } else if mu == 1 {
        let ir: i64 = match fdiv(SCALE, r) { Some(w) => w, None => return None };
        let d: i64 = match fsub(SCALE, ir) { Some(w) => w, None => return None };
        fdiv(SCALE, d)
    } else if mu == 2 {
        fmul(r, r)
    } else {
        let r2: i64 = match fmul(r, r) { Some(w) => w, None => return None };
        let s2: i64 = match fmul(s, s) { Some(w) => w, None => return None };
        fmul(r2, s2)
    }
}

/// Connection coefficient `Gamma^l_{mu nu}` evaluated at
/// `(r, sin theta, cos theta)`.
pub fn gamma(l: usize, mu: usize, nu: usize, r: i64, s: i64, c: i64) -> (res: Option<i64>)
    requires
        l < 4,
        mu < 4,
        nu < 4,
    ensures
        opt_int(res) == gamma_spec(l as int, mu as int, nu as int, r as int, s as int, c as int),
{
    let lo: usize = if mu > nu { nu } else { mu };
    let hi: usize = if mu > nu { mu } else { nu };
    let two_fix: i64 = 2 * SCALE;
    if l == 0 && lo == 0 && hi == 1 {
        let tr: i64 = match fmul(two_fix, r) { Some(w) => w, None => return None };
        let rm1: i64 = match fsub(r, SCALE) { Some(w) => w, None => return None };
        let den: i64 = match fmul(tr, rm1) { Some(w) => w, None => return None };
        fdiv(SCALE, den)
    } else if l == 1 && lo == 0 && hi == 0 {
        let rm1: i64 = match fsub(r, SCALE) { Some(w) => w, None => return None };
        let r2: i64 = match fmul(r, r) { Some(w) => w, None => return None };
        let r3: i64 = match fmul(r, r2) { Some(w) => w, None => return None };
        let den: i64 = match fmul(two_fix, r3) { Some(w) => w, None => return None };
        fdiv(rm1, den)
    } else if l == 1 && lo == 1 && hi == 1 {
        let tr: i64 = match fmul(two_fix, r) { Some(w) => w, None => return None };
        let rm1: i64 = match fsub(r, SCALE) { Some(w) => w, None => return None };
        let den: i64 = match fmul(tr, rm1) { Some(w) => w, None => return None };
        let q: i64 = match fdiv(SCALE, den) { Some(w) => w, None => return None };
        fneg(q)
    } else if l == 1 && lo == 2 && hi == 2 {
        fsub(SCALE, r)
    } else if l == 1 && lo == 3 && hi == 3 {
        let omr: i64 = match fsub(SCALE, r) { Some(w) => w, None => return None };
        let s2: i64 = match fmul(s, s) { Some(w) => w, None => return None };
        fmul(omr, s2)
    } else if l == 2 && lo == 1 && hi == 2 {
        fdiv(SCALE, r)
    } else if l == 2 && lo == 3 && hi == 3 {
        let sc: i64 = match fmul(s, c) { Some(w) => w, None => return None };
        fneg(sc)
    } else if l == 3 && lo == 1 && hi == 3 {
        fdiv(SCALE, r)
    } else if l == 3 && lo == 2 && hi == 3 {
        fdiv(c, s)
    } else {
        Some(0)
    }
}

pub open spec fn vec4to3_spec(v: Vec4) -> Vec3 {
    Vec3 { x: v.r, y: v.th, z: v.ph }
}

pub open spec fn vec3to4_spec(v: Vec3) -> Vec4 {
    Vec4 { t: 0, r: v.x, th: v.y, ph: v.z }
}

/// Spatial part of a 4-vector.
pub fn vec4to3(v: &Vec4) -> (res: Vec3)
    ensures
        res == vec4to3_spec(*v),
{
    Vec3 { x: v.r, y: v.th, z: v.ph }
}

/// A 3-vector as a 4-vector with zero time component.
pub fn vec3to4(v: &Vec3) -> (res: Vec4)
    ensures
        res == vec3to4_spec(*v),
{
    Vec4 { t: 0, r: v.x, th: v.y, ph: v.z }
}

/// The two conversions invert one another: a 3-vector comes back unchanged,
/// and a 4-vector keeps its spatial part while the time component is zeroed.
pub proof fn lemma_vec_conversions_inverse(v3: Vec3, v4: Vec4)
    ensures
        vec4to3_spec(vec3to4_spec(v3)) == v3,
        vec3to4_spec(vec4to3_spec(v4)).t == 0,
        vec3to4_spec(vec4to3_spec(v4)).r == v4.r,
        vec3to4_spec(vec4to3_spec(v4)).th == v4.th,
        vec3to4_spec(vec4to3_spec(v4)).ph == v4.ph,
{
}

/// A tangent vector `(v_r, v_theta, v_phi)` in the local orthonormal
/// spherical basis at a point with angles `theta, phi`, re-expressed in
/// Cartesian coordinates: `v_r*rhat + v_theta*thetahat + v_phi*phihat`,
/// with `rhat = (st*cp, st*sp, ct)`, `thetahat = (ct*cp, ct*sp, -st)`,
/// `phihat = (-sp, cp, 0)`. The caller supplies the four trigonometric
/// values `st, ct, sp, cp`.
pub open spec fn sph2cart_at_spec(v: Vec3, st: int, ct: int, sp: int, cp: int) -> Option<
    (int, int, int),
> {
    let vr: Option<int> = Some(v.x as int);
    let vth: Option<int> = Some(v.y as int);
    let vph: Option<int> = Some(v.z as int);
    let x = csub(
        cadd(cmul(vr, cmul(Some(st), Some(cp))), cmul(vth, cmul(Some(ct), Some(cp)))),
        cmul(vph, Some(sp)),
    );
    let y = cadd(
        cadd(cmul(vr, cmul(Some(st), Some(sp))), cmul(vth, cmul(Some(ct), Some(sp)))),
        cmul(vph, Some(cp)),
    );
    let z = csub(cmul(vr, Some(ct)), cmul(vth, Some(st)));
    crate::linalg::triple(x, y, z)
}

/// Convert a direction from the local spherical basis back to Cartesian.
pub fn sph2cart_at(v: &Vec3, st: i64, ct: i64, sp: i64, cp: i64) -> (res: Option<Vec3>)
    ensures
        crate::linalg::opt_v3(res) == sph2cart_at_spec(*v, st as int, ct as int, sp as int, cp as int),
{
    let stcp: i64 = match fmul(st, cp) { Some(w) => w, None => return None };
    let ctcp: i64 = match fmul(ct, cp) { Some(w) => w, None => return None };
    let stsp: i64 = match fmul(st, sp) { Some(w) => w, None => return None };
    let ctsp: i64 = match fmul(ct, sp) { Some(w) => w, None => return None };
    let xa: i64 = match fmul(v.x, stcp) { Some(w) => w, None => return None };
    let xb: i64 = match fmul(v.y, ctcp) { Some(w) => w, None => return None };
    let xc: i64 = match fmul(v.z, sp) { Some(w) => w, None => return None };
    let xs: i64 = match fadd(xa, xb) { Some(w) => w, None => return None };
    let x: i64 = match fsub(xs, xc) { Some(w) => w, None => return None };
    let ya: i64 = match fmul(v.x, stsp) { Some(w) => w, None => return None };
    let yb: i64 = match fmul(v.y, ctsp) { Some(w) => w, None => return None };
    let yc: i64 = match fmul(v.z, cp) { Some(w) => w, None => return None };
    let ys: i64 = match fadd(ya, yb) { Some(w) => w, None => return None };
    let y: i64 = match fadd(ys, yc) { Some(w) => w, None => return None };
    let za: i64 = match fmul(v.x, ct) { Some(w) => w, None => return None };
    let zb: i64 = match fmul(v.y, st) { Some(w) => w, None => return None };
    let z: i64 = match fsub(za, zb) { Some(w) => w, None => return None };
    Some(Vec3 { x, y, z })
}

/// Spherical `(r, theta, phi)` to Cartesian, given the trigonometric
/// values of the two angles: `(r*st*cp, r*st*sp, r*ct)`.
pub open spec fn sph2cart_spec(r: int, st: int, ct: int, sp: int, cp: int) -> Option<
    (int, int, int),
> {
    crate::linalg::triple(
        cmul(cmul(Some(r), Some(st)), Some(cp)),
        cmul(cmul(Some(r), Some(st)), Some(sp)),
        cmul(Some(r), Some(ct)),
    )
}

/// Convert a spherical point to Cartesian coordinates.
pub fn sph2cart(r: i64, st: i64, ct: i64, sp: i64, cp: i64) -> (res: Option<Vec3>)
    ensures
        crate::linalg::opt_v3(res) == sph2cart_spec(
            r as int,
            st as int,
            ct as int,
            sp as int,
            cp as int,
        ),
{
    let rst: i64 = match fmul(r, st) { Some(w) => w, None => return None };
    let x: i64 = match fmul(rst, cp) { Some(w) => w, None => return None };
    let y: i64 = match fmul(rst, sp) { Some(w) => w, None => return None };
    let z: i64 = match fmul(r, ct) { Some(w) => w, None => return None };
    Some(Vec3 { x, y, z })
}

/// The reverse of `sph2cart_at_spec`: a Cartesian tangent vector expressed
/// in the local orthonormal spherical basis, by dot products against
/// `rhat`, `thetahat` and `phihat`.
pub open spec fn cart2sph_at_spec(v: Vec3, st: int, ct: int, sp: int, cp: int) -> Option<
    (int, int, int),
> {
    let vx: Option<int> = Some(v.x as int);
    let vy: Option<int> = Some(v.y as int);
    let vz: Option<int> = Some(v.z as int);
    let vr = cadd(
        cadd(cmul(vx, cmul(Some(st), Some(cp))), cmul(vy, cmul(Some(st), Some(sp)))),
        cmul(vz, Some(ct)),
    );
    let vth = csub(
        cadd(cmul(vx, cmul(Some(ct), Some(cp))), cmul(vy, cmul(Some(ct), Some(sp)))),
        cmul(vz, Some(st)),
    );
    let vph = csub(cmul(vy, Some(cp)), cmul(vx, Some(sp)));
    crate::linalg::triple(vr, vth, vph)
}

/// Express a direction in the local spherical basis at a point with the
/// given angle trigonometry.
pub fn cart2sph_at(v: &Vec3, st: i64, ct: i64, sp: i64, cp: i64) -> (res: Option<Vec3>)
    ensures
        crate::linalg::opt_v3(res) == cart2sph_at_spec(
            *v,
            st as int,
            ct as int,
            sp as int,
            cp as int,
        ),
{
    let stcp: i64 = match fmul(st, cp) { Some(w) => w, None => return None };
    let stsp: i64 = match fmul(st, sp) { Some(w) => w, None => return None };
    let ctcp: i64 = match fmul(ct, cp) { Some(w) => w, None => return None };
    let ctsp: i64 = match fmul(ct, sp) { Some(w) => w, None => return None };
    let ra: i64 = match fmul(v.x, stcp) { Some(w) => w, None => return None };
    let rb: i64 = match fmul(v.y, stsp) { Some(w) => w, None => return None };
    let rc: i64 = match fmul(v.z, ct) { Some(w) => w, None => return None };
    let rs: i64 = match fadd(ra, rb) { Some(w) => w, None => return None };
    let vr: i64 = match fadd(rs, rc) { Some(w) => w, None => return None };
    let ta: i64 = match fmul(v.x, ctcp) { Some(w) => w, None => return None };
    let tb: i64 = match fmul(v.y, ctsp) { Some(w) => w, None => return None };
    let tc: i64 = match fmul(v.z, st) { Some(w) => w, None => return None };
    let ts: i64 = match fadd(ta, tb) { Some(w) => w, None => return None };
    let vth: i64 = match fsub(ts, tc) { Some(w) => w, None => return None };
    let pa: i64 = match fmul(v.y, cp) { Some(w) => w, None => return None };
    let pb: i64 = match fmul(v.x, sp) { Some(w) => w, None => return None };
    let vph: i64 = match fsub(pa, pb) { Some(w) => w, None => return None };
    Some(Vec3 { x: vr, y: vth, z: vph })
}

/// What `time_norm` computes: the spatial part of `v` is scaled to unit
/// Euclidean length and then divided once more by a coordinate-weighted
/// magnitude, and the time component is solved from the null condition
/// `g_{mu nu} v^mu v^nu == 0`, i.e.
/// `v^t = sqrt((g_rr v_r^2 + g_th_th v_th^2 + g_ph_ph v_ph^2) / (-g_tt))`.
/// `None` when the spatial part vanishes, the point is on or inside the
/// horizon (`-g_tt <= 0` makes the radicand negative), or a value leaves
/// the representable range.
pub open spec fn time_norm_spec(r: int, s: int, v: Vec4) -> Option<(int, int, int, int)> {
    let vt: Option<int> = Some(v.t as int);
    let vr: Option<int> = Some(v.r as int);
    let vth: Option<int> = Some(v.th as int);
    let vph: Option<int> = Some(v.ph as int);
    let n3: Option<int> = csqrt(cadd(cadd(cmul(vr, vr), cmul(vth, vth)), cmul(vph, vph)));
    let q1: Option<int> = cmul(vr, Some(r));
    let q2: Option<int> = cmul(cmul(vth, Some(r)), Some(s));
    let m: Option<int> = csqrt(cadd(cadd(cmul(vt, vt), cmul(q1, q1)), cmul(q2, q2)));
    let w1: Option<int> = cdiv(cdiv(vr, n3), m);
    let w2: Option<int> = cdiv(cdiv(vth, n3), m);
    let w3: Option<int> = cdiv(cdiv(vph, n3), m);
    let num: Option<int> = cadd(
        cadd(
            cmul(g_spec(1, 1, r, s), cmul(w1, w1)),
            cmul(g_spec(2, 2, r, s), cmul(w2, w2)),
        ),
        cmul(g_spec(3, 3, r, s), cmul(w3, w3)),
    );
    let wt: Option<int> = csqrt(cdiv(num, cneg(g_spec(0, 0, r, s))));
    quad(wt, w1, w2, w3)
}

/// Rescale a 4-velocity and solve its time component so that it is null.
pub fn time_norm(r: i64, s: i64, v: &Vec4) -> (res: Option<Vec4>)
    ensures
        opt_v4(res) == time_norm_spec(r as int, s as int, *v),
{
    let prr: i64 = match fmul(v.r, v.r) { Some(w) => w, None => return None };
    let pthth: i64 = match fmul(v.th, v.th) { Some(w) => w, None => return None };
    let pphph: i64 = match fmul(v.ph, v.ph) { Some(w) => w, None => return None };
    let sp: i64 = match fadd(prr, pthth) { Some(w) => w, None => return None };
    let sp2: i64 = match fadd(sp, pphph) { Some(w) => w, None => return None };
    let n3: i64 = match fsqrt(sp2) { Some(w) => w, None => return None };

    let q1: i64 = match fmul(v.r, r) { Some(w) => w, None => return None };
    let q2a: i64 = match fmul(v.th, r) { Some(w) => w, None => return None };
    let q2: i64 = match fmul(q2a, s) { Some(w) => w, None => return None };
    let tt: i64 = match fmul(v.t, v.t) { Some(w) => w, None => return None };
    let q1q1: i64 = match fmul(q1, q1) { Some(w) => w, None => return None };
    let q2q2: i64 = match fmul(q2, q2) { Some(w) => w, None => return None };
    let ms: i64 = match fadd(tt, q1q1) { Some(w) => w, None => return None };
    let ms2: i64 = match fadd(ms, q2q2) { Some(w) => w, None => return None };
    let m: i64 = match fsqrt(ms2) { Some(w) => w, None => return None };

    let u1: i64 = match fdiv(v.r, n3) { Some(w) => w, None => return None };
    let u2: i64 = match fdiv(v.th, n3) { Some(w) => w, None => return None };
    let u3: i64 = match fdiv(v.ph, n3) { Some(w) => w, None => return None };
    let w1: i64 = match fdiv(u1, m) { Some(w) => w, None => return None };
    let w2: i64 = match fdiv(u2, m) { Some(w) => w, None => return None };
    let w3: i64 = match fdiv(u3, m) { Some(w) => w, None => return None };

    let g11: i64 = match g(1, 1, r, s) { Some(w) => w, None => return None };
    let g22: i64 = match g(2, 2, r, s) { Some(w) => w, None => return None };
    let g33: i64 = match g(3, 3, r, s) { Some(w) => w, None => return None };
    let g00: i64 = match g(0, 0, r, s) { Some(w) => w, None => return None };
    let w1w1: i64 = match fmul(w1, w1) { Some(w) => w, None => return None };
    let w2w2: i64 = match fmul(w2, w2) { Some(w) => w, None => return None };
    let w3w3: i64 = match fmul(w3, w3) { Some(w) => w, None => return None };
    let t1: i64 = match fmul(g11, w1w1) { Some(w) => w, None => return None };
    let t2: i64 = match fmul(g22, w2w2) { Some(w) => w, None => return None };
    let t3: i64 = match fmul(g33, w3w3) { Some(w) => w, None => return None };
    let na: i64 = match fadd(t1, t2) { Some(w) => w, None => return None };
    let num: i64 = match fadd(na, t3) { Some(w) => w, None => return None };
    let ng00: i64 = match fneg(g00) { Some(w) => w, None => return None };
    let rad: i64 = match fdiv(num, ng00) { Some(w) => w, None => return None };
    let wt: i64 = match fsqrt(rad) { Some(w) => w, None => return None };
    Some(Vec4 { t: wt, r: w1, th: w2, ph: w3 })
}

} // verus!
