//! Relativistic ray tracing: one explicit first-order step of the null
//! geodesic equation per call.
//!
//! The integrator is a state machine. Each step looks, in order, for an
//! escape (the radial velocity is outward and the direction has stopped
//! curving), a capture (the radius is inside 1.01), a horizon-adjacent
//! metric (`g_tt` undefined or vanishing), then advances the velocity by
//! the geodesic equation, re-normalizes it to null, and advances the
//! position. Checked arithmetic that leaves the representable range plays
//! the role NaN plays in a floating-point integrator: the ray is reported
//! divergent and rendering of that pixel stops.
//!
//! The sines and cosines of the current angles are handed in by the caller
//! at every step; everything else is fixed-point and exact against
//! `step_spec`.

use vstd::prelude::*;
use crate::fixed::{SCALE, iabs, cadd, cmul, csub, cneg, fadd, fmul, fsub, fneg};
use crate::linalg::{Vec3, Vec4, v3_of, v4_of, quad, triple, opt_v3, neg3};
use crate::physics::{g_spec, gamma_spec, g, gamma, time_norm, time_norm_spec, vec4to3,
    vec4to3_spec, sph2cart_at, sph2cart_at_spec, two};
use crate::camera::{Camera, camera_wf, camera_new_spec, canvas_x, canvas_y};
use crate::euclid::orbit_spec;

verus! {

/// Integration step: 0.001.
pub const STEP_DT: i64 = 1_000;

/// Escape threshold on the squared direction change: 0.01, i.e. 0.1 squared.
pub const ESCAPE_EPS2: i64 = 10_000;

/// Capture radius: 1.01, just outside the horizon.
pub const CAPTURE_RADIUS: i64 = 1_010_000;

/// Vanishing-metric threshold on `|g_tt|`: 0.00001.
pub const GTT_EPS: i64 = 10;

#[derive(Clone, Copy, PartialEq, Eq, Structural, Debug)]
pub struct GeodesicState {
    /// Current 4-position `(t, r, theta, phi)`.
    pub pos: Vec4,
    /// Current null 4-velocity.
    pub vel: Vec4,
    /// The previous step's spatial direction in Cartesian coordinates,
    /// against which the escape test measures curvature.
    pub last_cart: Vec3,
}

#[derive(Clone, Copy, PartialEq, Eq, Structural, Debug)]
pub enum StepOutcome {
    /// The ray continues; here is the next state.
    Advance { next: GeodesicState },
    /// The path has straightened while moving outward: the ray leaves with
    /// this Cartesian direction, to be looked up in the sky.
    Escape { dir: Vec3 },
    /// The ray fell inside the capture radius: solid black.
    Capture,
    /// A value left the representable range: diagnostic red.
    Diverge,
    /// `g_tt` could not be evaluated: diagnostic blue.
    MetricUndefined,
    /// `|g_tt|` fell under the stepping threshold: diagnostic magenta.
    MetricVanishing,
}

pub open spec fn dt_k() -> Option<int> {
    Some(STEP_DT as int)
}

/// Squared Euclidean distance of two Cartesian directions, checked.
pub open spec fn dist2_spec(a: Vec3, b: Vec3) -> Option<int> {
    let dx = csub(Some(a.x as int), Some(b.x as int));
    let dy = csub(Some(a.y as int), Some(b.y as int));
    let dz = csub(Some(a.z as int), Some(b.z as int));
    cadd(cadd(cmul(dx, dx), cmul(dy, dy)), cmul(dz, dz))
}

/// The step after the escape test: capture, metric guards, velocity update
/// by the geodesic equation, null re-normalization, and the position
/// update. In the acceleration only the nonzero connection components
/// appear, each symmetric pair counted twice;
/// `physics::lemma_christoffel_support` proves that every omitted
/// component is zero. `cart` is the current direction in Cartesian form,
/// kept as the next state's reference direction.
pub open spec fn step_core_spec(st: GeodesicState, cart: Vec3, sth: int, cth: int) -> StepOutcome {
    if st.pos.r < CAPTURE_RADIUS {
        StepOutcome::Capture
    } else {
        let ri = st.pos.r as int;
        let vt = Some(st.vel.t as int);
        let vr = Some(st.vel.r as int);
        let vth = Some(st.vel.th as int);
        let vph = Some(st.vel.ph as int);
        let a_t = cmul(two(), cmul(gamma_spec(0, 0, 1, ri, sth, cth), cmul(vt, vr)));
        let a_r = cadd(
            cadd(
                cadd(
                    cmul(gamma_spec(1, 0, 0, ri, sth, cth), cmul(vt, vt)),
                    cmul(gamma_spec(1, 1, 1, ri, sth, cth), cmul(vr, vr)),
                ),
                cmul(gamma_spec(1, 2, 2, ri, sth, cth), cmul(vth, vth)),
            ),
            cmul(gamma_spec(1, 3, 3, ri, sth, cth), cmul(vph, vph)),
        );
        let a_th = cadd(
            cmul(two(), cmul(gamma_spec(2, 1, 2, ri, sth, cth), cmul(vr, vth))),
            cmul(gamma_spec(2, 3, 3, ri, sth, cth), cmul(vph, vph)),
        );
        let a_ph = cadd(
            cmul(two(), cmul(gamma_spec(3, 1, 3, ri, sth, cth), cmul(vr, vph))),
            cmul(two(), cmul(gamma_spec(3, 2, 3, ri, sth, cth), cmul(vth, vph))),
        );
        let nv = quad(
            csub(vt, cmul(a_t, dt_k())),
            csub(vr, cmul(a_r, dt_k())),
            csub(vth, cmul(a_th, dt_k())),
            csub(vph, cmul(a_ph, dt_k())),
        );
        match g_spec(0, 0, ri, sth) {
            None => StepOutcome::MetricUndefined,
            Some(g00) => if iabs(g00) < GTT_EPS {
                StepOutcome::MetricVanishing
            } else {
                match v4_of(nv) {
                    None => StepOutcome::Diverge,
                    Some(w) => match v4_of(time_norm_spec(ri, sth, w)) {
                        None => StepOutcome::Diverge,
                        Some(u) => {
                            let np = quad(
                                cadd(Some(st.pos.t as int), cmul(Some(u.t as int), dt_k())),
                                cadd(Some(st.pos.r as int), cmul(Some(u.r as int), dt_k())),
                                cadd(Some(st.pos.th as int), cmul(Some(u.th as int), dt_k())),
                                cadd(Some(st.pos.ph as int), cmul(Some(u.ph as int), dt_k())),
                            );
                            match v4_of(np) {
                                None => StepOutcome::Diverge,
                                Some(p2) => StepOutcome::Advance {
                                    next: GeodesicState { pos: p2, vel: u, last_cart: cart },
                                },
                            }
                        },
                    },
                }
            },
        }
    }
}

/// One full step, escape test included.
pub open spec fn step_spec(st: GeodesicState, sth: int, cth: int, sph: int, cph: int)
    -> StepOutcome {
    match v3_of(sph2cart_at_spec(vec4to3_spec(st.vel), sth, cth, sph, cph)) {
        None => StepOutcome::Diverge,
        Some(cart) => if st.vel.r > 0 {
            match dist2_spec(cart, st.last_cart) {
                None => StepOutcome::Diverge,
                Some(d2) => if d2 > ESCAPE_EPS2 {
                    StepOutcome::Escape { dir: cart }
                } else {
                    step_core_spec(st, cart, sth, cth)
                },
            }
        } else {
            step_core_spec(st, cart, sth, cth)
        },
    }
}

/// Advance the integrator by one step of `STEP_DT`, given the sines and
/// cosines of the current `theta` and `phi`.
pub fn geodesic_step(st: &GeodesicState, sth: i64, cth: i64, sph: i64, cph: i64) -> (res:
    StepOutcome)
    ensures
        res == step_spec(*st, sth as int, cth as int, sph as int, cph as int),
{
    let spatial: Vec3 = vec4to3(&st.vel);
    let cart: Vec3 = match sph2cart_at(&spatial, sth, cth, sph, cph) {
        Some(v) => v,
        None => return StepOutcome::Diverge,
    };
    if st.vel.r > 0 {
        let ddx: i64 = match fsub(cart.x, st.last_cart.x) { Some(v) => v, None => return StepOutcome::Diverge };
        let ddy: i64 = match fsub(cart.y, st.last_cart.y) { Some(v) => v, None => return StepOutcome::Diverge };
        let ddz: i64 = match fsub(cart.z, st.last_cart.z) { Some(v) => v, None => return StepOutcome::Diverge };
        let qx: i64 = match fmul(ddx, ddx) { Some(v) => v, None => return StepOutcome::Diverge };
        let qy: i64 = match fmul(ddy, ddy) { Some(v) => v, None => return StepOutcome::Diverge };
        let qz: i64 = match fmul(ddz, ddz) { Some(v) => v, None => return StepOutcome::Diverge };
        let qxy: i64 = match fadd(qx, qy) { Some(v) => v, None => return StepOutcome::Diverge };
        let d2: i64 = match fadd(qxy, qz) { Some(v) => v, None => return StepOutcome::Diverge };
        if d2 > ESCAPE_EPS2 {
            return StepOutcome::Escape { dir: cart };
        }
    }
    geodesic_step_core(st, &cart, sth, cth)
}

/// The body of the step once escape is ruled out.
fn geodesic_step_core(st: &GeodesicState, cart: &Vec3, sth: i64, cth: i64) -> (res: StepOutcome)
    ensures
        res == step_core_spec(*st, *cart, sth as int, cth as int),
{
    if st.pos.r < CAPTURE_RADIUS {
        return StepOutcome::Capture;
    }
    let r: i64 = st.pos.r;
    let g00: i64 = match g(0, 0, r, sth) {
        Some(v) => v,
        None => return StepOutcome::MetricUndefined,
    };
    if -GTT_EPS < g00 && g00 < GTT_EPS {
        return StepOutcome::MetricVanishing;
    }
    let two_fix: i64 = 2 * SCALE;

    let g001: i64 = match gamma(0, 0, 1, r, sth, cth) { Some(v) => v, None => return StepOutcome::Diverge };
    let g100: i64 = match gamma(1, 0, 0, r, sth, cth) { Some(v) => v, None => return StepOutcome::Diverge };
    let g111: i64 = match gamma(1, 1, 1, r, sth, cth) { Some(v) => v, None => return StepOutcome::Diverge };
    let g122: i64 = match gamma(1, 2, 2, r, sth, cth) { Some(v) => v, None => return StepOutcome::Diverge };
    let g133: i64 = match gamma(1, 3, 3, r, sth, cth) { Some(v) => v, None => return StepOutcome::Diverge };
    let g212: i64 = match gamma(2, 1, 2, r, sth, cth) { Some(v) => v, None => return StepOutcome::Diverge };
    let g233: i64 = match gamma(2, 3, 3, r, sth, cth) { Some(v) => v, None => return StepOutcome::Diverge };
    let g313: i64 = match gamma(3, 1, 3, r, sth, cth) { Some(v) => v, None => return StepOutcome::Diverge };
    let g323: i64 = match gamma(3, 2, 3, r, sth, cth) { Some(v) => v, None => return StepOutcome::Diverge };

    let vtvr: i64 = match fmul(st.vel.t, st.vel.r) { Some(v) => v, None => return StepOutcome::Diverge };
    let at0: i64 = match fmul(g001, vtvr) { Some(v) => v, None => return StepOutcome::Diverge };
    let a_t: i64 = match fmul(two_fix, at0) { Some(v) => v, None => return StepOutcome::Diverge };

    let vtvt: i64 = match fmul(st.vel.t, st.vel.t) { Some(v) => v, None => return StepOutcome::Diverge };
    let vrvr: i64 = match fmul(st.vel.r, st.vel.r) { Some(v) => v, None => return StepOutcome::Diverge };
    let vthvth: i64 = match fmul(st.vel.th, st.vel.th) { Some(v) => v, None => return StepOutcome::Diverge };
    let vphvph: i64 = match fmul(st.vel.ph, st.vel.ph) { Some(v) => v, None => return StepOutcome::Diverge };
    let ar0: i64 = match fmul(g100, vtvt) { Some(v) => v, None => return StepOutcome::Diverge };
    let ar1: i64 = match fmul(g111, vrvr) { Some(v) => v, None => return StepOutcome::Diverge };
    let ar2: i64 = match fmul(g122, vthvth) { Some(v) => v, None => return StepOutcome::Diverge };
    let ar3: i64 = match fmul(g133, vphvph) { Some(v) => v, None => return StepOutcome::Diverge };
    let ar01: i64 = match fadd(ar0, ar1) { Some(v) => v, None => return StepOutcome::Diverge };
    let ar012: i64 = match fadd(ar01, ar2) { Some(v) => v, None => return StepOutcome::Diverge };
    let a_r: i64 = match fadd(ar012, ar3) { Some(v) => v, None => return StepOutcome::Diverge };

    let vrvth: i64 = match fmul(st.vel.r, st.vel.th) { Some(v) => v, None => return StepOutcome::Diverge };
    let ath0: i64 = match fmul(g212, vrvth) { Some(v) => v, None => return StepOutcome::Diverge };
    let ath1: i64 = match fmul(two_fix, ath0) { Some(v) => v, None => return StepOutcome::Diverge };
    let ath2: i64 = match fmul(g233, vphvph) { Some(v) => v, None => return StepOutcome::Diverge };
    let a_th: i64 = match fadd(ath1, ath2) { Some(v) => v, None => return StepOutcome::Diverge };

    let vrvph: i64 = match fmul(st.vel.r, st.vel.ph) { Some(v) => v, None => return StepOutcome::Diverge };
    let aph0: i64 = match fmul(g313, vrvph) { Some(v) => v, None => return StepOutcome::Diverge };
    let aph1: i64 = match fmul(two_fix, aph0) { Some(v) => v, None => return StepOutcome::Diverge };
    let vthvph: i64 = match fmul(st.vel.th, st.vel.ph) { Some(v) => v, None => return StepOutcome::Diverge };
    let aph2: i64 = match fmul(g323, vthvph) { Some(v) => v, None => return StepOutcome::Diverge };
    let aph3: i64 = match fmul(two_fix, aph2) { Some(v) => v, None => return StepOutcome::Diverge };
    let a_ph: i64 = match fadd(aph1, aph3) { Some(v) => v, None => return StepOutcome::Diverge };

    let dt0: i64 = match fmul(a_t, STEP_DT) { Some(v) => v, None => return StepOutcome::Diverge };
    let dt1: i64 = match fmul(a_r, STEP_DT) { Some(v) => v, None => return StepOutcome::Diverge };
    let dt2: i64 = match fmul(a_th, STEP_DT) { Some(v) => v, None => return StepOutcome::Diverge };
    let dt3: i64 = match fmul(a_ph, STEP_DT) { Some(v) => v, None => return StepOutcome::Diverge };
    let w0: i64 = match fsub(st.vel.t, dt0) { Some(v) => v, None => return StepOutcome::Diverge };
    let w1: i64 = match fsub(st.vel.r, dt1) { Some(v) => v, None => return StepOutcome::Diverge };
    let w2: i64 = match fsub(st.vel.th, dt2) { Some(v) => v, None => return StepOutcome::Diverge };
    let w3: i64 = match fsub(st.vel.ph, dt3) { Some(v) => v, None => return StepOutcome::Diverge };
    let w = Vec4 { t: w0, r: w1, th: w2, ph: w3 };

    let u: Vec4 = match time_norm(r, sth, &w) {
        Some(v) => v,
        None => return StepOutcome::Diverge,
    };

    let pu0: i64 = match fmul(u.t, STEP_DT) { Some(v) => v, None => return StepOutcome::Diverge };
    let pu1: i64 = match fmul(u.r, STEP_DT) { Some(v) => v, None => return StepOutcome::Diverge };
    let pu2: i64 = match fmul(u.th, STEP_DT) { Some(v) => v, None => return StepOutcome::Diverge };
    let pu3: i64 = match fmul(u.ph, STEP_DT) { Some(v) => v, None => return StepOutcome::Diverge };
    let p0: i64 = match fadd(st.pos.t, pu0) { Some(v) => v, None => return StepOutcome::Diverge };
    let p1: i64 = match fadd(st.pos.r, pu1) { Some(v) => v, None => return StepOutcome::Diverge };
    let p2: i64 = match fadd(st.pos.th, pu2) { Some(v) => v, None => return StepOutcome::Diverge };
    let p3: i64 = match fadd(st.pos.ph, pu3) { Some(v) => v, None => return StepOutcome::Diverge };
    let np = Vec4 { t: p0, r: p1, th: p2, ph: p3 };

    StepOutcome::Advance { next: GeodesicState { pos: np, vel: u, last_cart: *cart } }
}

/// The initial state: the 4-velocity is normalized to null, and the
/// reference direction is the start direction with its radial component
/// reflected, so an already-outward ray registers its first comparison as
/// a large change.
pub open spec fn init_spec(pos: Vec4, vel: Vec4, sth: int, cth: int, sph: int, cph: int)
    -> Option<GeodesicState> {
    match v4_of(time_norm_spec(pos.r as int, sth, vel)) {
        None => None,
        Some(w) => match v3_of(
            triple(cneg(Some(w.r as int)), Some(w.th as int), Some(w.ph as int)),
        ) {
            None => None,
            Some(fl) => match v3_of(sph2cart_at_spec(fl, sth, cth, sph, cph)) {
                None => None,
                Some(cd) => Some(GeodesicState { pos, vel: w, last_cart: cd }),
            },
        },
    }
}

/// Build the integrator state for a ray starting at 4-position `pos` with
/// (unnormalized) 4-velocity `vel`.
pub fn geodesic_init(pos: &Vec4, vel: &Vec4, sth: i64, cth: i64, sph: i64, cph: i64) -> (res:
    Option<GeodesicState>)
    ensures
        match res {
            Some(st) => init_spec(*pos, *vel, sth as int, cth as int, sph as int, cph as int)
                == Some(st),
            None => init_spec(*pos, *vel, sth as int, cth as int, sph as int, cph as int) is None,
        },
{
    let w: Vec4 = match time_norm(pos.r, sth, vel) { Some(v) => v, None => return None };
    let negr: i64 = match fneg(w.r) { Some(v) => v, None => return None };
    let fl = Vec3 { x: negr, y: w.th, z: w.ph };
    let cd: Vec3 = match sph2cart_at(&fl, sth, cth, sph, cph) { Some(v) => v, None => return None };
    Some(GeodesicState { pos: *pos, vel: w, last_cart: cd })
}

/// Relativistic environment: the same camera frame, in front of the
/// integrator.
#[derive(Clone, Copy, PartialEq, Eq, Structural, Debug)]
pub struct SchwarzschildRaytracing {
    pub cam: Camera,
}

impl SchwarzschildRaytracing {
    /// A camera built from explicit frame vectors, as for the flat-space
    /// environment.
    pub fn new(pos: Vec3, dir: Vec3, up: Vec3, near: i64, ys: i64, aspect: i64) -> (res: Option<
        SchwarzschildRaytracing,
    >)
        ensures
            match res {
                Some(e) => camera_new_spec(pos, dir, up, near, ys, aspect) == Some(e.cam)
                    && camera_wf(e.cam),
                None => camera_new_spec(pos, dir, up, near, ys, aspect) is None,
            },
    {
        match Camera::new(pos, dir, up, near, ys, aspect) {
            Some(cam) => Some(SchwarzschildRaytracing { cam }),
            None => None,
        }
    }

    /// The orbiting camera of `orbit_spec`.
    pub fn new_orbiting(pos: Vec3, aspect: i64) -> (res: Option<SchwarzschildRaytracing>)
        ensures
            match res {
                Some(e) => orbit_spec(pos, aspect) == Some(e.cam) && camera_wf(e.cam),
                None => orbit_spec(pos, aspect) is None,
            },
    {
        let d: Vec3 = match neg3(&pos) { Some(v) => v, None => return None };
        let zax = Vec3 { x: 0, y: 0, z: SCALE };
        match Camera::new(pos, d, zax, 100_000, 100_000, aspect) {
            Some(cam) => Some(SchwarzschildRaytracing { cam }),
            None => None,
        }
    }

    /// The orbiting camera at spherical position `(r, theta, phi)`; the
    /// caller passes the sines and cosines of the two angles.
    pub fn new_orbiting_spherical(r: i64, st: i64, ct: i64, sp: i64, cp: i64, aspect: i64) -> (res:
        Option<SchwarzschildRaytracing>)
        ensures
            match res {
                Some(e) => crate::euclid::orbit_spherical_spec(
                    r as int,
                    st as int,
                    ct as int,
                    sp as int,
                    cp as int,
                    aspect,
                ) == Some(e.cam) && camera_wf(e.cam),
                None => crate::euclid::orbit_spherical_spec(
                    r as int,
                    st as int,
                    ct as int,
                    sp as int,
                    cp as int,
                    aspect,
                ) is None,
            },
    {
        let pos: Vec3 = match crate::physics::sph2cart(r, st, ct, sp, cp) {
            Some(v) => v,
            None => return None,
        };
        SchwarzschildRaytracing::new_orbiting(pos, aspect)
    }

    /// Position, viewing direction and up vector.
    pub fn get_data(&self) -> (res: (Vec3, Vec3, Vec3))
        ensures
            res == (self.cam.pos, self.cam.forward, self.cam.up),
    {
        (self.cam.pos, self.cam.forward, self.cam.up)
    }

    /// Replace the camera frame; unchanged, with `false`, when the new
    /// frame degenerates.
    pub fn set_data(&mut self, pos: Vec3, dir: Vec3, up: Vec3) -> (ok: bool)
        ensures
            match camera_new_spec(
                pos,
                dir,
                up,
                old(self).cam.near,
                old(self).cam.ys,
                old(self).cam.aspect,
            ) {
                Some(c) => ok && final(self).cam == c,
                None => !ok && *final(self) == *old(self),
            },
    {
        self.cam.set_data(pos, dir, up)
    }

    /// The world-space direction of the ray through pixel `(x, y)`; the
    /// caller converts it to the spherical frame and drives the integrator.
    pub fn pixel_ray(&self, x: u32, y: u32, w: u32, h: u32) -> (res: Option<Vec3>)
        requires
            camera_wf(self.cam),
            0 < w,
            0 < h,
            x < w,
            y < h,
        ensures
            opt_v3(res) == self.cam.pixel_dir_spec(
                crate::fixed::tdiv((2 * (x as int) + 1 - (w as int)) * (SCALE as int), w as int),
                crate::fixed::tdiv(((h as int) - 2 * (y as int) - 1) * (SCALE as int), h as int),
            ),
    {
        let cx: i64 = canvas_x(x, w);
        let cy: i64 = canvas_y(y, h);
        self.cam.pixel_dir(cx, cy)
    }
}

} // verus!
