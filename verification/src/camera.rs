//! Camera frame: from a pixel to a world-space ray direction.
//!
//! A camera holds its position, an orthonormalized forward/up pair, the
//! near-plane distance, the near-plane half-extent `ys` (the caller passes
//! `near * tan(fovy / 2)`, which for the default right-angle field of view
//! equals `near` exactly), and the aspect ratio. A pixel maps first to
//! canvas coordinates in `[-1, 1]`, then to the direction
//! `near*forward + up*(cy*ys/2) + (forward x up)*(cx*ys*aspect/2)`,
//! normalized.

use vstd::prelude::*;
use crate::fixed::{SCALE, tdiv, cmul, lemma_mul_sign_abs};
use crate::linalg::{Vec3, RAW_BOUND, bounded3, check_bounded3, v3_of, opt_v3, scale3_spec,
    add3_spec, cross3_spec, normalize3_spec, scale3, add3, cross3, normalize3};

verus! {

#[derive(Clone, Copy, PartialEq, Eq, Structural, Debug)]
pub struct Camera {
    pub pos: Vec3,
    pub forward: Vec3,
    pub up: Vec3,
    pub near: i64,
    pub ys: i64,
    pub aspect: i64,
}

/// Bounds under which every derived ray direction stays representable.
pub open spec fn camera_wf(c: Camera) -> bool {
    &&& bounded3(c.pos, RAW_BOUND as int)
    &&& bounded3(c.forward, 2 * (SCALE as int))
    &&& bounded3(c.up, 2 * (SCALE as int))
    &&& 0 < c.near <= SCALE
    &&& 0 <= c.ys <= 4 * (SCALE as int)
    &&& 0 < c.aspect <= 100 * (SCALE as int)
}

/// What the constructor builds: forward is normalized, up is the
/// normalization of `(forward x up) x forward`, and the result is kept only
/// when it satisfies the well-formedness bounds.
pub open spec fn camera_new_spec(
    pos: Vec3,
    forward: Vec3,
    up: Vec3,
    near: i64,
    ys: i64,
    aspect: i64,
) -> Option<Camera> {
    match v3_of(normalize3_spec(forward)) {
        Some(f) => match v3_of(cross3_spec(forward, up)) {
            Some(s) => match v3_of(cross3_spec(s, forward)) {
                Some(w) => match v3_of(normalize3_spec(w)) {
                    Some(u) => {
                        let c = Camera { pos, forward: f, up: u, near, ys, aspect };
                        if camera_wf(c) {
                            Some(c)
                        } else {
                            None
                        }
                    },
                    None => None,
                },
                None => None,
            },
            None => None,
        },
        None => None,
    }
}

impl Camera {
    /// Build a camera, re-orthogonalizing `up` against the viewing
    /// direction; `None` when a vector degenerates or a bound is exceeded.
    pub fn new(pos: Vec3, forward: Vec3, up: Vec3, near: i64, ys: i64, aspect: i64) -> (res:
        Option<Camera>)
        ensures
            res == camera_new_spec(pos, forward, up, near, ys, aspect),
            res matches Some(c) ==> camera_wf(c),
    {
        let f: Vec3 = match normalize3(&forward) { Some(v) => v, None => return None };
        let s: Vec3 = match cross3(&forward, &up) { Some(v) => v, None => return None };
        let w: Vec3 = match cross3(&s, &forward) { Some(v) => v, None => return None };
        let u: Vec3 = match normalize3(&w) { Some(v) => v, None => return None };
        let c = Camera { pos, forward: f, up: u, near, ys, aspect };
        let ok: bool = check_bounded3(&c.pos, RAW_BOUND) && check_bounded3(&c.forward, 2 * SCALE)
            && check_bounded3(&c.up, 2 * SCALE) && 0 < near && near <= SCALE && 0 <= ys && ys <= 4
            * SCALE && 0 < aspect && aspect <= 100 * SCALE;
        if ok {
            Some(c)
        } else {
            None
        }
    }

    /// Camera position.
    pub fn pos(&self) -> (res: Vec3)
        ensures
            res == self.pos,
    {
        self.pos
    }

    /// Viewing direction, unit length up to rounding.
    pub fn dir(&self) -> (res: Vec3)
        ensures
            res == self.forward,
    {
        self.forward
    }

    /// Up vector, orthogonalized against the viewing direction.
    pub fn up(&self) -> (res: Vec3)
        ensures
            res == self.up,
    {
        self.up
    }

    /// Replace the frame vectors, re-orthogonalizing as the constructor
    /// does; on failure the camera is unchanged and `false` comes back.
    pub fn set_data(&mut self, pos: Vec3, dir: Vec3, up: Vec3) -> (ok: bool)
        ensures
            match camera_new_spec(
                pos,
                dir,
                up,
                old(self).near,
                old(self).ys,
                old(self).aspect,
            ) {
                Some(c) => ok && *final(self) == c,
                None => !ok && *final(self) == *old(self),
            },
    {
        match Camera::new(pos, dir, up, self.near, self.ys, self.aspect) {
            Some(c) => {
                *self = c;
                true
            },
            None => false,
        }
    }

    /// Move the camera, keeping its orientation vectors.
    pub fn set_pos(&mut self, pos: Vec3) -> (ok: bool)
        ensures
            match camera_new_spec(
                pos,
                old(self).forward,
                old(self).up,
                old(self).near,
                old(self).ys,
                old(self).aspect,
            ) {
                Some(c) => ok && *final(self) == c,
                None => !ok && *final(self) == *old(self),
            },
    {
        let d = self.forward;
        let u = self.up;
        self.set_data(pos, d, u)
    }

    /// Turn the camera, keeping position and up.
    pub fn set_dir(&mut self, dir: Vec3) -> (ok: bool)
        ensures
            match camera_new_spec(
                old(self).pos,
                dir,
                old(self).up,
                old(self).near,
                old(self).ys,
                old(self).aspect,
            ) {
                Some(c) => ok && *final(self) == c,
                None => !ok && *final(self) == *old(self),
            },
    {
        let p = self.pos;
        let u = self.up;
        self.set_data(p, dir, u)
    }

    /// Replace the up hint, keeping position and direction.
    pub fn set_up(&mut self, up: Vec3) -> (ok: bool)
        ensures
            match camera_new_spec(
                old(self).pos,
                old(self).forward,
                up,
                old(self).near,
                old(self).ys,
                old(self).aspect,
            ) {
                Some(c) => ok && *final(self) == c,
                None => !ok && *final(self) == *old(self),
            },
    {
        let p = self.pos;
        let d = self.forward;
        self.set_data(p, d, up)
    }

    /// The unnormalized ray combination, then normalized.
    pub open spec fn pixel_dir_spec(self, cx: int, cy: int) -> Option<(int, int, int)> {
        let k2 = cmul(cmul(Some(cy), Some(self.ys as int)), Some(500_000));
        let k3 = cmul(cmul(cmul(Some(cx), Some(self.ys as int)), Some(self.aspect as int)), Some(500_000));
        match (k2, k3) {
            (Some(a2), Some(a3)) => match v3_of(scale3_spec(self.forward, self.near as int)) {
                Some(t1) => match v3_of(scale3_spec(self.up, a2)) {
                    Some(t2) => match v3_of(cross3_spec(self.forward, self.up)) {
                        Some(side) => match v3_of(scale3_spec(side, a3)) {
                            Some(t3) => match v3_of(add3_spec(t1, t2)) {
                                Some(t12) => match v3_of(add3_spec(t12, t3)) {
                                    Some(d) => normalize3_spec(d),
                                    None => None,
                                },
                                None => None,
                            },
                            None => None,
                        },
                        None => None,
                    },
                    None => None,
                },
                None => None,
            },
            _ => None,
        }
    }

    /// World-space ray direction for canvas coordinates `(cx, cy)`.
    pub fn pixel_dir(&self, cx: i64, cy: i64) -> (res: Option<Vec3>)
        ensures
            opt_v3(res) == self.pixel_dir_spec(cx as int, cy as int),
    {
        let k2a: i64 = match crate::fixed::fmul(cy, self.ys) { Some(v) => v, None => return None };
        let k2: i64 = match crate::fixed::fmul(k2a, 500_000) { Some(v) => v, None => return None };
        let k3a: i64 = match crate::fixed::fmul(cx, self.ys) { Some(v) => v, None => return None };
        let k3b: i64 = match crate::fixed::fmul(k3a, self.aspect) { Some(v) => v, None => return None };
        let k3: i64 = match crate::fixed::fmul(k3b, 500_000) { Some(v) => v, None => return None };
        let t1: Vec3 = match scale3(&self.forward, self.near) { Some(v) => v, None => return None };
        let t2: Vec3 = match scale3(&self.up, k2) { Some(v) => v, None => return None };
        let side: Vec3 = match cross3(&self.forward, &self.up) { Some(v) => v, None => return None };
        let t3: Vec3 = match scale3(&side, k3) { Some(v) => v, None => return None };
        let t12: Vec3 = match add3(&t1, &t2) { Some(v) => v, None => return None };
        let d: Vec3 = match add3(&t12, &t3) { Some(v) => v, None => return None };
        normalize3(&d)
    }
}

/// Canvas abscissa of pixel column `x` on a screen `w` wide:
/// `((x + 0.5) - w/2) / (w/2)`, exactly `(2x + 1 - w) * SCALE / w`
/// truncated toward zero.
pub fn canvas_x(x: u32, w: u32) -> (r: i64)
    requires
        0 < w,
        x < w,
    ensures
        r as int == tdiv((2 * (x as int) + 1 - (w as int)) * (SCALE as int), w as int),
        -SCALE <= r <= SCALE,
{
    let xx: u64 = 2 * (x as u64) + 1;
    let wu: u64 = w as u64;
    proof {
        lemma_mul_sign_abs(2 * (x as int) + 1 - (w as int), SCALE as int);
    }
    if xx >= wu {
        proof {
            assert((xx as int - wu as int) * (SCALE as int) <= (wu as int) * (SCALE as int))
                by (nonlinear_arith)
                requires xx as int - wu as int <= wu as int && SCALE as int > 0;
        }
        let num: u64 = (xx - wu) * (SCALE as u64);
        let q: u64 = num / wu;
        proof {
            assert(num as int / (wu as int) <= SCALE as int) by (nonlinear_arith)
                requires num as int <= (wu as int) * (SCALE as int) && wu as int > 0;
        }
        q as i64
    } else {
        proof {
            assert((wu as int - xx as int) * (SCALE as int) <= (wu as int) * (SCALE as int))
                by (nonlinear_arith)
                requires wu as int - xx as int <= wu as int && SCALE as int > 0;
        }
        let num: u64 = (wu - xx) * (SCALE as u64);
        let q: u64 = num / wu;
        proof {
            assert(num as int / (wu as int) <= SCALE as int) by (nonlinear_arith)
                requires num as int <= (wu as int) * (SCALE as int) && wu as int > 0;
        }
        -(q as i64)
    }
}

/// Canvas ordinate of pixel row `y` on a screen `h` high, with row zero at
/// the top: `(h/2 - (y + 0.5)) / (h/2)`, exactly `(h - 2y - 1) * SCALE / h`
/// truncated toward zero.
pub fn canvas_y(y: u32, h: u32) -> (r: i64)
    requires
        0 < h,
        y < h,
    ensures
        r as int == tdiv(((h as int) - 2 * (y as int) - 1) * (SCALE as int), h as int),
        -SCALE <= r <= SCALE,
{
    let yy: u64 = 2 * (y as u64) + 1;
    let hu: u64 = h as u64;
    proof {
        lemma_mul_sign_abs((h as int) - 2 * (y as int) - 1, SCALE as int);
    }
    if hu >= yy {
        proof {
            assert((hu as int - yy as int) * (SCALE as int) <= (hu as int) * (SCALE as int))
                by (nonlinear_arith)
                requires hu as int - yy as int <= hu as int && SCALE as int > 0;
        }
        let num: u64 = (hu - yy) * (SCALE as u64);
        let q: u64 = num / hu;
        proof {
            assert(num as int / (hu as int) <= SCALE as int) by (nonlinear_arith)
                requires num as int <= (hu as int) * (SCALE as int) && hu as int > 0;
        }
        q as i64
    } else {
        proof {
            assert((yy as int - hu as int) * (SCALE as int) <= (hu as int) * (SCALE as int))
                by (nonlinear_arith)
                requires yy as int - hu as int <= hu as int && SCALE as int > 0;
        }
        let num: u64 = (yy - hu) * (SCALE as u64);
        let q: u64 = num / hu;
        proof {
            assert(num as int / (hu as int) <= SCALE as int) by (nonlinear_arith)
                requires num as int <= (hu as int) * (SCALE as int) && hu as int > 0;
        }
        -(q as i64)
    }
}

} // verus!
