//! Flat-space ray classification.
//!
//! A ray starts at the camera and is tested against the unit sphere at the
//! world origin (the body) and the annulus `3 < rho < 5` in the plane
//! `z == 0` (the accretion disk). With all coordinates bounded by
//! `RAW_BOUND`, every test below is exact 128-bit integer arithmetic on the
//! raw values; no rounding enters before the final distance comparison,
//! which uses the floor square root of the discriminant.
//!
//! Scales: a raw coordinate carries one factor of `SCALE`, so a dot product
//! of raw values carries `SCALE^2` and the discriminant `SCALE^4`; the
//! constants below keep the comparisons homogeneous.

use vstd::prelude::*;
use crate::fixed::{SCALE, iabs, sqrt_floor, isqrt, tdiv};
use crate::linalg::{Vec3, RAW_BOUND, bounded3, check_bounded3, v3_of, neg3_spec, neg3};
use crate::camera::{Camera, camera_wf, camera_new_spec, canvas_x, canvas_y};

verus! {

/// `SCALE * SCALE`: the raw form of 1.0 at dot-product scale.
pub const SCALE2: i64 = 1_000_000_000_000;

/// What a ray meets first. A disk hit carries the exact squared radius of
/// the intersection point as the fraction `rho2_num / rho2_den` (in squared
/// world units); a sky ray carries its direction for the background lookup.
#[derive(Clone, Copy, PartialEq, Eq, Structural, Debug)]
pub enum RayOutcome {
    BlackHole,
    Disk { rho2_num: i128, rho2_den: i128 },
    Sky { dir: Vec3 },
}

/// Dot product of raw coordinates, at scale `SCALE^2`.
pub open spec fn dotw(a: Vec3, b: Vec3) -> int {
    (a.x as int) * (b.x as int) + (a.y as int) * (b.y as int) + (a.z as int) * (b.z as int)
}

/// Quadratic discriminant of the ray against the unit sphere, at scale
/// `SCALE^4`: positive exactly when the ray's line passes within distance 1
/// of the origin.
pub open spec fn sphere_disc(p: Vec3, d: Vec3) -> int {
    dotw(p, d) * dotw(p, d) - dotw(d, d) * (dotw(p, p) - SCALE2 as int)
}

/// The ray hits the body: the line comes closer than radius 1 and the
/// closest approach lies ahead of the origin of the ray.
pub open spec fn sphere_hit(p: Vec3, d: Vec3) -> bool {
    dotw(p, d) < 0 && sphere_disc(p, d) > 0
}

/// The ray crosses the disk plane: origin and direction have strictly
/// opposite-sign `z` components.
pub open spec fn disk_cross(p: Vec3, d: Vec3) -> bool {
    (p.z > 0 && d.z < 0) || (p.z < 0 && d.z > 0)
}

/// Numerator of the squared radius of the plane intersection, at scale
/// `SCALE^4`.
pub open spec fn disk_num(p: Vec3, d: Vec3) -> int {
    let nx = (p.x as int) * (d.z as int) - (p.z as int) * (d.x as int);
    let ny = (p.y as int) * (d.z as int) - (p.z as int) * (d.y as int);
    nx * nx + ny * ny
}

/// Denominator of the squared radius, at the same scale.
pub open spec fn disk_den(p: Vec3, d: Vec3) -> int {
    (d.z as int) * (d.z as int) * (SCALE2 as int)
}

/// The ray crosses the plane inside the annulus `3 < rho < 5`.
pub open spec fn disk_hit(p: Vec3, d: Vec3) -> bool {
    disk_cross(p, d) && 9 * disk_den(p, d) < disk_num(p, d) && disk_num(p, d) < 25 * disk_den(
        p,
        d,
    )
}

/// With both hits present, the sphere is strictly nearer along the ray:
/// `(-b - floor(sqrt(disc))) * |d_z| < |p_z| * (d . d)`, the integer form of
/// comparing the sphere parameter `(-b - sqrt(disc)) / (d . d)` with the
/// plane parameter `|p_z| / |d_z|`.
pub open spec fn sphere_first(p: Vec3, d: Vec3) -> bool {
    let sd = sqrt_floor(sphere_disc(p, d) as nat) as int;
    (-dotw(p, d) - sd) * iabs(d.z as int) < iabs(p.z as int) * dotw(d, d)
}

/// The classification: the body wins when it is hit and either the disk is
/// missed or the body is strictly nearer; otherwise a disk hit yields the
/// disk with its exact squared radius; otherwise the ray escapes to the sky
/// with its direction.
pub open spec fn classify_spec(p: Vec3, d: Vec3) -> RayOutcome
    recommends
        bounded3(p, RAW_BOUND as int),
        bounded3(d, RAW_BOUND as int),
{
    if sphere_hit(p, d) && (!disk_hit(p, d) || sphere_first(p, d)) {
        RayOutcome::BlackHole
    } else if disk_hit(p, d) {
        RayOutcome::Disk {
            rho2_num: disk_num(p, d) as i128,
            rho2_den: disk_den(p, d) as i128,
        }
    } else {
        RayOutcome::Sky { dir: d }
    }
}

/// Classify one ray. Exact: the result equals `classify_spec` on all
/// bounded inputs.
pub fn classify(p: &Vec3, d: &Vec3) -> (res: RayOutcome)
    requires
        bounded3(*p, RAW_BOUND as int),
        bounded3(*d, RAW_BOUND as int),
    ensures
        res == classify_spec(*p, *d),
{
    let px: i128 = p.x as i128;
    let py: i128 = p.y as i128;
    let pz: i128 = p.z as i128;
    let dx: i128 = d.x as i128;
    let dy: i128 = d.y as i128;
    let dz: i128 = d.z as i128;
    proof {
        assert(-1_000_000_000_000_000_000 <= px * dx <= 1_000_000_000_000_000_000
            && -1_000_000_000_000_000_000 <= py * dy <= 1_000_000_000_000_000_000
            && -1_000_000_000_000_000_000 <= pz * dz <= 1_000_000_000_000_000_000)
            by (nonlinear_arith)
            requires
                -1_000_000_000 <= px <= 1_000_000_000,
                -1_000_000_000 <= py <= 1_000_000_000,
                -1_000_000_000 <= pz <= 1_000_000_000,
                -1_000_000_000 <= dx <= 1_000_000_000,
                -1_000_000_000 <= dy <= 1_000_000_000,
                -1_000_000_000 <= dz <= 1_000_000_000;
        assert(0 <= px * px <= 1_000_000_000_000_000_000
            && 0 <= py * py <= 1_000_000_000_000_000_000
            && 0 <= pz * pz <= 1_000_000_000_000_000_000
            && 0 <= dx * dx <= 1_000_000_000_000_000_000
            && 0 <= dy * dy <= 1_000_000_000_000_000_000
            && 0 <= dz * dz <= 1_000_000_000_000_000_000)
            by (nonlinear_arith)
            requires
                -1_000_000_000 <= px <= 1_000_000_000,
                -1_000_000_000 <= py <= 1_000_000_000,
                -1_000_000_000 <= pz <= 1_000_000_000,
                -1_000_000_000 <= dx <= 1_000_000_000,
                -1_000_000_000 <= dy <= 1_000_000_000,
                -1_000_000_000 <= dz <= 1_000_000_000;
    }
    let b: i128 = px * dx + py * dy + pz * dz;
    let a: i128 = dx * dx + dy * dy + dz * dz;
    let c: i128 = px * px + py * py + pz * pz;
    proof {
        assert(b * b <= 9_000_000_000_000_000_000_000_000_000_000_000_000
            && b * b >= 0) by (nonlinear_arith)
            requires -3_000_000_000_000_000_000 <= b <= 3_000_000_000_000_000_000;
        assert(-9_000_000_000_000_000_000_000_000_000_000_000_000 <= a * (c
            - 1_000_000_000_000) <= 9_000_000_000_000_000_000_000_000_000_000_000_000)
            by (nonlinear_arith)
            requires
                0 <= a <= 3_000_000_000_000_000_000,
                0 <= c <= 3_000_000_000_000_000_000;
    }
    let disc: i128 = b * b - a * (c - 1_000_000_000_000);
    let hit_sphere: bool = b < 0 && disc > 0;

    let crosses: bool = (p.z > 0 && d.z < 0) || (p.z < 0 && d.z > 0);
    proof {
        assert(-1_000_000_000_000_000_000 <= px * dz <= 1_000_000_000_000_000_000
            && -1_000_000_000_000_000_000 <= pz * dx <= 1_000_000_000_000_000_000
            && -1_000_000_000_000_000_000 <= py * dz <= 1_000_000_000_000_000_000
            && -1_000_000_000_000_000_000 <= pz * dy <= 1_000_000_000_000_000_000)
            by (nonlinear_arith)
            requires
                -1_000_000_000 <= px <= 1_000_000_000,
                -1_000_000_000 <= py <= 1_000_000_000,
                -1_000_000_000 <= pz <= 1_000_000_000,
                -1_000_000_000 <= dx <= 1_000_000_000,
                -1_000_000_000 <= dy <= 1_000_000_000,
                -1_000_000_000 <= dz <= 1_000_000_000;
    }
    let nx: i128 = px * dz - pz * dx;
    let ny: i128 = py * dz - pz * dy;
    proof {
        assert(0 <= nx * nx <= 4_000_000_000_000_000_000_000_000_000_000_000_000
            && 0 <= ny * ny <= 4_000_000_000_000_000_000_000_000_000_000_000_000)
            by (nonlinear_arith)
            requires
                -2_000_000_000_000_000_000 <= nx <= 2_000_000_000_000_000_000,
                -2_000_000_000_000_000_000 <= ny <= 2_000_000_000_000_000_000;
        assert(0 <= (dz * dz) * 1_000_000_000_000 <= 1_000_000_000_000_000_000_000_000_000_000)
            by (nonlinear_arith)
            requires 0 <= dz * dz <= 1_000_000_000_000_000_000;
    }
    let num: i128 = nx * nx + ny * ny;
    let den: i128 = (dz * dz) * 1_000_000_000_000;
    let hit_disk: bool = crosses && 9 * den < num && num < 25 * den;

    if hit_sphere && hit_disk {
        proof {
            assert((disc as u128) < 0x4000_0000_0000_0000_0000_0000_0000_0000u128);
        }
        let sd: u128 = isqrt(disc as u128);
        proof {
            if sd > 5_000_000_000_000_000_000u128 {
                assert(sd * sd > 5_000_000_000_000_000_000u128 * 5_000_000_000_000_000_000u128)
                    by (nonlinear_arith)
                    requires sd > 5_000_000_000_000_000_000u128;
                assert(false);
            }
        }
        let apz: i128 = if pz >= 0 { pz } else { -pz };
        let adz: i128 = if dz >= 0 { dz } else { -dz };
        proof {
            assert(-9_000_000_000_000_000_000_000_000_000 <= (-b - sd as i128) * adz
                <= 9_000_000_000_000_000_000_000_000_000) by (nonlinear_arith)
                requires
                    -9_000_000_000_000_000_000 <= -b - sd as i128 <= 9_000_000_000_000_000_000,
                    0 <= adz <= 1_000_000_000;
            assert(0 <= apz * a <= 3_000_000_000_000_000_000_000_000_000) by (nonlinear_arith)
                requires
                    0 <= apz <= 1_000_000_000,
                    0 <= a <= 3_000_000_000_000_000_000;
        }
        let lhs: i128 = (-b - sd as i128) * adz;
        let rhs: i128 = apz * a;
        if lhs < rhs {
            RayOutcome::BlackHole
        } else {
            RayOutcome::Disk { rho2_num: num, rho2_den: den }
        }
    } else if hit_sphere {
        RayOutcome::BlackHole
    } else if hit_disk {
        RayOutcome::Disk { rho2_num: num, rho2_den: den }
    } else {
        RayOutcome::Sky { dir: *d }
    }
}

/// The world z axis, unit length.
pub open spec fn z_axis_spec() -> Vec3 {
    Vec3 { x: 0, y: 0, z: SCALE }
}

/// An orbiting camera: at `pos`, looking at the origin, with the world z
/// axis as up, near distance 0.1 and a right-angle vertical field of view
/// (so the near-plane half-extent equals the near distance).
pub open spec fn orbit_spec(pos: Vec3, aspect: i64) -> Option<Camera> {
    match v3_of(neg3_spec(pos)) {
        Some(d) => camera_new_spec(pos, d, z_axis_spec(), 100_000, 100_000, aspect),
        None => None,
    }
}

/// The orbiting camera placed at spherical coordinates `(r, theta, phi)`,
/// with the angles given by their sines and cosines.
pub open spec fn orbit_spherical_spec(r: int, st: int, ct: int, sp: int, cp: int, aspect: i64)
    -> Option<Camera> {
    match v3_of(crate::physics::sph2cart_spec(r, st, ct, sp, cp)) {
        Some(pos) => orbit_spec(pos, aspect),
        None => None,
    }
}

/// A pixel ray direction, then its classification; `None` when the
/// direction cannot be formed or leaves the coordinate bound.
pub open spec fn raytrace_spec(cam: Camera, cx: int, cy: int) -> Option<RayOutcome> {
    match v3_of(cam.pixel_dir_spec(cx, cy)) {
        Some(d) => if bounded3(d, RAW_BOUND as int) {
            Some(classify_spec(cam.pos, d))
        } else {
            None
        },
        None => None,
    }
}

/// Flat-space environment: a camera in front of the classifier.
#[derive(Clone, Copy, PartialEq, Eq, Structural, Debug)]
pub struct EuclidianRaytracing {
    pub cam: Camera,
}

impl EuclidianRaytracing {
    /// A camera built from explicit frame vectors; `ys` is the near-plane
    /// half-extent `near * tan(fovy / 2)`, supplied by the caller because
    /// the tangent is not representable here.
    pub fn new(pos: Vec3, dir: Vec3, up: Vec3, near: i64, ys: i64, aspect: i64) -> (res: Option<
        EuclidianRaytracing,
    >)
        ensures
            match res {
                Some(e) => camera_new_spec(pos, dir, up, near, ys, aspect) == Some(e.cam)
                    && camera_wf(e.cam),
                None => camera_new_spec(pos, dir, up, near, ys, aspect) is None,
            },
    {
        match Camera::new(pos, dir, up, near, ys, aspect) {
            Some(cam) => Some(EuclidianRaytracing { cam }),
            None => None,
        }
    }

    /// The orbiting camera of `orbit_spec`.
    pub fn new_orbiting(pos: Vec3, aspect: i64) -> (res: Option<EuclidianRaytracing>)
        ensures
            match res {
                Some(e) => orbit_spec(pos, aspect) == Some(e.cam) && camera_wf(e.cam),
                None => orbit_spec(pos, aspect) is None,
            },
    {
        let d: Vec3 = match neg3(&pos) { Some(v) => v, None => return None };
        let zax = Vec3 { x: 0, y: 0, z: SCALE };
        match Camera::new(pos, d, zax, 100_000, 100_000, aspect) {
            Some(cam) => Some(EuclidianRaytracing { cam }),
            None => None,
        }
    }

    /// The orbiting camera at spherical position `(r, theta, phi)`; the
    /// caller passes the sines and cosines of the two angles.
    pub fn new_orbiting_spherical(r: i64, st: i64, ct: i64, sp: i64, cp: i64, aspect: i64) -> (res:
        Option<EuclidianRaytracing>)
        ensures
            match res {
                Some(e) => orbit_spherical_spec(
                    r as int,
                    st as int,
                    ct as int,
                    sp as int,
                    cp as int,
                    aspect,
                ) == Some(e.cam) && camera_wf(e.cam),
                None => orbit_spherical_spec(
                    r as int,
                    st as int,
                    ct as int,
                    sp as int,
                    cp as int,
                    aspect,
                ) is None,
            },
    {
        let pos: Vec3 = match crate::physics::sph2cart(r, st, ct, sp, cp) {
            Some(v) => v,
            None => return None,
        };
        EuclidianRaytracing::new_orbiting(pos, aspect)
    }

    /// Position, viewing direction and up vector.
    pub fn get_data(&self) -> (res: (Vec3, Vec3, Vec3))
        ensures
            res == (self.cam.pos, self.cam.forward, self.cam.up),
    {
        (self.cam.pos, self.cam.forward, self.cam.up)
    }

    /// Replace the camera frame; unchanged, with `false`, when the new
    /// frame degenerates.
    pub fn set_data(&mut self, pos: Vec3, dir: Vec3, up: Vec3) -> (ok: bool)
        ensures
            match camera_new_spec(
                pos,
                dir,
                up,
                old(self).cam.near,
                old(self).cam.ys,
                old(self).cam.aspect,
            ) {
                Some(c) => ok && final(self).cam == c,
                None => !ok && *final(self) == *old(self),
            },
    {
        self.cam.set_data(pos, dir, up)
    }

    /// Classify the ray through canvas point `(cx, cy)`.
    pub fn raytrace(&self, cx: i64, cy: i64) -> (res: Option<RayOutcome>)
        requires
            camera_wf(self.cam),
        ensures
            res == raytrace_spec(self.cam, cx as int, cy as int),
    {
        let d: Vec3 = match self.cam.pixel_dir(cx, cy) { Some(v) => v, None => return None };
        if check_bounded3(&d, RAW_BOUND) {
            Some(classify(&self.cam.pos, &d))
        } else {
            None
        }
    }

    /// Classify the ray through pixel `(x, y)` of a `w` by `h` screen.
    pub fn render_pixel(&self, x: u32, y: u32, w: u32, h: u32) -> (res: Option<RayOutcome>)
        requires
            camera_wf(self.cam),
            0 < w,
            0 < h,
            x < w,
            y < h,
        ensures
            res == raytrace_spec(
                self.cam,
                tdiv((2 * (x as int) + 1 - (w as int)) * (SCALE as int), w as int),
                tdiv(((h as int) - 2 * (y as int) - 1) * (SCALE as int), h as int),
            ),
    {
        let cx: i64 = canvas_x(x, w);
        let cy: i64 = canvas_y(y, h);
        self.raytrace(cx, cy)
    }
}

/// A ray fired from outside the body straight at the world origin always
/// ends on the body: solid black, never the disk or the sky.
pub proof fn lemma_ray_at_body_is_black(p: Vec3, d: Vec3)
    requires
        bounded3(p, RAW_BOUND as int),
        d.x == -p.x,
        d.y == -p.y,
        d.z == -p.z,
        dotw(p, p) > SCALE2 as int,
    ensures
        classify_spec(p, d) == RayOutcome::BlackHole,
{
    let px = p.x as int;
    let py = p.y as int;
    let pz = p.z as int;
    assert(px * (-px) == -(px * px) && py * (-py) == -(py * py) && pz * (-pz) == -(pz * pz))
        by (nonlinear_arith);
    assert((-px) * (-px) == px * px && (-py) * (-py) == py * py && (-pz) * (-pz) == pz * pz)
        by (nonlinear_arith);
    let cc = dotw(p, p);
    assert(dotw(p, d) == -cc);
    assert(dotw(d, d) == cc);
    assert(sphere_disc(p, d) == cc * (SCALE2 as int)) by (nonlinear_arith)
        requires dotw(p, d) == -cc && dotw(d, d) == cc && sphere_disc(p, d) == dotw(p, d) * dotw(
            p,
            d,
        ) - dotw(d, d) * (dotw(p, p) - SCALE2 as int) && dotw(p, p) == cc;
    assert(cc * (SCALE2 as int) > 0) by (nonlinear_arith)
        requires cc > 0;
    assert(sphere_hit(p, d));
    if p.z != 0 {
        assert(px * (-pz) - pz * (-px) == 0 && py * (-pz) - pz * (-py) == 0) by (nonlinear_arith);
        assert(disk_num(p, d) == 0);
        assert((pz * pz) * (SCALE2 as int) > 0) by (nonlinear_arith)
            requires pz != 0;
        assert(!disk_hit(p, d));
    } else {
        assert(!disk_cross(p, d));
    }
}

/// A ray fired straight down from above the disk plane, over the open
/// annulus `3 < rho < 5`, hits the disk and never the body.
pub proof fn lemma_vertical_ray_hits_disk(p: Vec3, d: Vec3)
    requires
        bounded3(p, RAW_BOUND as int),
        p.z > 0,
        d.x == 0,
        d.y == 0,
        d.z == -SCALE,
        9 * (SCALE2 as int) < (p.x as int) * (p.x as int) + (p.y as int) * (p.y as int)
            < 25 * (SCALE2 as int),
    ensures
        disk_hit(p, d),
        !sphere_hit(p, d),
        classify_spec(p, d) is Disk,
{
    let px = p.x as int;
    let py = p.y as int;
    let pz = p.z as int;
    let rho2 = px * px + py * py;
    assert((px * (-1_000_000) - pz * 0) * (px * (-1_000_000) - pz * 0) + (py * (-1_000_000) - pz
        * 0) * (py * (-1_000_000) - pz * 0) == rho2 * 1_000_000_000_000) by (nonlinear_arith)
        requires rho2 == px * px + py * py;
    assert(disk_num(p, d) == rho2 * 1_000_000_000_000);
    assert(((-1_000_000) as int) * ((-1_000_000) as int) * 1_000_000_000_000
        == 1_000_000_000_000_000_000_000_000) by (nonlinear_arith);
    assert(disk_den(p, d) == 1_000_000_000_000_000_000_000_000);
    assert(9 * 1_000_000_000_000_000_000_000_000 < rho2 * 1_000_000_000_000 && rho2
        * 1_000_000_000_000 < 25 * 1_000_000_000_000_000_000_000_000) by (nonlinear_arith)
        requires 9 * 1_000_000_000_000 < rho2 && rho2 < 25 * 1_000_000_000_000;
    assert(disk_hit(p, d));

    // The line keeps distance rho > 3 > 1 from the origin: the
    // discriminant is negative and the body is missed.
    assert(dotw(p, d) == px * 0 + py * 0 + pz * (-1_000_000));
    assert(dotw(d, d) == 0 * 0 + 0 * 0 + ((-1_000_000) as int) * ((-1_000_000) as int));
    assert(0 * 0 + 0 * 0 + ((-1_000_000) as int) * ((-1_000_000) as int) == 1_000_000_000_000)
        by (nonlinear_arith);
    assert((px * 0 + py * 0 + pz * (-1_000_000)) * (px * 0 + py * 0 + pz * (-1_000_000))
        - 1_000_000_000_000 * ((px * px + py * py + pz * pz) - 1_000_000_000_000)
        == 1_000_000_000_000 * (1_000_000_000_000 - rho2)) by (nonlinear_arith)
        requires rho2 == px * px + py * py;
    assert(1_000_000_000_000 * (1_000_000_000_000 - rho2) < 0) by (nonlinear_arith)
        requires rho2 > 9 * 1_000_000_000_000;
    assert(sphere_disc(p, d) < 0);
    assert(!sphere_hit(p, d));
}

/// A ray fired outward along its own position vector never meets the body
/// or the disk: it always samples the sky, with its direction unchanged.
pub proof fn lemma_ray_away_is_sky(p: Vec3, d: Vec3)
    requires
        d.x == p.x,
        d.y == p.y,
        d.z == p.z,
    ensures
        classify_spec(p, d) == (RayOutcome::Sky { dir: d }),
{
    let px = p.x as int;
    let py = p.y as int;
    let pz = p.z as int;
    assert(px * px >= 0 && py * py >= 0 && pz * pz >= 0) by (nonlinear_arith);
    assert(dotw(p, d) >= 0);
    assert(!sphere_hit(p, d));
    assert(!disk_cross(p, d));
}

} // verus!
