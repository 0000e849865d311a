use blackhole::euclid::{classify, EuclidianRaytracing, RayOutcome};
use blackhole::linalg::Vec3;

const S: i64 = 1_000_000;

#[test]
fn ray_at_origin_from_outside_is_black() {
    // From (10, 0, 0) straight at the world origin.
    let p = Vec3 { x: 10 * S, y: 0, z: 0 };
    let d = Vec3 { x: -10 * S, y: 0, z: 0 };
    assert_eq!(classify(&p, &d), RayOutcome::BlackHole);
}

#[test]
fn ray_at_origin_from_above_is_black() {
    // From above the disk plane: crosses the plane at the origin, inside
    // the annulus hole, so the body still wins.
    let p = Vec3 { x: 0, y: 0, z: 10 * S };
    let d = Vec3 { x: 0, y: 0, z: -S };
    assert_eq!(classify(&p, &d), RayOutcome::BlackHole);
}

#[test]
fn ray_away_is_sky_with_same_direction() {
    let p = Vec3 { x: 10 * S, y: 0, z: 0 };
    let d = Vec3 { x: 10 * S, y: 0, z: 0 };
    assert_eq!(classify(&p, &d), RayOutcome::Sky { dir: d });
}

#[test]
fn ray_missing_everything_is_sky() {
    // Parallel to the disk plane, offset from the body.
    let p = Vec3 { x: 10 * S, y: 0, z: 2 * S };
    let d = Vec3 { x: 0, y: S, z: 0 };
    assert_eq!(classify(&p, &d), RayOutcome::Sky { dir: d });
}

#[test]
fn ray_into_annulus_is_disk_with_exact_radius() {
    // From (4, 0, 1) straight down: the plane intersection is (4, 0, 0),
    // radius 4, inside the annulus. rho^2 = 16 exactly.
    let p = Vec3 { x: 4 * S, y: 0, z: S };
    let d = Vec3 { x: 0, y: 0, z: -S };
    match classify(&p, &d) {
        RayOutcome::Disk { rho2_num, rho2_den } => {
            assert!(rho2_den > 0);
            assert_eq!(rho2_num, 16 * rho2_den);
        },
        other => panic!("expected a disk hit, got {:?}", other),
    }
}

#[test]
fn annulus_edges_are_excluded() {
    // Straight down onto radius exactly 3 and exactly 5: both outside the
    // open annulus, and nothing else is in the way.
    let p3 = Vec3 { x: 3 * S, y: 0, z: S };
    let p5 = Vec3 { x: 5 * S, y: 0, z: S };
    let d = Vec3 { x: 0, y: 0, z: -S };
    assert_eq!(classify(&p3, &d), RayOutcome::Sky { dir: d });
    assert_eq!(classify(&p5, &d), RayOutcome::Sky { dir: d });
}

#[test]
fn disk_is_hit_from_below_too() {
    // Rising from under the plane onto radius 4.
    let p = Vec3 { x: 4 * S, y: 0, z: -S };
    let d = Vec3 { x: 0, y: 0, z: S };
    match classify(&p, &d) {
        RayOutcome::Disk { rho2_num, rho2_den } => {
            assert_eq!(rho2_num, 16 * rho2_den);
        },
        other => panic!("expected a disk hit, got {:?}", other),
    }
    // Moving parallel to the plane from below never crosses it.
    let d2 = Vec3 { x: -S, y: 0, z: 0 };
    assert!(matches!(classify(&p, &d2), RayOutcome::Sky { .. }));
}

#[test]
fn nearer_disk_wins_over_sphere() {
    // From (7, 0, -0.5) toward (-3.5, 0, 0.5): crosses the plane at
    // (3.5, 0, 0) first, then passes within 0.5 of the origin.
    let p = Vec3 { x: 7 * S, y: 0, z: -500_000 };
    let d = Vec3 { x: -3_500_000, y: 0, z: 500_000 };
    match classify(&p, &d) {
        RayOutcome::Disk { rho2_num, rho2_den } => {
            // rho = 3.5, so 4 * rho^2 == 49.
            assert_eq!(4 * rho2_num, 49 * rho2_den);
        },
        other => panic!("expected a disk hit, got {:?}", other),
    }
}

#[test]
fn nearer_sphere_wins_over_disk() {
    // From (0, 0, 0.5) toward (3.5, 0, -0.5): the sphere surrounds the
    // start, the disk crossing lies beyond it.
    let p = Vec3 { x: 0, y: 0, z: 500_000 };
    let d = Vec3 { x: 3_500_000, y: 0, z: -500_000 };
    assert_eq!(classify(&p, &d), RayOutcome::BlackHole);
}

#[test]
fn no_disk_without_plane_crossing() {
    // Moving parallel to the plane above it, aimed over the annulus.
    let p = Vec3 { x: 10 * S, y: 0, z: 100_000 };
    let d = Vec3 { x: -S, y: 0, z: 0 };
    // The line passes within 0.1 of the origin in z, but z never reaches 0
    // and the closest approach to the center is 0.1 < 1: the sphere wins.
    assert_eq!(classify(&p, &d), RayOutcome::BlackHole);
}

#[test]
fn orbiting_camera_center_pixel_sees_the_body() {
    let pos = Vec3 { x: 10 * S, y: 0, z: 0 };
    let env = EuclidianRaytracing::new_orbiting(pos, S).expect("camera must build");
    let out = env.render_pixel(200, 200, 401, 401).expect("center pixel must classify");
    assert_eq!(out, RayOutcome::BlackHole);
}

#[test]
fn orbiting_camera_corner_pixel_sees_the_sky() {
    let pos = Vec3 { x: 10 * S, y: 0, z: 0 };
    let env = EuclidianRaytracing::new_orbiting(pos, S).expect("camera must build");
    let out = env.render_pixel(0, 0, 401, 401).expect("corner pixel must classify");
    assert!(matches!(out, RayOutcome::Sky { .. }), "got {:?}", out);
}

#[test]
fn degenerate_camera_is_rejected() {
    // A zero viewing direction cannot be normalized.
    let pos = Vec3 { x: 10 * S, y: 0, z: 0 };
    let zero = Vec3 { x: 0, y: 0, z: 0 };
    let up = Vec3 { x: 0, y: 0, z: S };
    assert!(EuclidianRaytracing::new(pos, zero, up, 100_000, 100_000, S).is_none());
    // Up parallel to the viewing direction degenerates the cross product.
    let dir = Vec3 { x: -S, y: 0, z: 0 };
    let up2 = Vec3 { x: S, y: 0, z: 0 };
    assert!(EuclidianRaytracing::new(pos, dir, up2, 100_000, 100_000, S).is_none());
}
