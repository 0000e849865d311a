use blackhole::camera::Camera;
use blackhole::euclid::EuclidianRaytracing;
use blackhole::linalg::Vec3;

const S: i64 = 1_000_000;

#[test]
fn camera_orthogonalizes_up_against_forward() {
    // A tilted up hint is projected back to the plane normal to forward.
    let pos = Vec3 { x: 10 * S, y: 0, z: 0 };
    let forward = Vec3 { x: -S, y: 0, z: 0 };
    let tilted = Vec3 { x: -500_000, y: 0, z: 500_000 };
    let cam = Camera::new(pos, forward, tilted, 100_000, 100_000, S).expect("camera must build");
    assert_eq!(cam.dir(), forward);
    assert_eq!(cam.up(), Vec3 { x: 0, y: 0, z: S });
    assert_eq!(cam.pos(), pos);
}

#[test]
fn camera_setters_keep_the_frame_valid() {
    let pos = Vec3 { x: 10 * S, y: 0, z: 0 };
    let forward = Vec3 { x: -S, y: 0, z: 0 };
    let up = Vec3 { x: 0, y: 0, z: S };
    let mut cam = Camera::new(pos, forward, up, 100_000, 100_000, S).expect("camera must build");

    let pos2 = Vec3 { x: 0, y: 8 * S, z: 0 };
    assert!(cam.set_pos(pos2));
    assert_eq!(cam.pos(), pos2);
    assert_eq!(cam.dir(), forward);

    let dir2 = Vec3 { x: 0, y: -S, z: 0 };
    assert!(cam.set_dir(dir2));
    assert_eq!(cam.dir(), dir2);
    assert_eq!(cam.up(), up);

    // A degenerate direction is refused and nothing changes.
    let before = cam;
    assert!(!cam.set_dir(Vec3 { x: 0, y: 0, z: 0 }));
    assert_eq!(cam, before);
    assert!(!cam.set_up(dir2));
    assert_eq!(cam, before);
}

#[test]
fn environment_data_round_trips() {
    let pos = Vec3 { x: 10 * S, y: 0, z: 0 };
    let mut env = EuclidianRaytracing::new_orbiting(pos, S).expect("camera must build");
    let (p, d, u) = env.get_data();
    assert_eq!(p, pos);
    assert_eq!(d, Vec3 { x: -S, y: 0, z: 0 });
    assert_eq!(u, Vec3 { x: 0, y: 0, z: S });

    let pos2 = Vec3 { x: 0, y: 8 * S, z: 0 };
    let dir2 = Vec3 { x: 0, y: -S, z: 0 };
    assert!(env.set_data(pos2, dir2, u));
    let (p2, d2, u2) = env.get_data();
    assert_eq!(p2, pos2);
    assert_eq!(d2, dir2);
    assert_eq!(u2, u);
}
