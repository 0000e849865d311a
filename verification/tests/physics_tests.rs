use blackhole::physics::{cart2sph_at, g, gamma, sph2cart, sph2cart_at, time_norm, vec3to4, vec4to3};
use blackhole::linalg::{Vec3, Vec4};

const S: i64 = 1_000_000;

#[test]
fn physics_g_is_digonal() {
    // A position just outside the horizon.
    let r: i64 = 1_770_000;
    let s: i64 = 640_000;
    for mu in 0..4usize {
        for nu in 0..4usize {
            if mu == nu {
                continue;
            }
            assert_eq!(g(mu, nu, r, s), Some(0));
        }
    }
}

#[test]
fn tests_g_is_digonal() {
    let r: i64 = 52_310_000;
    let s: i64 = -350_000;
    for mu in 0..4usize {
        for nu in 0..4usize {
            if mu == nu {
                continue;
            }
            assert_eq!(g(mu, nu, r, s), Some(0));
        }
    }
}

#[test]
fn physics_gamma_is_symetric() {
    let r: i64 = 37_420_000;
    let s: i64 = 810_000;
    let c: i64 = -586_000;
    for lambda in 0..4usize {
        for mu in 0..4usize {
            for nu in 0..4usize {
                assert_eq!(
                    gamma(lambda, mu, nu, r, s, c),
                    gamma(lambda, nu, mu, r, s, c),
                    "Failed at {:?}",
                    (lambda, mu, nu)
                );
            }
        }
    }
}

#[test]
fn tests_gamma_is_symetric() {
    let r: i64 = 2_310_000;
    let s: i64 = 120_000;
    let c: i64 = 992_000;
    for lambda in 0..4usize {
        for mu in 0..4usize {
            for nu in 0..4usize {
                assert_eq!(
                    gamma(lambda, mu, nu, r, s, c),
                    gamma(lambda, nu, mu, r, s, c),
                    "Failed at {:?}",
                    (lambda, mu, nu)
                );
            }
        }
    }
}

#[test]
fn time_norm_makes_proper_time_zero() {
    // r = 41.3, theta with sin(theta) = 0.77: a valid exterior position.
    let r_fix: i64 = 41_300_000;
    let s_fix: i64 = 770_000;
    let v = Vec4 { t: 0, r: 83 * S, th: -17 * S, ph: 29 * S };
    let out = time_norm(r_fix, s_fix, &v).expect("normalization must succeed outside the horizon");

    let r = r_fix as f64 / 1e6;
    let sth = s_fix as f64 / 1e6;
    let g_tt = -(1.0 - 1.0 / r);
    let g_rr = 1.0 / (1.0 - 1.0 / r);
    let g_thth = r * r;
    let g_phph = r * r * sth * sth;
    let vt = out.t as f64 / 1e6;
    let vr = out.r as f64 / 1e6;
    let vth = out.th as f64 / 1e6;
    let vph = out.ph as f64 / 1e6;
    let total = g_tt * vt * vt + g_rr * vr * vr + g_thth * vth * vth + g_phph * vph * vph;
    assert!(total.abs() < 0.01, "null condition violated: {}", total);
}

#[test]
fn time_norm_fails_inside_horizon() {
    // r = 0.5 with a transverse velocity: g_tt is positive while the
    // angular metric terms stay positive, so the radicand goes negative.
    let v = Vec4 { t: 0, r: 0, th: S, ph: 0 };
    assert_eq!(time_norm(500_000, S, &v), None);
    // At the horizon itself g_rr is undefined.
    let w = Vec4 { t: 0, r: S, th: 0, ph: 0 };
    assert_eq!(time_norm(S, S, &w), None);
}

#[test]
fn vec3to4_and_vec4to3_are_inverses() {
    let v3 = Vec3 { x: 123_456, y: -789_000, z: 42 };
    let back = vec4to3(&vec3to4(&v3));
    assert_eq!(back, v3);

    let v4 = Vec4 { t: 55 * S, r: -3 * S, th: 777, ph: -1 };
    let round = vec3to4(&vec4to3(&v4));
    assert_eq!(round.t, 0);
    assert_eq!(round.r, v4.r);
    assert_eq!(round.th, v4.th);
    assert_eq!(round.ph, v4.ph);
}

#[test]
fn metric_exact_values() {
    // r = 2: g_tt = -0.5, g_rr = 2, g_thth = 4; with sin = 0.5, g_phph = 1.
    let r: i64 = 2 * S;
    let s: i64 = 500_000;
    assert_eq!(g(0, 0, r, s), Some(-500_000));
    assert_eq!(g(1, 1, r, s), Some(2 * S));
    assert_eq!(g(2, 2, r, s), Some(4 * S));
    assert_eq!(g(3, 3, r, s), Some(S));
}

#[test]
fn metric_undefined_at_horizon() {
    // r = 1: g_rr divides by zero.
    assert_eq!(g(1, 1, S, S), None);
    // r = 0: every 1/r component fails.
    assert_eq!(g(0, 0, 0, S), None);
}

#[test]
fn christoffel_exact_values() {
    // r = 2, sin = 0.6, cos = 0.8.
    let r: i64 = 2 * S;
    let s: i64 = 600_000;
    let c: i64 = 800_000;
    // Gamma^t_tr = 1/(2*2*1) = 0.25.
    assert_eq!(gamma(0, 0, 1, r, s, c), Some(250_000));
    // Gamma^r_tt = (2-1)/(2*8) = 0.0625.
    assert_eq!(gamma(1, 0, 0, r, s, c), Some(62_500));
    // Gamma^r_rr = -0.25.
    assert_eq!(gamma(1, 1, 1, r, s, c), Some(-250_000));
    // Gamma^r_thth = -(r-1) = -1.
    assert_eq!(gamma(1, 2, 2, r, s, c), Some(-S));
    // Gamma^r_phph = -(r-1)*sin^2 = -0.36.
    assert_eq!(gamma(1, 3, 3, r, s, c), Some(-360_000));
    // Gamma^theta_rth = 1/r = 0.5.
    assert_eq!(gamma(2, 1, 2, r, s, c), Some(500_000));
    // Gamma^theta_phph = -sin*cos = -0.48.
    assert_eq!(gamma(2, 3, 3, r, s, c), Some(-480_000));
    // Gamma^phi_rph = 0.5.
    assert_eq!(gamma(3, 1, 3, r, s, c), Some(500_000));
    // Gamma^phi_thph = cos/sin = 4/3 (truncated).
    assert_eq!(gamma(3, 2, 3, r, s, c), Some(1_333_333));
    // A component outside the table is zero.
    assert_eq!(gamma(0, 2, 3, r, s, c), Some(0));
}

#[test]
fn sph2cart_exact_values() {
    // r = 2, theta = pi/2, phi = 0: straight out along x.
    assert_eq!(
        sph2cart(2 * S, S, 0, 0, S),
        Some(Vec3 { x: 2 * S, y: 0, z: 0 })
    );
    // r = 3, theta = 0: along z regardless of phi.
    assert_eq!(
        sph2cart(3 * S, 0, S, 700_000, 714_142),
        Some(Vec3 { x: 0, y: 0, z: 3 * S })
    );
}

#[test]
fn basis_conversions_are_mutual_inverses() {
    // A tangent vector at a generic point: theta = 1.1, phi = 2.3.
    let theta: f64 = 1.1;
    let phi: f64 = 2.3;
    let st = ((theta.sin()) * 1e6).round() as i64;
    let ct = ((theta.cos()) * 1e6).round() as i64;
    let sp = ((phi.sin()) * 1e6).round() as i64;
    let cp = ((phi.cos()) * 1e6).round() as i64;

    let v = Vec3 { x: 300_000, y: -200_000, z: 500_000 };
    let local = cart2sph_at(&v, st, ct, sp, cp).expect("in range");
    let back = sph2cart_at(&local, st, ct, sp, cp).expect("in range");
    // Mutual inverses to within 1e-4 away from the poles.
    assert!((back.x - v.x).abs() <= 100, "x came back as {}", back.x);
    assert!((back.y - v.y).abs() <= 100, "y came back as {}", back.y);
    assert!((back.z - v.z).abs() <= 100, "z came back as {}", back.z);

    let w = Vec3 { x: -123_456, y: 654_321, z: 111_111 };
    let cart = sph2cart_at(&w, st, ct, sp, cp).expect("in range");
    let round = cart2sph_at(&cart, st, ct, sp, cp).expect("in range");
    assert!((round.x - w.x).abs() <= 100);
    assert!((round.y - w.y).abs() <= 100);
    assert!((round.z - w.z).abs() <= 100);
}
