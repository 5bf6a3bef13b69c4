use rosette::{
    full_revolution, gcd, generate_curve, sweep_window, Animation, ColorMap, CurveError,
    LineKind, Params, Phase, INNER_WIDTH, LEVEL_MAX, OUTER_WIDTH, TURN,
};

fn params(n_eighths: i64, d_eighths: i64, radius: i64) -> Params {
    Params::new(n_eighths, d_eighths, radius).unwrap()
}

#[test]
fn params_accept_positive_radius() {
    let p = params(32, 568, 300);
    assert_eq!(p.n_eighths, 32);
    assert_eq!(p.d_eighths, 568);
    assert_eq!(p.radius, 300);
}

#[test]
fn params_reject_zero_or_negative_radius() {
    assert_eq!(Params::new(32, 568, 0), Err(CurveError::InvalidParameter));
    assert_eq!(Params::new(32, 568, -5), Err(CurveError::InvalidParameter));
}

#[test]
fn factor_is_d_inside_and_one_outside() {
    let p = params(32, 568, 300);
    assert_eq!(p.factor(LineKind::Inner), 568);
    assert_eq!(p.factor(LineKind::Outer), 8);
}

#[test]
fn angle_zero_gives_the_origin() {
    let p = params(16, 312, 350);
    let z = Phase { sweep: 0, lobe: 0 };
    assert_eq!(Phase::at(0, LineKind::Outer, &p), z);
    assert_eq!(Phase::at(0, LineKind::Inner, &p), z);
}

#[test]
fn outer_phase_values() {
    let p = params(32, 568, 300);
    assert_eq!(Phase::at(45, LineKind::Outer, &p), Phase { sweep: 2880, lobe: 11520 });
    assert_eq!(Phase::at(90, LineKind::Outer, &p), Phase { sweep: 5760, lobe: 0 });
    assert_eq!(Phase::at(1, LineKind::Outer, &p), Phase { sweep: 64, lobe: 256 });
}

#[test]
fn inner_phase_values() {
    let p = params(32, 569, 300);
    assert_eq!(Phase::at(1, LineKind::Inner, &p), Phase { sweep: 4552, lobe: 18208 });
    let q = params(32, 568, 300);
    assert_eq!(Phase::at(1, LineKind::Inner, &q), Phase { sweep: 4544, lobe: 18176 });
}

#[test]
fn negative_angles_wrap_round() {
    let p = params(32, -568, 300);
    assert_eq!(Phase::at(-1, LineKind::Outer, &p), Phase { sweep: TURN - 64, lobe: TURN - 256 });
    assert_eq!(Phase::at(1, LineKind::Inner, &p), Phase { sweep: TURN - 4544, lobe: TURN - 18176 });
    assert_eq!(Phase::at(-1, LineKind::Inner, &p), Phase { sweep: 4544, lobe: 18176 });
}

#[test]
fn large_angles_and_factors_do_not_overflow() {
    let p = params(i64::MAX, i64::MIN, 1);
    let r = Phase::at(i64::MAX, LineKind::Inner, &p);
    assert!(r.sweep < TURN && r.lobe < TURN);
}

#[test]
fn periods() {
    assert_eq!(Phase::period(LineKind::Outer, &params(32, 568, 300)), 360);
    assert_eq!(Phase::period(LineKind::Inner, &params(32, 568, 300)), 360);
    assert_eq!(Phase::period(LineKind::Inner, &params(32, 569, 300)), 2880);
    assert_eq!(Phase::period(LineKind::Outer, &params(20, 568, 300)), 720);
}

#[test]
fn curve_repeats_after_one_period() {
    for &(n, d) in &[(32, 568), (32, 569), (20, 313), (16, 312), (3, -7)] {
        let p = params(n, d, 350);
        for kind in [LineKind::Inner, LineKind::Outer] {
            let period = Phase::period(kind, &p) as i64;
            for a in [-400i64, -1, 0, 1, 17, 359, 1000] {
                assert_eq!(Phase::at(a, kind, &p), Phase::at(a + period, kind, &p));
            }
        }
    }
}

#[test]
fn gcd_values() {
    assert_eq!(gcd(23040, 4544), 64);
    assert_eq!(gcd(23040, 0), 23040);
    assert_eq!(gcd(0, 7), 7);
    assert_eq!(gcd(12, 18), 6);
}

#[test]
fn sweep_window_starts_at_frame_modulo_revolution() {
    let w = sweep_window(365, 20);
    assert_eq!(w.len(), 20);
    assert_eq!(w[0], 5);
    assert_eq!(w[19], 24);
    let e = sweep_window(7, 0);
    assert!(e.is_empty());
}

#[test]
fn full_revolution_includes_both_ends() {
    let r = full_revolution();
    assert_eq!(r.len(), 361);
    assert_eq!(r[0], 0);
    assert_eq!(r[360], 360);
}

#[test]
fn generate_curve_keeps_length_and_order() {
    let p = params(32, 568, 300);
    let angles = vec![10i64, 3, -2, 3, 400];
    let c = generate_curve(LineKind::Inner, &angles, &p);
    assert_eq!(c.len(), angles.len());
    for (i, a) in angles.iter().enumerate() {
        assert_eq!(c[i], Phase::at(*a, LineKind::Inner, &p));
    }
    assert!(generate_curve(LineKind::Outer, &Vec::new(), &p).is_empty());
}

#[test]
fn animated_inner_sweep_from_frame_zero() {
    let p = params(32, 568, 300);
    let angles = sweep_window(0, INNER_WIDTH);
    let c = generate_curve(LineKind::Inner, &angles, &p);
    assert_eq!(c.len(), 180);
    assert_eq!(c[0], Phase::at(0, LineKind::Inner, &p));
}

#[test]
fn identical_inputs_give_identical_curves() {
    let p = params(32, 569, 300);
    let angles = sweep_window(42, INNER_WIDTH);
    let a = generate_curve(LineKind::Inner, &angles, &p);
    let b = generate_curve(LineKind::Inner, &angles, &p);
    assert_eq!(a, b);
}

#[test]
fn animation_update_steps_d_and_draws_windows() {
    let mut anim = Animation::new(params(32, 568, 300));
    let f = anim.update(361);
    assert_eq!(anim.params, params(32, 569, 300));
    assert_eq!(f.outer.len(), OUTER_WIDTH as usize);
    assert_eq!(f.inner.len(), INNER_WIDTH as usize);
    assert_eq!(f.outer[0], Phase::at(1, LineKind::Outer, &anim.params));
    assert_eq!(f.inner[179], Phase::at(180, LineKind::Inner, &anim.params));
    anim.update(362);
    assert_eq!(anim.params.d_eighths, 570);
}

#[test]
fn standard_colouring_values() {
    let m = ColorMap::standard();
    assert_eq!(m.intensity(0), 3800);
    assert_eq!(m.intensity(22500), 6400);
    assert_eq!(m.intensity(45000), 9000);
    assert_eq!(m.intensity(1), 3800);
    assert_eq!(m.intensity(35000), 7844);
}

#[test]
fn distances_outside_calibration_are_held_at_its_ends() {
    let m = ColorMap::new(1000, 30000, 1000, 6000).unwrap();
    assert_eq!(m.intensity(0), 1000);
    assert_eq!(m.intensity(1000), 1000);
    assert_eq!(m.intensity(90000), 6000);
    assert_eq!(m.intensity(u64::MAX), 6000);
}

#[test]
fn falling_colouring() {
    let m = ColorMap::new(0, 30000, 6000, 1000).unwrap();
    assert_eq!(m.intensity(0), 6000);
    assert_eq!(m.intensity(1), 6000);
    assert_eq!(m.intensity(15000), 3500);
    assert_eq!(m.intensity(30000), 1000);
}

#[test]
fn colouring_is_monotonic_in_distance() {
    let up = ColorMap::standard();
    let down = ColorMap::new(0, 30000, 6000, 1000).unwrap();
    let mut last_up = 0;
    let mut last_down = LEVEL_MAX;
    for d in (0..50000u64).step_by(37) {
        let u = up.intensity(d);
        let w = down.intensity(d);
        assert!(u >= last_up && u <= LEVEL_MAX);
        assert!(w <= last_down);
        last_up = u;
        last_down = w;
    }
}

#[test]
fn equidistant_points_share_intensity() {
    let m = ColorMap::standard();
    let dist = |x: f64, y: f64| ((x * x + y * y).sqrt() * 100.0).round() as u64;
    let a = dist(90.0, 120.0);
    let b = dist(-150.0, 0.0);
    let c = dist(0.0, -150.0);
    assert_eq!(a, b);
    assert_eq!(m.intensity(a), m.intensity(b));
    assert_eq!(m.intensity(b), m.intensity(c));
}

#[test]
fn colour_map_rejects_bad_calibrations() {
    assert_eq!(ColorMap::new(0, 100, 10001, 0), Err(CurveError::OutOfRangeColor));
    assert_eq!(ColorMap::new(0, 100, 0, 20000), Err(CurveError::OutOfRangeColor));
    assert_eq!(ColorMap::new(100, 100, 0, 100), Err(CurveError::InvalidParameter));
    assert_eq!(ColorMap::new(200, 100, 0, 100), Err(CurveError::InvalidParameter));
    assert!(ColorMap::new(0, 1, LEVEL_MAX, 0).is_ok());
}
