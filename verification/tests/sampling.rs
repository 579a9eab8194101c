use attitude_pipeline::sampler::{isqrt, sample_scenario, scenario_from_draws};

#[test]
fn isqrt_exact_values() {
    assert_eq!(isqrt(0), 0);
    assert_eq!(isqrt(1), 1);
    assert_eq!(isqrt(3), 1);
    assert_eq!(isqrt(4), 2);
    assert_eq!(isqrt(999_999), 999);
    assert_eq!(isqrt(1_000_000), 1000);
    assert_eq!(isqrt(3_000_000_000_000), 1_732_050);
}

#[test]
fn degenerate_zero_draws_give_resting_scenario() {
    // Drawn value 0 everywhere: zero angular velocity, zero orientation,
    // target already dead ahead.
    let s = scenario_from_draws(0, 0, 0, 0, 0, 0, 0, 0, 0);
    assert_eq!(s.ang_vel.x, 0);
    assert_eq!(s.ang_vel.y, 0);
    assert_eq!(s.ang_vel.z, 0);
    assert_eq!(s.orientation.pitch, 0);
    assert_eq!(s.orientation.yaw, 0);
    assert_eq!(s.orientation.roll, 0);
    assert_eq!(s.target_pitch, 0);
    assert_eq!(s.target_yaw, 0);
}

#[test]
fn zero_magnitude_draw_kills_spin() {
    // A nonzero direction draw with a zero magnitude draw still yields a
    // resting vehicle.
    let s = scenario_from_draws(999_999, 500_000, 1, 0, 10, 20, 30, 40, 50);
    assert_eq!(s.ang_vel.x, 0);
    assert_eq!(s.ang_vel.y, 0);
    assert_eq!(s.ang_vel.z, 0);
    assert_eq!(s.orientation.pitch, 10);
    assert_eq!(s.target_yaw, 50);
}

#[test]
fn normalization_matches_integer_formula() {
    let (x0, y0, z0, m0) = (600_000u64, 600_000u64, 600_000u64, 999_999u64);
    let s = scenario_from_draws(x0, y0, z0, m0, 1, 2, 3, 4, 5);
    let m = (m0 * 11) / 2;
    let d = isqrt(x0 * x0 + y0 * y0 + z0 * z0) + 1;
    assert_eq!(s.ang_vel.x, ((x0 * m) / d) as i64);
    assert_eq!(s.ang_vel.y, s.ang_vel.x);
    assert_eq!(s.ang_vel.z, s.ang_vel.x);
}

#[test]
fn sampled_scenarios_stay_in_bounds() {
    // Magnitude within [0, 5.5] units and every Euler angle in [0, pi),
    // whatever the random source yields.
    let mut rng = fastrand::Rng::with_seed(0x5eed);
    for _ in 0..500 {
        let s = sample_scenario(&mut rng);
        let mag_sq = s.ang_vel.x * s.ang_vel.x + s.ang_vel.y * s.ang_vel.y
            + s.ang_vel.z * s.ang_vel.z;
        assert!(mag_sq <= 5_500_000i64 * 5_500_000i64);
        for a in [
            s.orientation.pitch,
            s.orientation.yaw,
            s.orientation.roll,
            s.target_pitch,
            s.target_yaw,
        ] {
            assert!(0 <= a && a < 3_141_592);
        }
    }
}

#[test]
fn sampled_spin_direction_varies() {
    // The draws actually drive the result: two seeds that disagree on the
    // first draws give different angular velocities.
    let mut rng_a = fastrand::Rng::with_seed(1);
    let mut rng_b = fastrand::Rng::with_seed(2);
    let a = sample_scenario(&mut rng_a);
    let b = sample_scenario(&mut rng_b);
    assert_ne!(
        (a.ang_vel.x, a.ang_vel.y, a.ang_vel.z),
        (b.ang_vel.x, b.ang_vel.y, b.ang_vel.z)
    );
}
