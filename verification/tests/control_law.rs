use attitude_pipeline::controller::{
    control_pd, default_pd, relative_target, ControlLoop, TickOutcome,
};
use attitude_pipeline::units::{Angles, Vec3Micro};

#[test]
fn control_pd_zero_input_zero_command() {
    assert_eq!(control_pd(0, 0), 0);
}

#[test]
fn control_pd_exact_small_value() {
    // 0.01 rad: (35 * 0.01)^3 / 10 = 0.0042875, i.e. 4287 micro after
    // truncation toward zero.
    assert_eq!(control_pd(10_000, 0), 4287);
    assert_eq!(control_pd(0, 10_000), 4287);
    assert_eq!(control_pd(-10_000, 0), -4287);
}

#[test]
fn control_pd_saturates_at_large_error() {
    assert_eq!(control_pd(62_000, 0), 1_000_000);
    assert_eq!(control_pd(-62_000, 0), -1_000_000);
    assert_eq!(control_pd(3_141_592, 0), 1_000_000);
    assert_eq!(control_pd(30_000, 40_000), 1_000_000);
}

#[test]
fn control_pd_always_in_actuator_range() {
    let samples: [i64; 9] = [
        -3_141_592, -100_000, -61_999, -1, 0, 1, 61_999, 100_000, 3_141_592,
    ];
    for &a in samples.iter() {
        for &r in samples.iter() {
            let c = control_pd(a, r);
            assert!(-1_000_000 <= c && c <= 1_000_000);
        }
    }
}

#[test]
fn quarter_turn_yaw_commands_stay_clamped() {
    // A pi/2 yaw-only rotation with zero angular velocity: full yaw
    // deflection, no pitch or roll command, everything within [-1, 1].
    let target = Angles { pitch: 0, yaw: 1_570_796, roll: 0 };
    let still = Vec3Micro { x: 0, y: 0, z: 0 };
    let c = default_pd(target, still);
    assert_eq!(c.pitch, 0);
    assert_eq!(c.yaw, 1_000_000);
    assert_eq!(c.roll, 0);
    assert!(-1_000_000 <= c.yaw && c.yaw <= 1_000_000);
}

#[test]
fn default_pd_applies_axis_normalization() {
    // Pure rates, no angle error: pitch uses y/3.4, yaw uses -z/5.0, roll
    // uses x/3.1, each fed through the cubic law.
    let target = Angles { pitch: 0, yaw: 0, roll: 0 };
    let spinning = Vec3Micro { x: 31_000, y: 34_000, z: 50_000 };
    let c = default_pd(target, spinning);
    assert_eq!(c.pitch, control_pd(0, 10_000));
    assert_eq!(c.yaw, control_pd(0, -10_000));
    assert_eq!(c.roll, control_pd(0, 10_000));
}

#[test]
fn aligned_scenario_terminates_first_tick() {
    // Zero orientation error at the very first check: success before any
    // tick, recorded as one tick period of elapsed time.
    let run = ControlLoop::new();
    assert_eq!(run.decide(0), TickOutcome::Converged);
    assert_eq!(run.elapsed_ticks(), 1);
}

#[test]
fn convergence_checked_before_step_cap() {
    let mut run = ControlLoop::new();
    for _ in 0..3600 {
        assert_eq!(run.decide(200_000), TickOutcome::Running);
        run.advance();
    }
    // At the cap, a converged error still wins; otherwise the scenario is
    // abandoned.
    assert_eq!(run.decide(99_999), TickOutcome::Converged);
    assert_eq!(run.decide(100_000), TickOutcome::Abandoned);
    assert_eq!(run.elapsed_ticks(), 3600);
}

#[test]
fn elapsed_ticks_counts_steps() {
    let mut run = ControlLoop::new();
    for _ in 0..7 {
        run.advance();
    }
    assert_eq!(run.elapsed_ticks(), 7);
}

#[test]
fn relative_target_subtracts_initial_orientation() {
    let orientation = Angles { pitch: 100, yaw: 200, roll: 300 };
    let rel = relative_target(orientation, 400, 500);
    assert_eq!(rel.pitch, 300);
    assert_eq!(rel.yaw, 300);
    assert_eq!(rel.roll, -300);
}
