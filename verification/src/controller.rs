//! The per-tick attitude control law and its termination policy.
//!
//! Each axis is driven independently by a cubic proportional-derivative law:
//! the command is `((K * (angle + rate_scaled))^3) / D`, clamped into the
//! actuator range [-1, 1].  Cubing sharpens the response near convergence
//! while the clamp bounds actuator saturation.  The loop around the law is a
//! two-state machine: it keeps RUNNING until the orientation error drops
//! under the convergence threshold (success) or the step cap is exceeded
//! (failure, the scenario is dropped).

use vstd::prelude::*;
use vstd::arithmetic::div_mod::{
    lemma_div_is_ordered, lemma_div_is_ordered_by_denominator, lemma_div_multiples_vanish,
};
use crate::units::{Angles, Vec3Micro, clamp_i, CONVERGENCE_MICRO, STEP_CAP, UNIT};

verus! {

/// Proportional gain of the control law.
pub const PD_GAIN: i64 = 35;

/// Divisor applied to the cubed term, in micro-unit fixed point: the real
/// damping constant 10, times the square of the scale (cubing a micro-unit
/// value brings the scale in twice more).
pub const CUBE_DIV: u64 = 10 * 1_000_000 * 1_000_000;

/// Any combined input at or beyond this magnitude (in micro-radians) drives
/// the cubed term past the clamp bound, so the command saturates.
pub const SAT_INPUT: i64 = 62_000;

/// x cubed.
pub open spec fn cube(x: int) -> int {
    x * x * x
}

/// The raw (unclamped) control law on the combined angle-plus-rate input
/// `u`, in micro-units; division rounds the magnitude toward zero.
pub open spec fn pd_raw(u: int) -> int {
    if u >= 0 {
        cube(PD_GAIN * u) / (CUBE_DIV as int)
    } else {
        -(cube(PD_GAIN * -u) / (CUBE_DIV as int))
    }
}

/// The control law with the actuator clamp applied.
pub open spec fn pd_law(u: int) -> int {
    clamp_i(pd_raw(u), -(UNIT as int), UNIT as int)
}

/// Cubing is monotone on non-negative inputs.
proof fn lemma_cube_mono(a: int, b: int)
    by (nonlinear_arith)
    requires
        0 <= a <= b,
    ensures
        cube(a) <= cube(b),
{
}

/// At or beyond the saturation threshold the law pins the command to full
/// deflection.
proof fn lemma_pd_saturates(u: int)
    requires
        u >= SAT_INPUT,
    ensures
        pd_law(u) == UNIT as int,
        pd_law(-u) == -(UNIT as int),
{
    lemma_cube_mono(PD_GAIN as int * SAT_INPUT as int, PD_GAIN as int * u);
    assert(cube(2_170_000int) == 10_218_313_000_000_000_000int);
    lemma_div_multiples_vanish(1_000_000int, CUBE_DIV as int);
    lemma_div_is_ordered(
        (CUBE_DIV as int) * 1_000_000int,
        cube(PD_GAIN as int * u),
        CUBE_DIV as int,
    );
}

/// One axis of the cubic proportional-derivative law: the command for a
/// target angle and a scaled angular rate, both in micro-units.  The result
/// always lies in the actuator range [-UNIT, UNIT].
pub fn control_pd(angle: i64, rate: i64) -> (cmd: i64)
    requires
        -4_000_000_000_000_000_000 <= angle + rate <= 4_000_000_000_000_000_000,
    ensures
        cmd == pd_law(angle + rate),
        -(UNIT as int) <= cmd <= UNIT as int,
{
    let u: i64 = angle + rate;
    if u >= SAT_INPUT {
        proof {
            lemma_pd_saturates(u as int);
        }
        1_000_000
    } else if u <= -SAT_INPUT {
        proof {
            lemma_pd_saturates(-(u as int));
        }
        -1_000_000
    } else {
        let mag: u64 = if u >= 0 { u as u64 } else { (-u) as u64 };
        let s: u64 = (PD_GAIN as u64) * mag;
        proof {
            assert(s * s <= 2_170_000 * 2_170_000) by (nonlinear_arith)
                requires
                    s <= 2_170_000,
            ;
            assert(s * s * s <= 2_170_000 * 2_170_000 * 2_170_000) by (nonlinear_arith)
                requires
                    s <= 2_170_000 && s * s <= 2_170_000 * 2_170_000,
            ;
        }
        let c: u64 = s * s * s;
        let q: u64 = c / CUBE_DIV;
        let m: i64 = if q > 1_000_000 { 1_000_000 } else { q as i64 };
        if u >= 0 { m } else { -m }
    }
}

/// The three per-axis commands for one tick.  Fields are micro-units in
/// [-UNIT, UNIT].
#[derive(Clone, Copy, Debug, PartialEq, Eq, Structural)]
pub struct Controls {
    pub pitch: i64,
    pub yaw: i64,
    pub roll: i64,
}

/// An angular-rate component divided by an axis normalization constant
/// `den` tenths, rounding the magnitude toward zero.
pub open spec fn rate_scaled(v: int, den: int) -> int {
    if v >= 0 {
        (v * 10) / den
    } else {
        -((-v * 10) / den)
    }
}

/// Divides a micro-unit rate `v` by `den` tenths, rounding toward zero.
fn scale_rate(v: i64, den: u64) -> (r: i64)
    requires
        10 <= den <= 100,
        -900_000_000_000_000_000 <= v <= 900_000_000_000_000_000,
    ensures
        r == rate_scaled(v as int, den as int),
        -900_000_000_000_000_000 <= r <= 900_000_000_000_000_000,
{
    if v >= 0 {
        let x: u64 = (v as u64) * 10;
        let q: u64 = x / den;
        proof {
            lemma_div_is_ordered_by_denominator(x as int, 10, den as int);
            lemma_div_multiples_vanish(v as int, 10);
        }
        q as i64
    } else {
        let x: u64 = ((-v) as u64) * 10;
        let q: u64 = x / den;
        proof {
            lemma_div_is_ordered_by_denominator(x as int, 10, den as int);
            lemma_div_multiples_vanish(-(v as int), 10);
        }
        -(q as i64)
    }
}

/// The full per-tick actuator law: per-axis cubic PD on the local-frame
/// target angles and the local-frame angular velocity.  The pitch rate is
/// normalized by 3.4, the yaw rate by 5.0 with its sign inverted, and the
/// roll rate by 3.1.
pub fn default_pd(target: Angles, local_ang_vel: Vec3Micro) -> (c: Controls)
    requires
        -100_000_000_000 <= target.pitch <= 100_000_000_000,
        -100_000_000_000 <= target.yaw <= 100_000_000_000,
        -100_000_000_000 <= target.roll <= 100_000_000_000,
        -900_000_000_000_000_000 <= local_ang_vel.x <= 900_000_000_000_000_000,
        -900_000_000_000_000_000 <= local_ang_vel.y <= 900_000_000_000_000_000,
        -900_000_000_000_000_000 <= local_ang_vel.z <= 900_000_000_000_000_000,
    ensures
        c.pitch == pd_law(target.pitch + rate_scaled(local_ang_vel.y as int, 34)),
        c.yaw == pd_law(target.yaw + rate_scaled(-(local_ang_vel.z as int), 50)),
        c.roll == pd_law(target.roll + rate_scaled(local_ang_vel.x as int, 31)),
        -(UNIT as int) <= c.pitch <= UNIT as int,
        -(UNIT as int) <= c.yaw <= UNIT as int,
        -(UNIT as int) <= c.roll <= UNIT as int,
{
    let pitch_rate: i64 = scale_rate(local_ang_vel.y, 34);
    let yaw_rate: i64 = scale_rate(-local_ang_vel.z, 50);
    let roll_rate: i64 = scale_rate(local_ang_vel.x, 31);
    Controls {
        pitch: control_pd(target.pitch, pitch_rate),
        yaw: control_pd(target.yaw, yaw_rate),
        roll: control_pd(target.roll, roll_rate),
    }
}

/// What the termination policy says about the current tick.
#[derive(Clone, Copy, Debug, PartialEq, Eq, Structural)]
pub enum TickOutcome {
    /// The orientation error is under the convergence threshold: success.
    Converged,
    /// The step cap was reached without convergence: the scenario is
    /// dropped.
    Abandoned,
    /// Keep running: command the actuators and advance one tick.
    Running,
}

/// The convergence/termination state machine of one scenario: the number of
/// simulation ticks taken so far.
#[derive(Clone, Copy, Debug, PartialEq, Eq, Structural)]
pub struct ControlLoop {
    pub steps: u32,
}

impl ControlLoop {
    /// The step counter never passes the cap.
    pub open spec fn wf(self) -> bool {
        self.steps <= STEP_CAP
    }

    /// A fresh loop, entered immediately after a scenario is committed.
    pub fn new() -> (r: ControlLoop)
        ensures
            r.wf(),
            r.steps == 0,
    {
        ControlLoop { steps: 0 }
    }

    /// The per-tick decision, from the current orientation error in
    /// micro-radians: convergence is checked first, then the step cap.
    pub fn decide(&self, error_micro: i64) -> (o: TickOutcome)
        requires
            self.wf(),
        ensures
            (o == TickOutcome::Converged) <==> error_micro < CONVERGENCE_MICRO,
            (o == TickOutcome::Abandoned) <==> (error_micro >= CONVERGENCE_MICRO
                && self.steps == STEP_CAP),
            (o == TickOutcome::Running) <==> (error_micro >= CONVERGENCE_MICRO
                && self.steps < STEP_CAP),
    {
        if error_micro < CONVERGENCE_MICRO {
            TickOutcome::Converged
        } else if self.steps >= STEP_CAP {
            TickOutcome::Abandoned
        } else {
            TickOutcome::Running
        }
    }

    /// Counts the simulation tick taken after a `Running` decision.
    pub fn advance(&mut self)
        requires
            old(self).steps < STEP_CAP,
        ensures
            final(self).steps == old(self).steps + 1,
            final(self).wf(),
    {
        self.steps = self.steps + 1;
    }

    /// The tick count a successful scenario records: at least one tick, so
    /// the recorded elapsed time lies in (0, STEP_CAP / TICK_RATE] seconds
    /// even when the very first convergence check succeeds.
    pub fn elapsed_ticks(&self) -> (t: u32)
        requires
            self.wf(),
        ensures
            t == if self.steps == 0 { 1int } else { self.steps as int },
            1 <= t <= STEP_CAP,
    {
        if self.steps == 0 { 1 } else { self.steps }
    }
}

/// The target orientation re-expressed relative to the vehicle's initial
/// orientation: the drawn target pitch and yaw minus the initial angles,
/// with the implicit upright roll target making the relative roll the
/// negated initial roll.
pub fn relative_target(orientation: Angles, target_pitch: i64, target_yaw: i64) -> (r: Angles)
    requires
        -4_000_000_000_000_000_000 <= orientation.pitch <= 4_000_000_000_000_000_000,
        -4_000_000_000_000_000_000 <= orientation.yaw <= 4_000_000_000_000_000_000,
        -4_000_000_000_000_000_000 <= orientation.roll <= 4_000_000_000_000_000_000,
        -4_000_000_000_000_000_000 <= target_pitch <= 4_000_000_000_000_000_000,
        -4_000_000_000_000_000_000 <= target_yaw <= 4_000_000_000_000_000_000,
    ensures
        r.pitch == target_pitch - orientation.pitch,
        r.yaw == target_yaw - orientation.yaw,
        r.roll == -orientation.roll,
{
    Angles {
        pitch: target_pitch - orientation.pitch,
        yaw: target_yaw - orientation.yaw,
        roll: -orientation.roll,
    }
}

} // verus!
