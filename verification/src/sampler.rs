//! Random scenario sampling.
//!
//! A scenario is drawn from a source of uniform integers: an angular
//! velocity whose direction comes from normalizing three independent
//! uniforms and whose magnitude is uniform in [0, 5.5] radians per second,
//! an initial orientation with each Euler angle uniform in [0, pi), and a
//! target orientation with pitch and yaw uniform in [0, pi) (the roll
//! target is implicitly upright).  Everything is carried in micro-units.

use vstd::prelude::*;
use vstd::arithmetic::div_mod::{lemma_remainder_lower, lemma_div_nonincreasing};
use vstd::arithmetic::mul::lemma_mul_upper_bound;
use crate::units::{Angles, Vec3Micro, mag_sq, MAX_SPIN, PI_MICRO, UNIT};

verus! {

/// One freshly sampled scenario, consumed immediately by a simulation
/// worker.
#[derive(Clone, Copy, Debug, PartialEq, Eq, Structural)]
pub struct Scenario {
    /// Initial angular velocity, world frame, micro-radians per second.
    pub ang_vel: Vec3Micro,
    /// Initial orientation, micro-radians, each angle in [0, pi).
    pub orientation: Angles,
    /// Target pitch, micro-radians in [0, pi).
    pub target_pitch: i64,
    /// Target yaw, micro-radians in [0, pi).
    pub target_yaw: i64,
}

/// The largest integer whose square is at most `s`.
pub open spec fn sqrt_floor(s: nat) -> nat
    decreases s,
{
    if s == 0 {
        0
    } else {
        let r = sqrt_floor((s - 1) as nat);
        if (r + 1) * (r + 1) <= s {
            r + 1
        } else {
            r
        }
    }
}

/// `sqrt_floor` brackets its argument between consecutive squares.
pub proof fn lemma_sqrt_floor_bounds(s: nat)
    ensures
        sqrt_floor(s) * sqrt_floor(s) <= s,
        s < (sqrt_floor(s) + 1) * (sqrt_floor(s) + 1),
    decreases s,
{
    if s > 0 {
        lemma_sqrt_floor_bounds((s - 1) as nat);
        let r = sqrt_floor((s - 1) as nat);
        assert(sqrt_floor(s) == if (r + 1) * (r + 1) <= s { r + 1 } else { r });
        if (r + 1) * (r + 1) <= s {
            assert(sqrt_floor(s) == r + 1);
            assert(sqrt_floor(s) * sqrt_floor(s) <= s);
            assert((r + 2) * (r + 2) > s) by (nonlinear_arith)
                requires
                    s - 1 < (r + 1) * (r + 1),
            ;
            assert(s < (sqrt_floor(s) + 1) * (sqrt_floor(s) + 1));
        } else {
            assert(sqrt_floor(s) == r);
            assert(sqrt_floor(s) * sqrt_floor(s) <= s);
            assert(s < (sqrt_floor(s) + 1) * (sqrt_floor(s) + 1));
        }
    } else {
        assert(sqrt_floor(s) == 0);
        assert((sqrt_floor(s) + 1) * (sqrt_floor(s) + 1) == 1) by (nonlinear_arith)
            requires
                sqrt_floor(s) == 0,
        ;
    }
}

/// Any integer bracketed between consecutive squares around `s` is the
/// floor square root of `s`.
pub proof fn lemma_sqrt_floor_unique(s: nat, n: nat)
    requires
        n * n <= s,
        s < (n + 1) * (n + 1),
    ensures
        n == sqrt_floor(s),
{
    lemma_sqrt_floor_bounds(s);
    let r = sqrt_floor(s);
    if n < r {
        assert((n + 1) * (n + 1) <= r * r) by (nonlinear_arith)
            requires
                n + 1 <= r,
        ;
    } else if r < n {
        assert((r + 1) * (r + 1) <= n * n) by (nonlinear_arith)
            requires
                r + 1 <= n,
        ;
    }
}

/// Floor square root by bisection.
pub fn isqrt(s: u64) -> (r: u64)
    requires
        s <= 3_000_000_000_000,
    ensures
        r as nat == sqrt_floor(s as nat),
        r * r <= s,
        s < (r + 1) * (r + 1),
        r < 2_000_000,
{
    let mut lo: u64 = 0;
    let mut hi: u64 = 2_000_000;
    while lo + 1 < hi
        invariant
            lo < hi <= 2_000_000,
            (lo as int) * (lo as int) <= s as int,
            (s as int) < (hi as int) * (hi as int),
        decreases hi - lo,
    {
        let mid: u64 = lo + (hi - lo) / 2;
        proof {
            assert(mid * mid <= 2_000_000 * 2_000_000) by (nonlinear_arith)
                requires
                    mid <= 2_000_000,
            ;
        }
        if mid * mid <= s {
            lo = mid;
        } else {
            hi = mid;
        }
    }
    proof {
        lemma_sqrt_floor_unique(s as nat, lo as nat);
    }
    lo
}

/// The sampled magnitude scaled to [0, 5.5) units: eleven halves of the
/// uniform micro-unit draw.
pub open spec fn scaled_mag(m0: int) -> int {
    (m0 * 11) / 2
}

/// One more than the floor length of the raw direction draw; dividing by
/// this keeps the normalized magnitude strictly under the drawn one.
pub open spec fn spin_denom(x0: int, y0: int, z0: int) -> int {
    sqrt_floor(mag_sq(x0, y0, z0) as nat) as int + 1
}

/// One normalized angular-velocity component: the raw draw `c` scaled by
/// the drawn magnitude and divided by the direction length.
pub open spec fn spin_component(c: int, x0: int, y0: int, z0: int, m0: int) -> int {
    (c * scaled_mag(m0)) / spin_denom(x0, y0, z0)
}

/// Normalized components keep the squared magnitude within the square of
/// the drawn one.
proof fn lemma_norm_bound(
    x: int, y: int, z: int, m: int, d: int,
    qx: int, qy: int, qz: int, s: int,
)
    requires
        0 <= x, 0 <= y, 0 <= z, 0 <= m, 1 <= d,
        0 <= qx, 0 <= qy, 0 <= qz,
        qx * d <= x * m,
        qy * d <= y * m,
        qz * d <= z * m,
        s == x * x + y * y + z * z,
        s < d * d,
    ensures
        qx * qx + qy * qy + qz * qz <= m * m,
{
    assert(qx * qx * (d * d) <= (x * x) * (m * m)) by (nonlinear_arith)
        requires
            0 <= qx && 0 <= x && 0 <= m && 1 <= d && qx * d <= x * m,
    ;
    assert(qy * qy * (d * d) <= (y * y) * (m * m)) by (nonlinear_arith)
        requires
            0 <= qy && 0 <= y && 0 <= m && 1 <= d && qy * d <= y * m,
    ;
    assert(qz * qz * (d * d) <= (z * z) * (m * m)) by (nonlinear_arith)
        requires
            0 <= qz && 0 <= z && 0 <= m && 1 <= d && qz * d <= z * m,
    ;
    assert((qx * qx + qy * qy + qz * qz) * (d * d) <= s * (m * m)) by (nonlinear_arith)
        requires
            qx * qx * (d * d) <= (x * x) * (m * m)
                && qy * qy * (d * d) <= (y * y) * (m * m)
                && qz * qz * (d * d) <= (z * z) * (m * m)
                && s == x * x + y * y + z * z,
    ;
    assert(qx * qx + qy * qy + qz * qz <= m * m) by (nonlinear_arith)
        requires
            (qx * qx + qy * qy + qz * qz) * (d * d) <= s * (m * m)
                && s < d * d
                && 0 <= qx * qx + qy * qy + qz * qz
                && 0 <= m * m
                && 1 <= d,
    ;
}

/// Builds the scenario a given tuple of uniform draws determines: the
/// first four draws are micro-unit fractions (direction and magnitude of
/// the angular velocity), the last five are micro-radian angles in
/// [0, pi).  The angular-velocity magnitude never passes the 5.5-unit cap.
pub fn scenario_from_draws(
    x0: u64, y0: u64, z0: u64, m0: u64,
    pitch: u64, yaw: u64, roll: u64,
    target_pitch: u64, target_yaw: u64,
) -> (s: Scenario)
    requires
        x0 < UNIT, y0 < UNIT, z0 < UNIT, m0 < UNIT,
        pitch < PI_MICRO, yaw < PI_MICRO, roll < PI_MICRO,
        target_pitch < PI_MICRO, target_yaw < PI_MICRO,
    ensures
        s.ang_vel.x == spin_component(x0 as int, x0 as int, y0 as int, z0 as int, m0 as int),
        s.ang_vel.y == spin_component(y0 as int, x0 as int, y0 as int, z0 as int, m0 as int),
        s.ang_vel.z == spin_component(z0 as int, x0 as int, y0 as int, z0 as int, m0 as int),
        0 <= s.ang_vel.x, 0 <= s.ang_vel.y, 0 <= s.ang_vel.z,
        mag_sq(s.ang_vel.x as int, s.ang_vel.y as int, s.ang_vel.z as int)
            <= (MAX_SPIN as int) * (MAX_SPIN as int),
        s.orientation == (Angles { pitch: pitch as i64, yaw: yaw as i64, roll: roll as i64 }),
        s.target_pitch == target_pitch as i64,
        s.target_yaw == target_yaw as i64,
{
    proof {
        lemma_mul_upper_bound(x0 as int, 999_999, x0 as int, 999_999);
        lemma_mul_upper_bound(y0 as int, 999_999, y0 as int, 999_999);
        lemma_mul_upper_bound(z0 as int, 999_999, z0 as int, 999_999);
    }
    let ssum: u64 = x0 * x0 + y0 * y0 + z0 * z0;
    let n: u64 = isqrt(ssum);
    let d: u64 = n + 1;
    let m: u64 = (m0 * 11) / 2;
    proof {
        lemma_mul_upper_bound(x0 as int, 1_000_000, m as int, 5_500_000);
        lemma_mul_upper_bound(y0 as int, 1_000_000, m as int, 5_500_000);
        lemma_mul_upper_bound(z0 as int, 1_000_000, m as int, 5_500_000);
    }
    let qx: u64 = (x0 * m) / d;
    let qy: u64 = (y0 * m) / d;
    let qz: u64 = (z0 * m) / d;
    proof {
        lemma_remainder_lower((x0 * m) as int, d as int);
        lemma_remainder_lower((y0 * m) as int, d as int);
        lemma_remainder_lower((z0 * m) as int, d as int);
        lemma_div_nonincreasing((x0 * m) as int, d as int);
        lemma_div_nonincreasing((y0 * m) as int, d as int);
        lemma_div_nonincreasing((z0 * m) as int, d as int);
        lemma_norm_bound(
            x0 as int, y0 as int, z0 as int, m as int, d as int,
            qx as int, qy as int, qz as int, ssum as int,
        );
        lemma_mul_upper_bound(m as int, MAX_SPIN as int, m as int, MAX_SPIN as int);
    }
    Scenario {
        ang_vel: Vec3Micro { x: qx as i64, y: qy as i64, z: qz as i64 },
        orientation: Angles { pitch: pitch as i64, yaw: yaw as i64, roll: roll as i64 },
        target_pitch: target_pitch as i64,
        target_yaw: target_yaw as i64,
    }
}

/// Declares the outside random-source type (fastrand::Rng) so a worker's
/// own generator can cross the library's signatures.
#[verifier::external_type_specification]
#[verifier::external_body]
pub struct ExRng(fastrand::Rng);

/// Relies on fastrand::Rng::u64 over the range 0..n: the generated value
/// lies in the range, and a non-empty range never panics.
#[verifier::external_body]
fn rng_below(rng: &mut fastrand::Rng, n: u64) -> (r: u64)
    requires
        n >= 1,
    ensures
        r < n,
{
    rng.u64(0..n)
}

/// Draws one scenario from the worker's own random source.  Whatever the
/// source yields, the angular-velocity magnitude stays in [0, 5.5] units
/// and every Euler angle stays in [0, pi).
pub fn sample_scenario(rng: &mut fastrand::Rng) -> (s: Scenario)
    ensures
        0 <= s.ang_vel.x, 0 <= s.ang_vel.y, 0 <= s.ang_vel.z,
        mag_sq(s.ang_vel.x as int, s.ang_vel.y as int, s.ang_vel.z as int)
            <= (MAX_SPIN as int) * (MAX_SPIN as int),
        0 <= s.orientation.pitch < PI_MICRO as int,
        0 <= s.orientation.yaw < PI_MICRO as int,
        0 <= s.orientation.roll < PI_MICRO as int,
        0 <= s.target_pitch < PI_MICRO as int,
        0 <= s.target_yaw < PI_MICRO as int,
{
    let x0: u64 = rng_below(rng, UNIT);
    let y0: u64 = rng_below(rng, UNIT);
    let z0: u64 = rng_below(rng, UNIT);
    let m0: u64 = rng_below(rng, UNIT);
    let pitch: u64 = rng_below(rng, PI_MICRO);
    let yaw: u64 = rng_below(rng, PI_MICRO);
    let roll: u64 = rng_below(rng, PI_MICRO);
    let target_pitch: u64 = rng_below(rng, PI_MICRO);
    let target_yaw: u64 = rng_below(rng, PI_MICRO);
    scenario_from_draws(x0, y0, z0, m0, pitch, yaw, roll, target_pitch, target_yaw)
}

} // verus!
