//! One rotating segment under constant angular acceleration, in exact integer
//! arithmetic.
//!
//! Angles are held doubled, so that the half in `0.5 * alpha * dt * dt` never
//! leaves the integers.

use vstd::prelude::*;

verus! {

/// Largest magnitude of an angular velocity that [`advance_segment`] accepts.
pub const VELOCITY_LIMIT: i128 = 0x1_0000_0000_0000_0000;

/// Largest magnitude of a doubled angle that [`advance_segment`] accepts.
pub const ANGLE_LIMIT: i128 = 0x10_0000_0000_0000_0000_0000_0000;

/// Longest elapsed time for which the closed forms are known to stay within
/// [`VELOCITY_LIMIT`] and [`ANGLE_LIMIT`].
pub const ELAPSED_LIMIT: i128 = 0x1_0000_0000;

/// Twice the angle of a segment that started at `theta0` with velocity
/// `omega0`, after `elapsed` time under acceleration `alpha`:
/// `2 * (theta0 + omega0 * t + alpha * t * t / 2)`.
pub open spec fn doubled_angle_at(theta0: int, omega0: int, alpha: int, elapsed: int) -> int {
    2 * theta0 + 2 * (omega0 * elapsed) + (alpha * elapsed) * elapsed
}

/// The angular velocity of a segment that started with velocity `omega0`,
/// after `elapsed` time under acceleration `alpha`.
pub open spec fn velocity_at(omega0: int, alpha: int, elapsed: int) -> int {
    omega0 + alpha * elapsed
}

/// True when both values are small enough to be advanced by one more step.
pub open spec fn segment_within_limits(doubled_angle: int, velocity: int) -> bool {
    &&& -ANGLE_LIMIT <= doubled_angle <= ANGLE_LIMIT
    &&& -VELOCITY_LIMIT <= velocity <= VELOCITY_LIMIT
}

/// One step of the integrator on one segment: the angle moves by the current
/// velocity and half the acceleration, then the velocity moves by the
/// acceleration. Returns the new doubled angle and the new velocity.
pub fn advance_segment(doubled_angle: i128, velocity: i128, alpha: i32, dt: i32) -> (next: (
    i128,
    i128,
))
    requires
        segment_within_limits(doubled_angle as int, velocity as int),
    ensures
        next.0 == doubled_angle + 2 * (velocity * dt) + (alpha * dt) * dt,
        next.1 == velocity + alpha * dt,
{
    let a: i128 = alpha as i128;
    let d: i128 = dt as i128;
    assert(-0x8000_0000_0000_0000_0000_0000 <= velocity * d <= 0x8000_0000_0000_0000_0000_0000)
        by (nonlinear_arith)
        requires
            -0x1_0000_0000_0000_0000 <= velocity <= 0x1_0000_0000_0000_0000,
            -0x8000_0000 <= d <= 0x8000_0000,
    ;
    assert(-0x4000_0000_0000_0000 <= a * d <= 0x4000_0000_0000_0000) by (nonlinear_arith)
        requires
            -0x8000_0000 <= a <= 0x8000_0000,
            -0x8000_0000 <= d <= 0x8000_0000,
    ;
    let drift: i128 = velocity * d;
    let gain: i128 = a * d;
    assert(-0x2000_0000_0000_0000_0000_0000 <= gain * d <= 0x2000_0000_0000_0000_0000_0000)
        by (nonlinear_arith)
        requires
            -0x4000_0000_0000_0000 <= gain <= 0x4000_0000_0000_0000,
            -0x8000_0000 <= d <= 0x8000_0000,
    ;
    let curve: i128 = gain * d;
    (doubled_angle + 2 * drift + curve, velocity + gain)
}

/// Stepping the closed form: taking one integrator step of length `dt` from
/// the closed-form state at `elapsed` gives the closed-form state at
/// `elapsed + dt`. So the step-by-step integration and the closed form
/// `theta(t) = theta0 + omega0 * t + alpha * t * t / 2`, `omega(t) = omega0 +
/// alpha * t` agree at every step.
pub proof fn lemma_closed_form_step(theta0: int, omega0: int, alpha: int, elapsed: int, dt: int)
    ensures
        doubled_angle_at(theta0, omega0, alpha, elapsed + dt) == doubled_angle_at(
            theta0,
            omega0,
            alpha,
            elapsed,
        ) + 2 * (velocity_at(omega0, alpha, elapsed) * dt) + (alpha * dt) * dt,
        velocity_at(omega0, alpha, elapsed + dt) == velocity_at(omega0, alpha, elapsed) + alpha
            * dt,
{
    assert(alpha * (elapsed + dt) == alpha * elapsed + alpha * dt) by (nonlinear_arith);
    assert(omega0 * (elapsed + dt) == omega0 * elapsed + omega0 * dt) by (nonlinear_arith);
    assert((alpha * (elapsed + dt)) * (elapsed + dt) == (alpha * elapsed) * elapsed + 2 * ((alpha
        * elapsed) * dt) + (alpha * dt) * dt) by (nonlinear_arith);
    assert((omega0 + alpha * elapsed) * dt == omega0 * dt + (alpha * elapsed) * dt)
        by (nonlinear_arith);
}

/// At no elapsed time the closed form is the initial state.
pub proof fn lemma_closed_form_start(theta0: int, omega0: int, alpha: int)
    ensures
        doubled_angle_at(theta0, omega0, alpha, 0) == 2 * theta0,
        velocity_at(omega0, alpha, 0) == omega0,
{
    assert(alpha * 0 == 0) by (nonlinear_arith);
    assert(omega0 * 0 == 0) by (nonlinear_arith);
    assert((alpha * 0) * 0 == 0) by (nonlinear_arith);
}

/// With 32-bit parameters and an elapsed time up to [`ELAPSED_LIMIT`], the
/// closed-form state can be advanced once more without overflow.
pub proof fn lemma_closed_form_within_limits(theta0: int, omega0: int, alpha: int, elapsed: int)
    requires
        -0x8000_0000 <= theta0 <= 0x8000_0000,
        -0x8000_0000 <= omega0 <= 0x8000_0000,
        -0x8000_0000 <= alpha <= 0x8000_0000,
        0 <= elapsed <= ELAPSED_LIMIT,
    ensures
        segment_within_limits(
            doubled_angle_at(theta0, omega0, alpha, elapsed),
            velocity_at(omega0, alpha, elapsed),
        ),
{
    let gain = alpha * elapsed;
    assert(-0x8000_0000_0000_0000 <= gain <= 0x8000_0000_0000_0000) by (nonlinear_arith)
        requires
            gain == alpha * elapsed,
            -0x8000_0000 <= alpha <= 0x8000_0000,
            0 <= elapsed <= 0x1_0000_0000,
    ;
    assert(-0x8000_0000_0000_0000 <= omega0 * elapsed <= 0x8000_0000_0000_0000)
        by (nonlinear_arith)
        requires
            -0x8000_0000 <= omega0 <= 0x8000_0000,
            0 <= elapsed <= 0x1_0000_0000,
    ;
    assert(-0x8000_0000_0000_0000_0000_0000 <= gain * elapsed <= 0x8000_0000_0000_0000_0000_0000)
        by (nonlinear_arith)
        requires
            -0x8000_0000_0000_0000 <= gain <= 0x8000_0000_0000_0000,
            0 <= elapsed <= 0x1_0000_0000,
    ;
}

} // verus!
