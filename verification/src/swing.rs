//! The swing: three segments stepped in lockstep until the release instant.

use crate::kinematics::{
    advance_segment, doubled_angle_at, lemma_closed_form_start, lemma_closed_form_step,
    lemma_closed_form_within_limits, segment_within_limits, velocity_at, ANGLE_LIMIT,
    ELAPSED_LIMIT, VELOCITY_LIMIT,
};
use vstd::math::abs;
use vstd::prelude::*;

verus! {

/// Configuration of one swing. Angles, times and lengths are whole numbers of
/// whatever units the caller picks; velocities are angle units per time unit
/// and accelerations are angle units per time unit squared.
#[derive(Clone, Copy, Debug, PartialEq, Eq, Structural)]
pub struct SwingParameters {
    /// Initial hip angle.
    pub theta_h0: i32,
    /// Initial hip angular velocity.
    pub omega_h: i32,
    /// Hip angular acceleration.
    pub alpha_h: i32,
    /// Initial shoulder angle.
    pub theta_s0: i32,
    /// Initial shoulder angular velocity.
    pub omega_s: i32,
    /// Shoulder angular acceleration.
    pub alpha_s: i32,
    /// Initial arm angle.
    pub phi_a0: i32,
    /// Initial arm angular velocity.
    pub omega_a: i32,
    /// Arm angular acceleration.
    pub alpha_a: i32,
    /// Effective rotation radius: turns the summed angular velocity into the
    /// linear speed of the clubhead.
    pub rc: i32,
    /// Integration time step; must be positive.
    pub dt: i32,
    /// Duration of the swing before release.
    pub simulation_time: i32,
}

/// The launch conditions captured at the release instant.
#[derive(Clone, Copy, Debug, PartialEq, Eq, Structural)]
pub struct Launch {
    /// Twice the launch angle: the sum of the three segment angles, doubled.
    pub doubled_angle: i128,
    /// Clubhead speed: the sum of the three angular velocities times `rc`.
    pub speed: i128,
}

/// Angles (doubled) and angular velocities of the three segments during a run.
#[derive(Clone, Copy, Debug, PartialEq, Eq, Structural)]
pub struct SimulationState {
    /// Twice the hip angle.
    pub doubled_theta_h: i128,
    /// Twice the shoulder angle.
    pub doubled_theta_s: i128,
    /// Twice the arm angle.
    pub doubled_phi_a: i128,
    /// Hip angular velocity.
    pub omega_h: i128,
    /// Shoulder angular velocity.
    pub omega_s: i128,
    /// Arm angular velocity.
    pub omega_a: i128,
}

impl SwingParameters {
    /// The step at time `step * dt` is simulated: its time does not exceed
    /// `simulation_time`.
    pub open spec fn in_window(&self, step: int) -> bool {
        step * self.dt <= self.simulation_time
    }

    /// The step at time `step * dt` is a release instant: one more `dt` would
    /// pass `simulation_time`.
    pub open spec fn releases_at(&self, step: int) -> bool {
        step * self.dt + self.dt > self.simulation_time
    }

    /// Index of the step at which the swing releases, for a swing of
    /// non-negative duration.
    pub open spec fn release_step(&self) -> int {
        self.simulation_time / self.dt
    }

    /// Time that the segments have moved for when the release is captured: the
    /// release step and every step before it have been applied.
    pub open spec fn release_time(&self) -> int {
        (self.release_step() + 1) * self.dt
    }

    /// Sum of the three angular velocities after `elapsed` time.
    pub open spec fn summed_velocity(&self, elapsed: int) -> int {
        velocity_at(self.omega_h as int, self.alpha_h as int, elapsed) + velocity_at(
            self.omega_s as int,
            self.alpha_s as int,
            elapsed,
        ) + velocity_at(self.omega_a as int, self.alpha_a as int, elapsed)
    }

    /// Twice the launch angle after `elapsed` time: the doubled sum of the
    /// three segment angles.
    pub open spec fn doubled_launch_angle(&self, elapsed: int) -> int {
        doubled_angle_at(self.theta_h0 as int, self.omega_h as int, self.alpha_h as int, elapsed)
            + doubled_angle_at(
            self.theta_s0 as int,
            self.omega_s as int,
            self.alpha_s as int,
            elapsed,
        ) + doubled_angle_at(self.phi_a0 as int, self.omega_a as int, self.alpha_a as int, elapsed)
    }

    /// Clubhead speed after `elapsed` time.
    pub open spec fn clubhead_speed(&self, elapsed: int) -> int {
        self.summed_velocity(elapsed) * self.rc
    }

    /// The swing starts at rest in the zero position and nothing accelerates it.
    pub open spec fn is_still(&self) -> bool {
        &&& self.theta_h0 == 0 && self.omega_h == 0 && self.alpha_h == 0
        &&& self.theta_s0 == 0 && self.omega_s == 0 && self.alpha_s == 0
        &&& self.phi_a0 == 0 && self.omega_a == 0 && self.alpha_a == 0
    }
}

impl SimulationState {
    /// The state is the closed-form state of `params` after `elapsed` time.
    pub open spec fn is_at(&self, params: SwingParameters, elapsed: int) -> bool {
        &&& self.doubled_theta_h == doubled_angle_at(
            params.theta_h0 as int,
            params.omega_h as int,
            params.alpha_h as int,
            elapsed,
        )
        &&& self.doubled_theta_s == doubled_angle_at(
            params.theta_s0 as int,
            params.omega_s as int,
            params.alpha_s as int,
            elapsed,
        )
        &&& self.doubled_phi_a == doubled_angle_at(
            params.phi_a0 as int,
            params.omega_a as int,
            params.alpha_a as int,
            elapsed,
        )
        &&& self.omega_h == velocity_at(params.omega_h as int, params.alpha_h as int, elapsed)
        &&& self.omega_s == velocity_at(params.omega_s as int, params.alpha_s as int, elapsed)
        &&& self.omega_a == velocity_at(params.omega_a as int, params.alpha_a as int, elapsed)
    }

    /// Every segment is small enough to be advanced by one more step.
    pub open spec fn within_limits(&self) -> bool {
        &&& segment_within_limits(self.doubled_theta_h as int, self.omega_h as int)
        &&& segment_within_limits(self.doubled_theta_s as int, self.omega_s as int)
        &&& segment_within_limits(self.doubled_phi_a as int, self.omega_a as int)
    }

    /// Tells whether the state is small enough to be advanced or launched.
    pub fn can_advance(&self) -> (ok: bool)
        ensures
            ok == self.within_limits(),
    {
        -ANGLE_LIMIT <= self.doubled_theta_h && self.doubled_theta_h <= ANGLE_LIMIT
            && -ANGLE_LIMIT <= self.doubled_theta_s && self.doubled_theta_s <= ANGLE_LIMIT
            && -ANGLE_LIMIT <= self.doubled_phi_a && self.doubled_phi_a <= ANGLE_LIMIT
            && -VELOCITY_LIMIT <= self.omega_h && self.omega_h <= VELOCITY_LIMIT
            && -VELOCITY_LIMIT <= self.omega_s && self.omega_s <= VELOCITY_LIMIT
            && -VELOCITY_LIMIT <= self.omega_a && self.omega_a <= VELOCITY_LIMIT
    }

    /// The state before the first step: the initial angles and velocities.
    pub fn initial(params: &SwingParameters) -> (state: SimulationState)
        ensures
            state.doubled_theta_h == 2 * params.theta_h0,
            state.doubled_theta_s == 2 * params.theta_s0,
            state.doubled_phi_a == 2 * params.phi_a0,
            state.omega_h == params.omega_h,
            state.omega_s == params.omega_s,
            state.omega_a == params.omega_a,
            state.is_at(*params, 0),
            state.within_limits(),
    {
        proof {
            lemma_closed_form_start(
                params.theta_h0 as int,
                params.omega_h as int,
                params.alpha_h as int,
            );
            lemma_closed_form_start(
                params.theta_s0 as int,
                params.omega_s as int,
                params.alpha_s as int,
            );
            lemma_closed_form_start(
                params.phi_a0 as int,
                params.omega_a as int,
                params.alpha_a as int,
            );
        }
        SimulationState {
            doubled_theta_h: 2 * (params.theta_h0 as i128),
            doubled_theta_s: 2 * (params.theta_s0 as i128),
            doubled_phi_a: 2 * (params.phi_a0 as i128),
            omega_h: params.omega_h as i128,
            omega_s: params.omega_s as i128,
            omega_a: params.omega_a as i128,
        }
    }

    /// Advances all three segments by one time step: each angle by its current
    /// velocity and half its acceleration, then each velocity by its
    /// acceleration.
    pub fn advance(&mut self, params: &SwingParameters)
        requires
            old(self).within_limits(),
        ensures
            final(self).doubled_theta_h == old(self).doubled_theta_h + 2 * (old(self).omega_h
                * params.dt) + (params.alpha_h * params.dt) * params.dt,
            final(self).doubled_theta_s == old(self).doubled_theta_s + 2 * (old(self).omega_s
                * params.dt) + (params.alpha_s * params.dt) * params.dt,
            final(self).doubled_phi_a == old(self).doubled_phi_a + 2 * (old(self).omega_a
                * params.dt) + (params.alpha_a * params.dt) * params.dt,
            final(self).omega_h == old(self).omega_h + params.alpha_h * params.dt,
            final(self).omega_s == old(self).omega_s + params.alpha_s * params.dt,
            final(self).omega_a == old(self).omega_a + params.alpha_a * params.dt,
    {
        let hip = advance_segment(self.doubled_theta_h, self.omega_h, params.alpha_h, params.dt);
        let shoulder = advance_segment(
            self.doubled_theta_s,
            self.omega_s,
            params.alpha_s,
            params.dt,
        );
        let arm = advance_segment(self.doubled_phi_a, self.omega_a, params.alpha_a, params.dt);
        *self = SimulationState {
            doubled_theta_h: hip.0,
            doubled_theta_s: shoulder.0,
            doubled_phi_a: arm.0,
            omega_h: hip.1,
            omega_s: shoulder.1,
            omega_a: arm.1,
        };
    }

    /// The launch conditions that this state gives with rotation radius `rc`.
    pub fn launch(&self, rc: i32) -> (launch: Launch)
        requires
            self.within_limits(),
        ensures
            launch.doubled_angle == self.doubled_theta_h + self.doubled_theta_s
                + self.doubled_phi_a,
            launch.speed == (self.omega_h + self.omega_s + self.omega_a) * rc,
    {
        let summed: i128 = self.omega_h + self.omega_s + self.omega_a;
        let radius: i128 = rc as i128;
        assert(-0x2_0000_0000_0000_0000_0000_0000 <= summed * radius
            <= 0x2_0000_0000_0000_0000_0000_0000) by (nonlinear_arith)
            requires
                -0x4_0000_0000_0000_0000 <= summed <= 0x4_0000_0000_0000_0000,
                -0x8000_0000 <= radius <= 0x8000_0000,
        ;
        Launch {
            doubled_angle: self.doubled_theta_h + self.doubled_theta_s + self.doubled_phi_a,
            speed: summed * radius,
        }
    }
}

/// Advancing the closed-form state at `elapsed` by one step gives the
/// closed-form state at `elapsed + dt`, for all three segments at once.
pub proof fn lemma_advance_follows_closed_form(
    before: SimulationState,
    after: SimulationState,
    params: SwingParameters,
    elapsed: int,
)
    requires
        before.is_at(params, elapsed),
        after.doubled_theta_h == before.doubled_theta_h + 2 * (before.omega_h * params.dt) + (
        params.alpha_h * params.dt) * params.dt,
        after.doubled_theta_s == before.doubled_theta_s + 2 * (before.omega_s * params.dt) + (
        params.alpha_s * params.dt) * params.dt,
        after.doubled_phi_a == before.doubled_phi_a + 2 * (before.omega_a * params.dt) + (
        params.alpha_a * params.dt) * params.dt,
        after.omega_h == before.omega_h + params.alpha_h * params.dt,
        after.omega_s == before.omega_s + params.alpha_s * params.dt,
        after.omega_a == before.omega_a + params.alpha_a * params.dt,
    ensures
        after.is_at(params, elapsed + params.dt),
{
    lemma_closed_form_step(
        params.theta_h0 as int,
        params.omega_h as int,
        params.alpha_h as int,
        elapsed,
        params.dt as int,
    );
    lemma_closed_form_step(
        params.theta_s0 as int,
        params.omega_s as int,
        params.alpha_s as int,
        elapsed,
        params.dt as int,
    );
    lemma_closed_form_step(
        params.phi_a0 as int,
        params.omega_a as int,
        params.alpha_a as int,
        elapsed,
        params.dt as int,
    );
}

/// A closed-form state within the elapsed-time limit can be advanced and
/// launched without overflow.
pub proof fn lemma_state_within_limits(
    state: SimulationState,
    params: SwingParameters,
    elapsed: int,
)
    requires
        state.is_at(params, elapsed),
        0 <= elapsed <= ELAPSED_LIMIT,
    ensures
        state.within_limits(),
{
    lemma_closed_form_within_limits(
        params.theta_h0 as int,
        params.omega_h as int,
        params.alpha_h as int,
        elapsed,
    );
    lemma_closed_form_within_limits(
        params.theta_s0 as int,
        params.omega_s as int,
        params.alpha_s as int,
        elapsed,
    );
    lemma_closed_form_within_limits(
        params.phi_a0 as int,
        params.omega_a as int,
        params.alpha_a as int,
        elapsed,
    );
}

/// Exactly one step releases. Among the steps `0, 1, 2, ...` a step is both
/// simulated and a release instant if and only if the duration is not
/// negative and the step is `simulation_time / dt`; in particular this holds
/// when `simulation_time` is an exact multiple of `dt`.
pub proof fn lemma_single_release(params: SwingParameters, step: int)
    requires
        params.dt > 0,
        step >= 0,
    ensures
        (params.in_window(step) && params.releases_at(step)) <==> (params.simulation_time >= 0
            && step == params.release_step()),
{
    let d = params.dt as int;
    let t = params.simulation_time as int;
    let r = t / d;
    vstd::arithmetic::div_mod::lemma_fundamental_div_mod(t, d);
    vstd::arithmetic::div_mod::lemma_mod_bound(t, d);
    assert(t == d * r + t % d);
    assert(step * d + d == (step + 1) * d) by (nonlinear_arith);
    if step <= r {
        assert(step * d <= r * d) by (nonlinear_arith)
            requires
                step <= r,
                d > 0,
        ;
        assert(d * r == r * d) by (nonlinear_arith);
    }
    if step > r {
        assert(step * d >= (r + 1) * d) by (nonlinear_arith)
            requires
                step >= r + 1,
                d > 0,
        ;
        assert((r + 1) * d == d * r + d) by (nonlinear_arith);
    }
    if step < r {
        assert((step + 1) * d <= r * d) by (nonlinear_arith)
            requires
                step + 1 <= r,
                d > 0,
        ;
        assert(d * r == r * d) by (nonlinear_arith);
    }
    if t < 0 {
        assert(step * d >= 0) by (nonlinear_arith)
            requires
                step >= 0,
                d > 0,
        ;
    }
    if t >= 0 {
        vstd::arithmetic::div_mod::lemma_div_pos_is_pos(t, d);
    }
}

/// Runs the swing. Time advances from zero in steps of `dt` for as long as it
/// does not exceed `simulation_time`; every step advances the three segments,
/// and the step from which one more `dt` would pass `simulation_time`
/// captures the launch conditions.
///
/// A swing of non-negative duration yields exactly one launch, captured after
/// `release_time()` of motion and equal to the closed-form launch angle and
/// clubhead speed at that time. A swing of negative duration yields none.
pub fn simulate_swing(params: SwingParameters) -> (trajectory: Vec<Launch>)
    requires
        params.dt > 0,
    ensures
        params.simulation_time < 0 ==> trajectory@.len() == 0,
        params.simulation_time >= 0 ==> trajectory@.len() == 1,
        params.simulation_time >= 0 ==> trajectory@[0].doubled_angle
            == params.doubled_launch_angle(params.release_time()),
        params.simulation_time >= 0 ==> trajectory@[0].speed == params.clubhead_speed(
            params.release_time(),
        ),
{
    let mut state = SimulationState::initial(&params);
    let mut trajectory: Vec<Launch> = Vec::new();
    let dt: i64 = params.dt as i64;
    let end: i64 = params.simulation_time as i64;
    let mut t: i64 = 0;
    let ghost mut step: int = 0;
    while t <= end
        invariant
            params.dt > 0,
            dt == params.dt,
            end == params.simulation_time,
            0 <= step,
            t == step * params.dt,
            0 <= t,
            step == 0 || t <= end + dt,
            state.is_at(params, t as int),
            end < 0 ==> trajectory@.len() == 0,
            end >= 0 && step <= params.release_step() ==> trajectory@.len() == 0,
            end >= 0 && step > params.release_step() ==> {
                &&& trajectory@.len() == 1
                &&& trajectory@[0].doubled_angle == params.doubled_launch_angle(
                    params.release_time(),
                )
                &&& trajectory@[0].speed == params.clubhead_speed(params.release_time())
            },
        decreases end + dt - t,
    {
        proof {
            lemma_state_within_limits(state, params, t as int);
            lemma_single_release(params, step);
            assert((step + 1) * params.dt == step * params.dt + params.dt) by (nonlinear_arith);
        }
        let ghost before = state;
        state.advance(&params);
        proof {
            lemma_advance_follows_closed_form(before, state, params, t as int);
            lemma_state_within_limits(state, params, t + dt);
        }
        if t + dt > end {
            let launch = state.launch(params.rc);
            trajectory.push(launch);
        }
        t = t + dt;
        proof {
            step = step + 1;
        }
    }
    proof {
        if end >= 0 {
            if step <= params.release_step() {
                lemma_single_release(params, step);
                lemma_single_release(params, params.release_step());
                assert(step * params.dt <= params.release_step() * params.dt)
                    by (nonlinear_arith)
                    requires
                        step <= params.release_step(),
                        params.dt > 0,
                ;
            }
        }
    }
    trajectory
}

/// A swing that starts at rest in the zero position with no acceleration
/// never moves: at every time its launch angle and clubhead speed are zero.
pub proof fn lemma_still_swing_stays_still(params: SwingParameters, elapsed: int)
    requires
        params.is_still(),
    ensures
        params.doubled_launch_angle(elapsed) == 0,
        params.clubhead_speed(elapsed) == 0,
{
    assert(0 * elapsed == 0) by (nonlinear_arith);
    assert((0 * elapsed) * elapsed == 0) by (nonlinear_arith);
    assert(0 * (params.rc as int) == 0) by (nonlinear_arith);
}

/// The release is a function of the parameters alone: equal parameters give
/// the same release time, launch angle and clubhead speed.
pub proof fn lemma_release_is_determined(first: SwingParameters, second: SwingParameters)
    requires
        first == second,
    ensures
        first.release_time() == second.release_time(),
        first.doubled_launch_angle(first.release_time()) == second.doubled_launch_angle(
            second.release_time(),
        ),
        first.clubhead_speed(first.release_time()) == second.clubhead_speed(
            second.release_time(),
        ),
{
}

/// A larger rotation radius gives a strictly faster clubhead. `wider` differs
/// from `narrow` in `rc` alone, its radius is the larger of the two and also
/// the larger in magnitude, and the segments are turning at the time asked.
pub proof fn lemma_speed_grows_with_radius(
    narrow: SwingParameters,
    wider: SwingParameters,
    elapsed: int,
)
    requires
        wider == (SwingParameters { rc: wider.rc, ..narrow }),
        narrow.rc < wider.rc,
        narrow.rc + wider.rc > 0,
        narrow.summed_velocity(elapsed) != 0,
    ensures
        abs(narrow.clubhead_speed(elapsed)) < abs(wider.clubhead_speed(elapsed)),
{
    let w = narrow.summed_velocity(elapsed);
    assert(wider.summed_velocity(elapsed) == w);
    let a = narrow.rc as int;
    let b = wider.rc as int;
    assert(abs(w * a) < abs(w * b)) by (nonlinear_arith)
        requires
            w != 0,
            a < b,
            a + b > 0,
    ;
}

} // verus!
