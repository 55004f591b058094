use golf_swing::kinematics::advance_segment;
use golf_swing::swing::{simulate_swing, Launch, SimulationState, SwingParameters};

/// Microradians and milliseconds: 5, 10 and 15 rad/s^2, a radius of 1, steps
/// of 10 ms for 2 s.
fn reference() -> SwingParameters {
    SwingParameters {
        theta_h0: 0,
        omega_h: 0,
        alpha_h: 5,
        theta_s0: 0,
        omega_s: 0,
        alpha_s: 10,
        phi_a0: 0,
        omega_a: 0,
        alpha_a: 15,
        rc: 1,
        dt: 10,
        simulation_time: 2000,
    }
}

fn still(rc: i32, dt: i32, simulation_time: i32) -> SwingParameters {
    SwingParameters {
        theta_h0: 0,
        omega_h: 0,
        alpha_h: 0,
        theta_s0: 0,
        omega_s: 0,
        alpha_s: 0,
        phi_a0: 0,
        omega_a: 0,
        alpha_a: 0,
        rc,
        dt,
        simulation_time,
    }
}

#[test]
fn still_swing_launches_nothing() {
    let trajectory = simulate_swing(still(1, 10, 2000));
    assert_eq!(trajectory, vec![Launch { doubled_angle: 0, speed: 0 }]);
    let trajectory = simulate_swing(still(7, 3, 100));
    assert_eq!(trajectory, vec![Launch { doubled_angle: 0, speed: 0 }]);
}

#[test]
fn reference_swing_gives_one_launch() {
    let trajectory = simulate_swing(reference());
    assert_eq!(trajectory.len(), 1);
    // 201 steps of 10 ms: released after 2010 ms of motion.
    assert_eq!(trajectory[0].doubled_angle, 30 * 2010 * 2010);
    assert_eq!(trajectory[0].doubled_angle, 121_203_000);
    assert_eq!(trajectory[0].speed, 60_300);
}

#[test]
fn reference_swing_matches_closed_form_in_floats() {
    let trajectory = simulate_swing(reference());
    let t = 2.01_f64;
    let angle = 0.5 * 30.0 * t * t;
    let speed = 30.0 * t;
    let got_angle = trajectory[0].doubled_angle as f64 / 2.0 / 1.0e6;
    let got_speed = trajectory[0].speed as f64 / 1.0e3;
    assert!((got_angle - angle).abs() < 1e-9);
    assert!((got_speed - speed).abs() < 1e-9);
}

#[test]
fn loop_agrees_with_hand_stepped_recurrence() {
    let params = SwingParameters {
        theta_h0: 3,
        omega_h: 2,
        alpha_h: 4,
        theta_s0: 0,
        omega_s: 0,
        alpha_s: 0,
        phi_a0: 0,
        omega_a: 0,
        alpha_a: 0,
        rc: 5,
        dt: 1,
        simulation_time: 2,
    };
    // Three steps: doubled angle 6 -> 14 -> 30 -> 54, velocity 2 -> 6 -> 10 -> 14.
    let trajectory = simulate_swing(params);
    assert_eq!(trajectory, vec![Launch { doubled_angle: 54, speed: 70 }]);
}

#[test]
fn all_three_segments_are_summed() {
    let params = SwingParameters {
        theta_h0: 1,
        omega_h: 1,
        alpha_h: 0,
        theta_s0: 10,
        omega_s: -2,
        alpha_s: 0,
        phi_a0: -100,
        omega_a: 0,
        alpha_a: 2,
        rc: -3,
        dt: 2,
        simulation_time: 3,
    };
    // Released after two steps, 4 time units.
    // hip: 2*(1 + 4) = 10; shoulder: 2*(10 - 8) = 4; arm: 2*(-100) + 2*16 = -168.
    // velocities: 1, -2, 8.
    let trajectory = simulate_swing(params);
    assert_eq!(trajectory, vec![Launch { doubled_angle: -154, speed: -21 }]);
}

#[test]
fn same_parameters_same_trajectory() {
    let first = simulate_swing(reference());
    let second = simulate_swing(reference());
    assert_eq!(first, second);
}

#[test]
fn larger_radius_gives_faster_clubhead() {
    let mut narrow = reference();
    narrow.rc = 1;
    let mut wider = reference();
    wider.rc = 2;
    let slow = simulate_swing(narrow);
    let fast = simulate_swing(wider);
    assert_eq!(slow[0].speed, 60_300);
    assert_eq!(fast[0].speed, 120_600);
    assert!(slow[0].speed.abs() < fast[0].speed.abs());
    assert_eq!(slow[0].doubled_angle, fast[0].doubled_angle);
}

#[test]
fn exact_multiple_releases_once() {
    let mut params = reference();
    params.dt = 10;
    params.simulation_time = 2000;
    assert_eq!(simulate_swing(params).len(), 1);
    params.dt = 2000;
    assert_eq!(simulate_swing(params).len(), 1);
    params.dt = 1;
    assert_eq!(simulate_swing(params).len(), 1);
}

#[test]
fn inexact_multiple_releases_once_at_last_step() {
    let mut params = reference();
    params.simulation_time = 2005;
    let trajectory = simulate_swing(params);
    assert_eq!(trajectory, vec![Launch { doubled_angle: 121_203_000, speed: 60_300 }]);
    params.simulation_time = 2009;
    assert_eq!(simulate_swing(params), trajectory);
    params.simulation_time = 2010;
    assert_eq!(
        simulate_swing(params),
        vec![Launch { doubled_angle: 30 * 2020 * 2020, speed: 30 * 2020 }]
    );
}

#[test]
fn zero_duration_releases_after_one_step() {
    let mut params = reference();
    params.simulation_time = 0;
    assert_eq!(
        simulate_swing(params),
        vec![Launch { doubled_angle: 30 * 10 * 10, speed: 300 }]
    );
}

#[test]
fn duration_shorter_than_step_releases_at_first_step() {
    let mut params = reference();
    params.simulation_time = 5;
    assert_eq!(
        simulate_swing(params),
        vec![Launch { doubled_angle: 3000, speed: 300 }]
    );
}

#[test]
fn negative_duration_releases_nothing() {
    let mut params = reference();
    params.simulation_time = -1;
    assert_eq!(simulate_swing(params), vec![]);
}

#[test]
fn extreme_parameters_do_not_overflow() {
    let params = SwingParameters {
        theta_h0: i32::MIN,
        omega_h: i32::MIN,
        alpha_h: i32::MIN,
        theta_s0: i32::MIN,
        omega_s: i32::MIN,
        alpha_s: i32::MIN,
        phi_a0: i32::MIN,
        omega_a: i32::MIN,
        alpha_a: i32::MIN,
        rc: i32::MIN,
        dt: i32::MAX,
        simulation_time: i32::MAX,
    };
    let trajectory = simulate_swing(params);
    let e: i128 = 2 * (i32::MAX as i128);
    let m: i128 = i32::MIN as i128;
    assert_eq!(trajectory.len(), 1);
    assert_eq!(trajectory[0].doubled_angle, 3 * (2 * m + 2 * m * e + m * e * e));
    assert_eq!(trajectory[0].speed, 3 * (m + m * e) * m);
}

#[test]
fn initial_state_holds_the_parameters() {
    let mut params = reference();
    params.theta_h0 = 4;
    params.theta_s0 = -5;
    params.phi_a0 = 6;
    params.omega_h = 7;
    params.omega_s = 8;
    params.omega_a = -9;
    let state = SimulationState::initial(&params);
    assert_eq!(
        state,
        SimulationState {
            doubled_theta_h: 8,
            doubled_theta_s: -10,
            doubled_phi_a: 12,
            omega_h: 7,
            omega_s: 8,
            omega_a: -9,
        }
    );
}

#[test]
fn advance_moves_angle_before_velocity() {
    let params = reference();
    let mut state = SimulationState {
        doubled_theta_h: 0,
        doubled_theta_s: 100,
        doubled_phi_a: -100,
        omega_h: 1,
        omega_s: 0,
        omega_a: -1,
    };
    state.advance(&params);
    assert_eq!(
        state,
        SimulationState {
            doubled_theta_h: 20 + 500,
            doubled_theta_s: 100 + 1000,
            doubled_phi_a: -100 - 20 + 1500,
            omega_h: 51,
            omega_s: 100,
            omega_a: 149,
        }
    );
}

#[test]
fn launch_sums_segments() {
    let state = SimulationState {
        doubled_theta_h: 1,
        doubled_theta_s: 20,
        doubled_phi_a: 300,
        omega_h: 4,
        omega_s: 50,
        omega_a: 600,
    };
    assert_eq!(state.launch(2), Launch { doubled_angle: 321, speed: 1308 });
    assert_eq!(state.launch(0), Launch { doubled_angle: 321, speed: 0 });
    assert_eq!(state.launch(-1), Launch { doubled_angle: 321, speed: -654 });
}

#[test]
fn advance_segment_exact_values() {
    assert_eq!(advance_segment(10, 3, 2, 5), (90, 13));
    assert_eq!(advance_segment(0, 0, 0, 5), (0, 0));
    assert_eq!(advance_segment(0, 0, 1, 1), (1, 1));
    assert_eq!(advance_segment(-7, -3, 1, -2), (9, -5));
}

#[test]
fn can_advance_tells_the_limits() {
    let mut state = SimulationState {
        doubled_theta_h: 0,
        doubled_theta_s: 0,
        doubled_phi_a: 0,
        omega_h: 0,
        omega_s: 0,
        omega_a: 0,
    };
    assert!(state.can_advance());
    state.omega_s = 1_i128 << 64;
    assert!(state.can_advance());
    state.omega_s = (1_i128 << 64) + 1;
    assert!(!state.can_advance());
    state.omega_s = -(1_i128 << 64);
    state.doubled_phi_a = -(1_i128 << 100);
    assert!(state.can_advance());
    state.doubled_phi_a = -(1_i128 << 100) - 1;
    assert!(!state.can_advance());
}

#[test]
fn states_of_a_run_can_always_advance() {
    let params = reference();
    let mut state = SimulationState::initial(&params);
    for _ in 0..201 {
        assert!(state.can_advance());
        state.advance(&params);
    }
    assert!(state.can_advance());
    assert_eq!(simulate_swing(params), vec![state.launch(params.rc)]);
}
