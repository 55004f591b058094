//! Exact fixed-point kinematics of a three-segment golf swing, and the flight
//! of the ball it launches.

use vstd::prelude::*;

pub mod kinematics;
pub mod projectile;
pub mod swing;
