//! Closed-form flight of a ball under constant gravity.

use vstd::math::abs;
use vstd::prelude::*;

verus! {

/// Gravitational acceleration in millimetres per second squared.
pub const GRAVITY: i128 = 9810;

/// Denominator shared by both coordinates of a [`TrajectoryPoint`]: twice the
/// gravitational acceleration.
pub const POINT_DENOMINATOR: i128 = 19620;

/// Landing range and peak height of one flight, in millimetres, held as exact
/// fractions over [`POINT_DENOMINATOR`].
#[derive(Clone, Copy, Debug, PartialEq, Eq, Structural)]
pub struct TrajectoryPoint {
    /// Range times [`POINT_DENOMINATOR`]; negative when the launch points downward.
    pub range_num: i128,
    /// Peak height times [`POINT_DENOMINATOR`]; never negative.
    pub height_num: i128,
}

/// Numerator of the range reached with launch velocity `(vx, vy)`:
/// `vx * (2 * vy / g)` brought over the denominator `2 * g`.
pub open spec fn range_numerator(vx: int, vy: int) -> int {
    4 * vx * vy
}

/// Numerator of the peak height reached with vertical launch velocity `vy`:
/// `vy * vy / (2 * g)` brought over the denominator `2 * g`.
pub open spec fn height_numerator(vy: int) -> int {
    vy * vy
}

/// Evaluates the flight launched with velocity `(vx, vy)`, in millimetres per
/// second. The time step takes no part in the result. Nothing is clamped: a
/// downward launch gives a range of the opposite sign to `vx`.
pub fn projectile_motion(vx: i32, vy: i32, dt: i32) -> (point: TrajectoryPoint)
    ensures
        point.range_num == range_numerator(vx as int, vy as int),
        point.height_num == height_numerator(vy as int),
{
    let x: i128 = vx as i128;
    let y: i128 = vy as i128;
    assert(-0x4000_0000_0000_0000 <= x * y <= 0x4000_0000_0000_0000) by (nonlinear_arith)
        requires
            -0x8000_0000 <= x <= 0x8000_0000,
            -0x8000_0000 <= y <= 0x8000_0000,
    ;
    assert(4 * x * y == 4 * (x * y)) by (nonlinear_arith);
    assert(0 <= y * y <= 0x4000_0000_0000_0000) by (nonlinear_arith)
        requires
            -0x8000_0000 <= y <= 0x8000_0000,
    ;
    TrajectoryPoint { range_num: 4 * (x * y), height_num: y * y }
}

/// A ball launched with no velocity goes nowhere: range and height are zero.
pub proof fn lemma_no_launch_no_flight()
    ensures
        range_numerator(0, 0) == 0,
        height_numerator(0) == 0,
{
}

/// The range is never clamped: it has the sign of `vx * vy`, so a downward
/// launch with forward velocity lands at a negative range. The peak height
/// comes from the square of `vy` and is never negative.
pub proof fn lemma_range_keeps_sign(vx: int, vy: int)
    ensures
        vx > 0 && vy < 0 ==> range_numerator(vx, vy) < 0,
        vx < 0 && vy > 0 ==> range_numerator(vx, vy) < 0,
        vx > 0 && vy > 0 ==> range_numerator(vx, vy) > 0,
        vx < 0 && vy < 0 ==> range_numerator(vx, vy) > 0,
        vx == 0 || vy == 0 ==> range_numerator(vx, vy) == 0,
        height_numerator(vy) >= 0,
        vy != 0 ==> height_numerator(vy) > 0,
{
    assert(vx > 0 && vy < 0 ==> 4 * vx * vy < 0) by (nonlinear_arith);
    assert(vx < 0 && vy > 0 ==> 4 * vx * vy < 0) by (nonlinear_arith);
    assert(vx > 0 && vy > 0 ==> 4 * vx * vy > 0) by (nonlinear_arith);
    assert(vx < 0 && vy < 0 ==> 4 * vx * vy > 0) by (nonlinear_arith);
    assert(vx == 0 || vy == 0 ==> 4 * vx * vy == 0) by (nonlinear_arith);
    assert(vy * vy >= 0) by (nonlinear_arith);
    assert(vy != 0 ==> vy * vy > 0) by (nonlinear_arith);
}

/// For an upward launch, a faster ball flies higher and farther: raising `vy`
/// strictly raises the peak height, and with a horizontal velocity that does
/// not shrink in magnitude and is not zero it strictly raises the magnitude of
/// the range.
pub proof fn lemma_flight_grows_with_speed(vx1: int, vy1: int, vx2: int, vy2: int)
    requires
        0 < vy1 < vy2,
        abs(vx1) <= abs(vx2),
        vx2 != 0,
    ensures
        height_numerator(vy1) < height_numerator(vy2),
        abs(range_numerator(vx1, vy1)) < abs(range_numerator(vx2, vy2)),
{
    assert(vy1 * vy1 < vy2 * vy2) by (nonlinear_arith)
        requires
            0 < vy1 < vy2,
    ;
    let a1 = abs(vx1);
    let a2 = abs(vx2);
    assert(abs(4 * vx1 * vy1) == 4 * a1 * vy1) by (nonlinear_arith)
        requires
            vy1 > 0,
            a1 == abs(vx1),
    ;
    assert(abs(4 * vx2 * vy2) == 4 * a2 * vy2) by (nonlinear_arith)
        requires
            vy2 > 0,
            a2 == abs(vx2),
    ;
    assert(4 * a1 * vy1 < 4 * a2 * vy2) by (nonlinear_arith)
        requires
            0 < vy1 < vy2,
            0 <= a1 <= a2,
            a2 > 0,
    ;
}

} // verus!
