//! Hand angles: the clock sub-units mapped onto the dial.
//!
//! Twelve o'clock is zero degrees and angles grow clockwise.  The minute
//! and second hands sit at whole degrees; the hour hand creeps between the
//! hour marks by the minute, which lands it on half degrees, so its angle
//! is kept in half-degree units and stays exact.  Turning an angle into a
//! tip coordinate takes trigonometry on floating-point numbers and is left
//! to the drawing layer outside the crate.

use vstd::prelude::*;
use crate::clock::ClockSample;

verus! {

/// The dial angle of `clock_units` sub-units out of `units_per_revolution`,
/// in degrees, rounded down: a full revolution is 360 degrees.
pub open spec fn spec_hand_degrees(clock_units: u32, units_per_revolution: u32) -> int {
    (clock_units * 360) / (units_per_revolution as int)
}

/// Map a sub-unit count (say 23 of 60 seconds) to its dial angle in
/// degrees.  When the revolution divides 360 evenly, as the minute and
/// second hands' 60 units do, the angle is exact.
pub fn hand_degrees(clock_units: u32, units_per_revolution: u32) -> (degrees: u32)
    requires
        0 < units_per_revolution,
        clock_units < units_per_revolution,
    ensures
        degrees == spec_hand_degrees(clock_units, units_per_revolution),
        degrees < 360,
{
    let wide: u64 = (clock_units as u64) * 360 / (units_per_revolution as u64);
    proof {
        assert(clock_units * 360 < units_per_revolution * 360) by (nonlinear_arith)
            requires clock_units < units_per_revolution;
        assert((clock_units * 360) / (units_per_revolution as int) < 360) by (nonlinear_arith)
            requires clock_units * 360 < units_per_revolution * 360 && 0 < units_per_revolution;
    }
    wide as u32
}

/// The hour hand's dial angle in half degrees: thirty degrees for each full
/// hour past twelve, and half a degree more for each minute, so the hand
/// moves smoothly between the hour marks instead of jumping on the hour.
pub open spec fn spec_hour_hand_half_degrees(hour12: u32, minute: u32) -> int {
    (hour12 % 12) * 60 + minute
}

/// The hour hand's angle for an hour-of-twelve and the minute within it,
/// in half-degree units.
pub fn hour_hand_half_degrees(hour12: u32, minute: u32) -> (half_degrees: u32)
    requires
        1 <= hour12 <= 12,
        minute <= 59,
    ensures
        half_degrees == spec_hour_hand_half_degrees(hour12, minute),
        half_degrees < 720,
{
    (hour12 % 12) * 60 + minute
}

/// The dial angles of the three hands for one sample: half degrees for the
/// hour hand, whole degrees for the other two.
#[derive(Clone, Copy, Debug, PartialEq, Eq, Structural)]
pub struct HandAngles {
    pub hour_half_degrees: u32,
    pub minute_degrees: u32,
    pub second_degrees: u32,
}

/// The three hand angles of a sample: the hour hand from the 12-hour dial
/// hour and the minute, the minute and second hands from their sixty
/// sub-units each.
pub fn hand_angles(s: &ClockSample) -> (r: HandAngles)
    requires
        s.wf(),
    ensures
        r.hour_half_degrees == spec_hour_hand_half_degrees(s.hour12, s.minute),
        r.hour_half_degrees < 720,
        r.minute_degrees == spec_hand_degrees(s.minute, 60),
        r.minute_degrees < 360,
        r.second_degrees == spec_hand_degrees(s.second, 60),
        r.second_degrees < 360,
{
    HandAngles {
        hour_half_degrees: hour_hand_half_degrees(s.hour12, s.minute),
        minute_degrees: hand_degrees(s.minute, 60),
        second_degrees: hand_degrees(s.second, 60),
    }
}

/// The hour hand is continuous: half-way through any hour it points
/// exactly half-way, angularly, between that hour's mark and the next
/// one's — an equality of angles modulo the full turn of 720 half degrees,
/// since the dial wraps to zero at twelve.
pub proof fn lemma_hour_hand_halfway(hour12: u32)
    requires
        1 <= hour12 <= 11,
    ensures
        (2 * spec_hour_hand_half_degrees(hour12, 30) - (spec_hour_hand_half_degrees(hour12, 0)
            + spec_hour_hand_half_degrees(((hour12 + 1) as u32), 0))) % 720 == 0,
{
    if hour12 == 11 {
        assert(spec_hour_hand_half_degrees(12, 0) == 0);
    }
}

} // verus!
