//! Angle conventions at the boundary of the path calculator.
//!
//! The path calculator measures inclination from the vertical (0 = straight
//! down, 90000 = horizontal). Guidance tools in horizontal drilling report
//! pitch, measured from the horizontal (0 = level). Angles here are in
//! thousandths of a degree.

use vstd::prelude::*;

verus! {

/// A right angle, in thousandths of a degree.
pub const RIGHT_ANGLE_MILLIDEG: i64 = 90000;

/// Inclination (from vertical) that corresponds to a pitch (from horizontal).
pub open spec fn inclination_of_pitch(pitch: int) -> int {
    RIGHT_ANGLE_MILLIDEG - pitch
}

/// Pitch (from horizontal) that corresponds to an inclination (from vertical).
pub open spec fn pitch_of_inclination(inclination: int) -> int {
    RIGHT_ANGLE_MILLIDEG - inclination
}

/// Converts a pitch into the inclination the path calculator expects.
pub fn inclination_from_pitch(pitch: i64) -> (r: i64)
    requires
        pitch >= RIGHT_ANGLE_MILLIDEG - i64::MAX,
    ensures
        r == inclination_of_pitch(pitch as int),
{
    RIGHT_ANGLE_MILLIDEG - pitch
}

/// Converts an inclination back into a pitch.
pub fn pitch_from_inclination(inclination: i64) -> (r: i64)
    requires
        inclination >= RIGHT_ANGLE_MILLIDEG - i64::MAX,
    ensures
        r == pitch_of_inclination(inclination as int),
{
    RIGHT_ANGLE_MILLIDEG - inclination
}

/// Converting a pitch to an inclination and back gives the pitch again.
pub proof fn lemma_pitch_round_trip(pitch: int)
    ensures
        pitch_of_inclination(inclination_of_pitch(pitch)) == pitch,
{
}

/// The exec conversions compose to the identity wherever both are defined:
/// every pitch the first conversion accepts yields an inclination that the
/// second accepts.
pub proof fn lemma_pitch_round_trip_in_range(pitch: i64)
    requires
        pitch >= RIGHT_ANGLE_MILLIDEG - i64::MAX,
    ensures
        inclination_of_pitch(pitch as int) >= RIGHT_ANGLE_MILLIDEG - i64::MAX,
        inclination_of_pitch(pitch as int) <= i64::MAX,
        pitch_of_inclination(inclination_of_pitch(pitch as int)) == pitch,
{
}

} // verus!
