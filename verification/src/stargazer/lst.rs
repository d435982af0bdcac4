//! Sidereal bookkeeping that is pure arithmetic. Reading the wall clock,
//! Julian dates and the Earth rotation angle need the host's clock and its
//! floating-point ephemerides, so they live with the shell; the sexagesimal
//! breakdown of an angle is exact and lives here.

use vstd::prelude::*;
use crate::fixed::{div_trunc, floor_div_pos, rem_fp, rem_trunc};

verus! {

/// Decimal degrees broken into an hour angle: whole hours by floor, then
/// the minute and second parts in millionths, each the remainder of the
/// step before it, keeping the sign of the input.
pub open spec fn deg_to_hms_spec(degrees_micro: int) -> (int, int, int) {
    let time: int = div_trunc(rem_trunc(degrees_micro, 360_000_000), 15);
    (time / 1_000_000, rem_trunc(time * 60, 60_000_000), rem_trunc(time * 3600, 60_000_000))
}

/// Breaks decimal degrees into whole hours and the minute and second
/// remainders, both in millionths.
pub fn deg_to_hms(degrees_micro: i64) -> (r: (i64, i64, i64))
    requires
        -1_000_000_000_000_000 <= degrees_micro <= 1_000_000_000_000_000,
    ensures
        (r.0 as int, r.1 as int, r.2 as int) == deg_to_hms_spec(degrees_micro as int),
{
    let wrapped: i64 = rem_fp(degrees_micro, 360_000_000);
    let time: i64 = crate::fixed::div_fp(wrapped, 15);
    let hours: i64 = floor_div_pos(time, 1_000_000);
    let minutes_micro: i64 = rem_fp(time * 60, 60_000_000);
    let seconds_micro: i64 = rem_fp(time * 3600, 60_000_000);
    (hours, minutes_micro, seconds_micro)
}

} // verus!
