//! Sexagesimal coordinate readings and their decimal-degree values.

pub use crate::units::dms::DMS;
pub use crate::units::hms::HMS;

use vstd::prelude::*;
use crate::fixed::{div_fp, floor_div_pos, rem_fp};
use crate::units::dms::{dms_degrees_micro, dms_wf};
use crate::units::hms::{hms_degrees_micro, hms_from_degrees_spec, hms_wf};

verus! {

/// A coordinate reading that has a decimal-degree value.
pub trait Coord {
    /// The reading stays inside the ranges the parsers admit.
    spec fn coord_wf(&self) -> bool;

    /// The value in millionths of a degree.
    spec fn degrees_micro_spec(&self) -> int;

    /// Computes the value in millionths of a degree.
    fn to_degrees(&self) -> (r: i64)
        requires
            self.coord_wf(),
        ensures
            r == self.degrees_micro_spec(),
    ;
}

impl Coord for HMS {
    open spec fn coord_wf(&self) -> bool {
        hms_wf(*self)
    }

    open spec fn degrees_micro_spec(&self) -> int {
        hms_degrees_micro(self.hours as int, self.minutes as int, self.seconds_milli as int)
    }

    fn to_degrees(&self) -> (r: i64) {
        HMS::to_degrees(self)
    }
}

impl Coord for DMS {
    open spec fn coord_wf(&self) -> bool {
        dms_wf(*self)
    }

    open spec fn degrees_micro_spec(&self) -> int {
        dms_degrees_micro(self.degrees as int, self.minutes as int, self.seconds_milli as int)
    }

    fn to_degrees(&self) -> (r: i64) {
        DMS::to_degrees(self)
    }
}

/// Decimal degrees wrapped onto the clock and read as an hour angle; the
/// whole hours follow the floor, the minute and second remainders keep the
/// sign of the input.
#[allow(non_snake_case)]
pub fn degrees_to_HMS(degrees_micro: i64) -> (r: HMS)
    requires
        -1_000_000_000_000_000 <= degrees_micro <= 1_000_000_000_000_000,
    ensures
        r == hms_from_degrees_spec(degrees_micro as int),
{
    let wrapped: i64 = rem_fp(degrees_micro, 360_000_000);
    let time: i64 = div_fp(wrapped, 15);
    let hours: i64 = floor_div_pos(time, 1_000_000);
    let minutes: i64 = div_fp(rem_fp(time * 60, 60_000_000), 1_000_000);
    let seconds_milli: i64 = div_fp(rem_fp(time * 3600, 60_000_000), 1_000);
    HMS { hours, minutes, seconds_milli }
}

} // verus!
