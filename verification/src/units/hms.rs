//! Right ascension as hours, minutes and seconds.

use vstd::prelude::*;
use crate::fixed::{div_fp, div_trunc};
use crate::parse::{
    dec_field_value, int_field_value, parse_dec_field, parse_int_field, split_chars, split_on,
    to_char_vec, FormatError,
};
use crate::text::{dec_signed, milli_digits};

verus! {

/// An hour-based sexagesimal angle; the seconds are carried in thousandths
/// of a second.
#[derive(Clone, Copy, PartialEq, Eq, Structural, Debug)]
pub struct HMS {
    pub hours: i64,
    pub minutes: i64,
    pub seconds_milli: i64,
}

/// What a well-formed angle string denotes: exactly three colon-separated
/// numeric fields, hours, minutes and decimal seconds.
pub open spec fn hms_parse(s: Seq<char>) -> Option<(int, int, int)> {
    let fs = split_on(s, ':');
    if fs.len() == 3 && int_field_value(fs[0]).is_some() && int_field_value(fs[1]).is_some()
        && dec_field_value(fs[2], 3).is_some() {
        Some(
            (
                int_field_value(fs[0]).unwrap(),
                int_field_value(fs[1]).unwrap(),
                dec_field_value(fs[2], 3).unwrap(),
            ),
        )
    } else {
        None
    }
}

/// The fields stay inside the ranges the parser admits.
pub open spec fn hms_wf(a: HMS) -> bool {
    -2147483648 <= a.hours <= 2147483647 && -2147483648 <= a.minutes <= 2147483647
        && -2147483648000 <= a.seconds_milli <= 2147483648000
}

/// The angle in millionths of a degree:
/// `(hours + minutes / 60 + seconds / 3600) * 15`, truncated toward zero.
pub open spec fn hms_degrees_micro(h: int, m: int, s_milli: int) -> int {
    div_trunc((h * 3600000 + m * 60000 + s_milli) * 25, 6)
}

impl HMS {
    /// Reads an angle out of a string of exactly three colon-separated
    /// numeric fields; any other shape is a `FormatError`. A numeric field
    /// is a signed decimal numeral — an optional sign, digits, at most one
    /// point; exponent and non-finite spellings of a floating-point
    /// reading are deliberately outside the grammar, as the thousandths
    /// model cannot carry them.
    pub fn from_str(s: &str) -> (r: Result<HMS, FormatError>)
        ensures
            match r {
                Ok(a) => hms_parse(s@) == Some(
                    (a.hours as int, a.minutes as int, a.seconds_milli as int),
                ) && hms_wf(a),
                Err(_) => hms_parse(s@).is_none(),
            },
    {
        let chars: Vec<char> = to_char_vec(s);
        Self::from_chars(&chars)
    }

    /// Reads an angle out of a vector of characters, the same grammar as
    /// `from_str`.
    pub fn from_chars(chars: &Vec<char>) -> (r: Result<HMS, FormatError>)
        ensures
            match r {
                Ok(a) => hms_parse(chars@) == Some(
                    (a.hours as int, a.minutes as int, a.seconds_milli as int),
                ) && hms_wf(a),
                Err(_) => hms_parse(chars@).is_none(),
            },
    {
        let fields: Vec<Vec<char>> = split_chars(chars, ':');
        if fields.len() != 3 {
            return Err(FormatError);
        }
        proof {
            assert(crate::parse::pow10(3) == 1000) by {
                reveal_with_fuel(crate::parse::pow10, 5);
            }
            assert(fields@.map_values(|f: Vec<char>| f@)[0] == fields@[0]@);
            assert(fields@.map_values(|f: Vec<char>| f@)[1] == fields@[1]@);
            assert(fields@.map_values(|f: Vec<char>| f@)[2] == fields@[2]@);
        }
        let hours: Option<i64> = parse_int_field(&fields[0]);
        let minutes: Option<i64> = parse_int_field(&fields[1]);
        let seconds: Option<i64> = parse_dec_field(&fields[2], 3);
        match (hours, minutes, seconds) {
            (Some(h), Some(m), Some(sm)) => Ok(HMS { hours: h, minutes: m, seconds_milli: sm }),
            _ => Err(FormatError),
        }
    }

    /// The angle in millionths of a degree.
    pub fn to_degrees(&self) -> (r: i64)
        requires
            hms_wf(*self),
        ensures
            r == hms_degrees_micro(self.hours as int, self.minutes as int, self.seconds_milli as int),
    {
        let total_milli: i64 = self.hours * 3600000 + self.minutes * 60000 + self.seconds_milli;
        div_fp(total_milli * 25, 6)
    }

    /// The angle that a count of decimal degrees names, wrapped onto the
    /// clock: the degrees are reduced modulo a full turn, read as hours,
    /// and the minutes and seconds are the remainders at each step. The
    /// whole hours follow the floor, so a negative angle reads back a
    /// lower hour; the minute and second remainders keep the sign of the
    /// input.
    pub fn from_degrees(&self, degrees_micro: i64) -> (r: HMS)
        requires
            -1_000_000_000_000_000 <= degrees_micro <= 1_000_000_000_000_000,
        ensures
            r == hms_from_degrees_spec(degrees_micro as int),
    {
        let wrapped: i64 = crate::fixed::rem_fp(degrees_micro, 360_000_000);
        let time: i64 = crate::fixed::div_fp(wrapped, 15);
        let hours: i64 = crate::fixed::floor_div_pos(time, 1_000_000);
        let minutes: i64 = crate::fixed::div_fp(
            crate::fixed::rem_fp(time * 60, 60_000_000),
            1_000_000,
        );
        let seconds_milli: i64 = crate::fixed::div_fp(
            crate::fixed::rem_fp(time * 3600, 60_000_000),
            1_000,
        );
        HMS { hours, minutes, seconds_milli }
    }

    /// The conventional reading, sign first, as `18h4m20.99s`.
    pub fn to_display_string(&self) -> (s: String)
        ensures
            s@ == hms_display(*self),
    {
        proof {
            reveal_strlit("h");
            reveal_strlit("m");
            reveal_strlit("s");
        }
        let mut s: String = crate::text::i64_to_string(self.hours);
        s.append("h");
        let minutes: String = crate::text::i64_to_string(self.minutes);
        s.append(minutes.as_str());
        s.append("m");
        let seconds: String = crate::text::format_milli(self.seconds_milli);
        s.append(seconds.as_str());
        s.append("s");
        proof {
            assert(s@ =~= hms_display(*self));
        }
        s
    }
}

/// Decimal degrees wrapped onto the clock: the time in millionths of an
/// hour, then whole hours by floor and minute and second remainders by
/// truncation.
pub open spec fn hms_from_degrees_spec(degrees_micro: int) -> HMS {
    let time: int = div_trunc(crate::fixed::rem_trunc(degrees_micro, 360_000_000), 15);
    HMS {
        hours: (time / 1_000_000) as i64,
        minutes: div_trunc(crate::fixed::rem_trunc(time * 60, 60_000_000), 1_000_000) as i64,
        seconds_milli: div_trunc(crate::fixed::rem_trunc(time * 3600, 60_000_000), 1_000) as i64,
    }
}

/// The display form: hours, minutes and seconds with their unit letters.
pub open spec fn hms_display(a: HMS) -> Seq<char> {
    dec_signed(a.hours as int) + seq!['h'] + dec_signed(a.minutes as int) + seq!['m']
        + milli_digits(a.seconds_milli as int) + seq!['s']
}

} // verus!
