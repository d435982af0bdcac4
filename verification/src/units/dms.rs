//! Declination as degrees, minutes and seconds.

use vstd::prelude::*;
use crate::fixed::{div_fp, div_trunc};
use crate::parse::{
    dec_field_value, int_field_value, parse_dec_field, parse_int_field, split_chars, split_on,
    to_char_vec, FormatError,
};
use crate::text::{dec_signed, milli_digits};

verus! {

/// A degree-based sexagesimal angle; the seconds are carried in thousandths
/// of a second.
#[derive(Clone, Copy, PartialEq, Eq, Structural, Debug)]
pub struct DMS {
    pub degrees: i64,
    pub minutes: i64,
    pub seconds_milli: i64,
}

/// What a well-formed angle string denotes: exactly three colon-separated
/// numeric fields, degrees, minutes and decimal seconds.
pub open spec fn dms_parse(s: Seq<char>) -> Option<(int, int, int)> {
    let fs = split_on(s, ':');
    if fs.len() == 3 && int_field_value(fs[0]).is_some() && int_field_value(fs[1]).is_some()
        && dec_field_value(fs[2], 3).is_some() {
        Some(
            (
                int_field_value(fs[0]).unwrap(),
                int_field_value(fs[1]).unwrap(),
                dec_field_value(fs[2], 3).unwrap(),
            ),
        )
    } else {
        None
    }
}

/// The fields stay inside the ranges the parser admits.
pub open spec fn dms_wf(a: DMS) -> bool {
    -2147483648 <= a.degrees <= 2147483647 && -2147483648 <= a.minutes <= 2147483647
        && -2147483648000 <= a.seconds_milli <= 2147483648000
}

/// The angle in millionths of a degree:
/// `sign(degrees) * (|degrees| + minutes / 60 + seconds / 3600)`, truncated
/// toward zero. A zero degree field counts as positive, as the sign of the
/// floating-point zero does.
pub open spec fn dms_degrees_micro(d: int, m: int, s_milli: int) -> int {
    let mag: int = if d < 0 { -d } else { d };
    let q: int = div_trunc((mag * 3600000 + m * 60000 + s_milli) * 5, 18);
    if d < 0 { -q } else { q }
}

impl DMS {
    /// Reads an angle out of a string of exactly three colon-separated
    /// numeric fields; any other shape is a `FormatError`. A numeric field
    /// is a signed decimal numeral — an optional sign, digits, at most one
    /// point; exponent and non-finite spellings of a floating-point
    /// reading are deliberately outside the grammar, as the thousandths
    /// model cannot carry them.
    pub fn from_str(s: &str) -> (r: Result<DMS, FormatError>)
        ensures
            match r {
                Ok(a) => dms_parse(s@) == Some(
                    (a.degrees as int, a.minutes as int, a.seconds_milli as int),
                ) && dms_wf(a),
                Err(_) => dms_parse(s@).is_none(),
            },
    {
        let chars: Vec<char> = to_char_vec(s);
        Self::from_chars(&chars)
    }

    /// Reads an angle out of a vector of characters, the same grammar as
    /// `from_str`.
    pub fn from_chars(chars: &Vec<char>) -> (r: Result<DMS, FormatError>)
        ensures
            match r {
                Ok(a) => dms_parse(chars@) == Some(
                    (a.degrees as int, a.minutes as int, a.seconds_milli as int),
                ) && dms_wf(a),
                Err(_) => dms_parse(chars@).is_none(),
            },
    {
        let fields: Vec<Vec<char>> = split_chars(chars, ':');
        if fields.len() != 3 {
            return Err(FormatError);
        }
        proof {
            assert(crate::parse::pow10(3) == 1000) by {
                reveal_with_fuel(crate::parse::pow10, 5);
            }
            assert(fields@.map_values(|f: Vec<char>| f@)[0] == fields@[0]@);
            assert(fields@.map_values(|f: Vec<char>| f@)[1] == fields@[1]@);
            assert(fields@.map_values(|f: Vec<char>| f@)[2] == fields@[2]@);
        }
        let degrees: Option<i64> = parse_int_field(&fields[0]);
        let minutes: Option<i64> = parse_int_field(&fields[1]);
        let seconds: Option<i64> = parse_dec_field(&fields[2], 3);
        match (degrees, minutes, seconds) {
            (Some(d), Some(m), Some(sm)) => Ok(DMS { degrees: d, minutes: m, seconds_milli: sm }),
            _ => Err(FormatError),
        }
    }

    /// The angle in millionths of a degree.
    pub fn to_degrees(&self) -> (r: i64)
        requires
            dms_wf(*self),
        ensures
            r == dms_degrees_micro(
                self.degrees as int,
                self.minutes as int,
                self.seconds_milli as int,
            ),
    {
        let mag: i64 = if self.degrees < 0 {
            -self.degrees
        } else {
            self.degrees
        };
        let total_milli: i64 = mag * 3600000 + self.minutes * 60000 + self.seconds_milli;
        let q: i64 = div_fp(total_milli * 5, 18);
        if self.degrees < 0 {
            -q
        } else {
            q
        }
    }

    /// The conventional reading, sign first, as `-31d31m8.9s`.
    pub fn to_display_string(&self) -> (s: String)
        ensures
            s@ == dms_display(*self),
    {
        proof {
            reveal_strlit("d");
            reveal_strlit("m");
            reveal_strlit("s");
        }
        let mut s: String = crate::text::i64_to_string(self.degrees);
        s.append("d");
        let minutes: String = crate::text::i64_to_string(self.minutes);
        s.append(minutes.as_str());
        s.append("m");
        let seconds: String = crate::text::format_milli(self.seconds_milli);
        s.append(seconds.as_str());
        s.append("s");
        proof {
            assert(s@ =~= dms_display(*self));
        }
        s
    }
}

/// The display form: degrees, minutes and seconds with their unit letters.
pub open spec fn dms_display(a: DMS) -> Seq<char> {
    dec_signed(a.degrees as int) + seq!['d'] + dec_signed(a.minutes as int) + seq!['m']
        + milli_digits(a.seconds_milli as int) + seq!['s']
}

} // verus!
