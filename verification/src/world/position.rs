//! An equatorial position: right ascension and declination.

use vstd::prelude::*;
use crate::parse::{split_chars, split_on, to_char_vec, FormatError};
use crate::units::dms::{dms_display, dms_parse, dms_wf, DMS};
use crate::units::hms::{hms_display, hms_parse, hms_wf, HMS};

verus! {

/// A position on the celestial sphere.
#[derive(Clone, Copy, PartialEq, Eq, Structural, Debug)]
pub struct Position {
    pub right_ascension: HMS,
    pub declination: DMS,
}

/// What a well-formed position string denotes: a right ascension and a
/// declination, comma-separated.
pub open spec fn position_parse(s: Seq<char>) -> Option<((int, int, int), (int, int, int))> {
    let fs = split_on(s, ',');
    if fs.len() == 2 && hms_parse(fs[0]).is_some() && dms_parse(fs[1]).is_some() {
        Some((hms_parse(fs[0]).unwrap(), dms_parse(fs[1]).unwrap()))
    } else {
        None
    }
}

/// Both angles stay inside the ranges the parser admits.
pub open spec fn position_wf(p: Position) -> bool {
    hms_wf(p.right_ascension) && dms_wf(p.declination)
}

impl Position {
    /// Reads a position out of a string of exactly two comma-separated
    /// sexagesimal angles; any other shape, extra fields included, is a
    /// `FormatError` — the parser accepts exactly the fields it reads,
    /// matching the three-field angle grammar.
    pub fn from_str(s: &str) -> (r: Result<Position, FormatError>)
        ensures
            match r {
                Ok(p) => position_parse(s@) == Some(
                    (
                        (
                            p.right_ascension.hours as int,
                            p.right_ascension.minutes as int,
                            p.right_ascension.seconds_milli as int,
                        ),
                        (
                            p.declination.degrees as int,
                            p.declination.minutes as int,
                            p.declination.seconds_milli as int,
                        ),
                    ),
                ) && position_wf(p),
                Err(_) => position_parse(s@).is_none(),
            },
    {
        let chars: Vec<char> = to_char_vec(s);
        let fields: Vec<Vec<char>> = split_chars(&chars, ',');
        if fields.len() != 2 {
            return Err(FormatError);
        }
        proof {
            assert(fields@.map_values(|f: Vec<char>| f@)[0] == fields@[0]@);
            assert(fields@.map_values(|f: Vec<char>| f@)[1] == fields@[1]@);
        }
        let ra: Result<HMS, FormatError> = HMS::from_chars(&fields[0]);
        let dec: Result<DMS, FormatError> = DMS::from_chars(&fields[1]);
        match (ra, dec) {
            (Ok(h), Ok(d)) => Ok(Position { right_ascension: h, declination: d }),
            _ => Err(FormatError),
        }
    }

    /// The conventional reading: `RA: 18h4m20.99s, DEC : -31d31m8.9s`.
    pub fn to_display_string(&self) -> (s: String)
        ensures
            s@ == position_display(*self),
    {
        proof {
            reveal_strlit("RA: ");
            reveal_strlit(", DEC : ");
        }
        let mut s: String = String::from_str("RA: ");
        let ra: String = self.right_ascension.to_display_string();
        s.append(ra.as_str());
        s.append(", DEC : ");
        let dec: String = self.declination.to_display_string();
        s.append(dec.as_str());
        proof {
            assert(s@ =~= position_display(*self));
        }
        s
    }
}

/// The display form, each angle in its conventional reading.
pub open spec fn position_display(p: Position) -> Seq<char> {
    "RA: "@ + hms_display(p.right_ascension) + ", DEC : "@ + dms_display(p.declination)
}

} // verus!
