//! The star catalog: comma-separated records of polar coordinates, read
//! through the `csv` crate and decoded into scene data here.

use vstd::prelude::*;
use crate::fixed::SCALE;
use crate::parse::{dec_field_value, parse_dec_field, to_char_vec, FormatError};
use crate::units::polar::Polar;

verus! {

/// What the `csv` crate reads out of a byte stream with headers off and
/// default delimiters: the rows of text fields, or nothing when the bytes
/// are not well-formed records of equal width. The result is a function of
/// the bytes alone.
pub uninterp spec fn csv_parse_of(b: Seq<u8>) -> Option<Seq<Seq<Seq<char>>>>;

/// The text of every field of every row.
pub open spec fn rows_view(rows: Vec<Vec<String>>) -> Seq<Seq<Seq<char>>> {
    rows@.map_values(|row: Vec<String>| row@.map_values(|f: String| f@))
}

/// Relies on csv::ReaderBuilder with has_headers(false) over an in-memory
/// byte slice: it yields each record's fields as text, erring exactly on
/// malformed input (bad encoding or unequal record widths).
#[verifier::external_body]
fn csv_rows(bytes: &[u8]) -> (r: Result<Vec<Vec<String>>, FormatError>)
    ensures
        match r {
            Ok(rows) => csv_parse_of(bytes@) == Some(rows_view(rows)),
            Err(_) => csv_parse_of(bytes@).is_none(),
        },
{
    let mut rdr = csv::ReaderBuilder::new().has_headers(false).from_reader(bytes);
    let mut out: Vec<Vec<String>> = Vec::new();
    for record in rdr.records() {
        match record {
            Ok(rec) => {
                let mut row: Vec<String> = Vec::new();
                for field in rec.iter() {
                    row.push(field.to_string());
                }
                out.push(row);
            },
            Err(_) => return Err(FormatError),
        }
    }
    Ok(out)
}

/// What one catalog row locates: its second field is the colatitude and
/// its third the azimuth, both decimal radians, on the unit sphere; the
/// first field is an identifier and is not read.
pub open spec fn polar_of_row(row: Seq<Seq<char>>) -> Option<Polar> {
    if row.len() >= 3 && dec_field_value(row[1], 6).is_some() && dec_field_value(
        row[2],
        6,
    ).is_some() {
        Some(
            Polar {
                theta: dec_field_value(row[1], 6).unwrap() as i64,
                phi: dec_field_value(row[2], 6).unwrap() as i64,
                radius: SCALE,
            },
        )
    } else {
        None
    }
}

/// The constellation a catalog names: the polar point of every row in
/// order, or nothing when any row fails to decode.
pub open spec fn constellation_of(b: Seq<u8>) -> Option<Seq<Polar>> {
    match csv_parse_of(b) {
        None => None,
        Some(rows) => {
            if forall|i: int| 0 <= i < rows.len() ==> polar_of_row(#[trigger] rows[i]).is_some() {
                Some(Seq::new(rows.len(), |i: int| polar_of_row(rows[i]).unwrap()))
            } else {
                None
            }
        },
    }
}

/// Reads a constellation path out of catalog bytes: one polar point per
/// record, in record order; a malformed record is a fatal setup error.
pub fn setup_constellations(bytes: &[u8]) -> (r: Result<Vec<Polar>, FormatError>)
    ensures
        match r {
            Ok(ps) => constellation_of(bytes@) == Some(ps@),
            Err(_) => constellation_of(bytes@).is_none(),
        },
{
    let rows: Vec<Vec<String>> = match csv_rows(bytes) {
        Ok(rows) => rows,
        Err(e) => {
            return Err(e);
        },
    };
    let n: usize = rows.len();
    let mut out: Vec<Polar> = Vec::new();
    let mut i: usize = 0;
    while i < n
        invariant
            i <= n,
            n == rows@.len(),
            csv_parse_of(bytes@) == Some(rows_view(rows)),
            out@.len() == i,
            forall|k: int|
                0 <= k < i ==> polar_of_row(#[trigger] rows_view(rows)[k]) == Some(out@[k]),
        decreases n - i,
    {
        proof {
            assert(rows_view(rows)[i as int] == rows@[i as int]@.map_values(|f: String| f@));
        }
        match decode_polar_row(&rows[i]) {
            Some(p) => {
                out.push(p);
            },
            None => {
                return Err(FormatError);
            },
        }
        i = i + 1;
    }
    proof {
        let rs = rows_view(rows);
        assert(constellation_of(bytes@) == Some(Seq::new(rs.len(), |k: int| polar_of_row(
            rs[k],
        ).unwrap())));
        assert(out@ =~= Seq::new(rs.len(), |k: int| polar_of_row(rs[k]).unwrap()));
    }
    Ok(out)
}

/// Decodes one catalog row into its polar point.
fn decode_polar_row(row: &Vec<String>) -> (r: Option<Polar>)
    ensures
        r == polar_of_row(row@.map_values(|f: String| f@)),
{
    proof {
        if row@.len() >= 3 {
            assert(row@.map_values(|f: String| f@)[1] == row@[1]@);
            assert(row@.map_values(|f: String| f@)[2] == row@[2]@);
        }
    }
    if row.len() < 3 {
        return None;
    }
    let theta_chars: Vec<char> = to_char_vec(row[1].as_str());
    let phi_chars: Vec<char> = to_char_vec(row[2].as_str());
    let theta: Option<i64> = parse_dec_field(&theta_chars, 6);
    let phi: Option<i64> = parse_dec_field(&phi_chars, 6);
    match (theta, phi) {
        (Some(t), Some(p)) => Some(Polar { theta: t, phi: p, radius: SCALE }),
        _ => None,
    }
}

/// One star as the catalog sets it up: where it sits on the sphere and how
/// large its sprite renders, in millionths of a pixel.
#[derive(Clone, Copy, PartialEq, Eq, Structural, Debug)]
pub struct StarSetup {
    pub position: Polar,
    pub size: i64,
}

/// The sprite size a magnitude maps to: five less the magnitude, and never
/// under one pixel.
pub open spec fn star_size_micro(magnitude_micro: int) -> int {
    if 5_000_000 - magnitude_micro > 1_000_000 {
        5_000_000 - magnitude_micro
    } else {
        1_000_000
    }
}

/// What one star row sets up: its polar point, and a sprite size from the
/// magnitude in its fourth field.
pub open spec fn star_of_row(row: Seq<Seq<char>>) -> Option<StarSetup> {
    if row.len() >= 4 && polar_of_row(row).is_some() && dec_field_value(row[3], 6).is_some() {
        Some(
            StarSetup {
                position: polar_of_row(row).unwrap(),
                size: star_size_micro(dec_field_value(row[3], 6).unwrap()) as i64,
            },
        )
    } else {
        None
    }
}

/// The stars a catalog names, in record order.
pub open spec fn stars_of(b: Seq<u8>) -> Option<Seq<StarSetup>> {
    match csv_parse_of(b) {
        None => None,
        Some(rows) => {
            if forall|i: int| 0 <= i < rows.len() ==> star_of_row(#[trigger] rows[i]).is_some() {
                Some(Seq::new(rows.len(), |i: int| star_of_row(rows[i]).unwrap()))
            } else {
                None
            }
        },
    }
}

/// Reads the star sprites out of catalog bytes: one star per record, in
/// record order; a malformed record is a fatal setup error.
pub fn setup_sprites(bytes: &[u8]) -> (r: Result<Vec<StarSetup>, FormatError>)
    ensures
        match r {
            Ok(ss) => stars_of(bytes@) == Some(ss@),
            Err(_) => stars_of(bytes@).is_none(),
        },
{
    let rows: Vec<Vec<String>> = match csv_rows(bytes) {
        Ok(rows) => rows,
        Err(e) => {
            return Err(e);
        },
    };
    let n: usize = rows.len();
    let mut out: Vec<StarSetup> = Vec::new();
    let mut i: usize = 0;
    while i < n
        invariant
            i <= n,
            n == rows@.len(),
            csv_parse_of(bytes@) == Some(rows_view(rows)),
            out@.len() == i,
            forall|k: int|
                0 <= k < i ==> star_of_row(#[trigger] rows_view(rows)[k]) == Some(out@[k]),
        decreases n - i,
    {
        proof {
            assert(rows_view(rows)[i as int] == rows@[i as int]@.map_values(|f: String| f@));
        }
        match decode_star_row(&rows[i]) {
            Some(s) => {
                out.push(s);
            },
            None => {
                return Err(FormatError);
            },
        }
        i = i + 1;
    }
    proof {
        let rs = rows_view(rows);
        assert(stars_of(bytes@) == Some(Seq::new(rs.len(), |k: int| star_of_row(rs[k]).unwrap())));
        assert(out@ =~= Seq::new(rs.len(), |k: int| star_of_row(rs[k]).unwrap()));
    }
    Ok(out)
}

/// Decodes one catalog row into a star.
fn decode_star_row(row: &Vec<String>) -> (r: Option<StarSetup>)
    ensures
        r == star_of_row(row@.map_values(|f: String| f@)),
{
    proof {
        if row@.len() >= 4 {
            assert(row@.map_values(|f: String| f@)[3] == row@[3]@);
        }
    }
    if row.len() < 4 {
        return None;
    }
    let position: Polar = match decode_polar_row(row) {
        Some(p) => p,
        None => {
            return None;
        },
    };
    let mag_chars: Vec<char> = to_char_vec(row[3].as_str());
    let magnitude: Option<i64> = parse_dec_field(&mag_chars, 6);
    match magnitude {
        Some(mag) => {
            proof {
                assert(crate::parse::pow10(6) == 1_000_000) by {
                    reveal_with_fuel(crate::parse::pow10, 8);
                }
            }
            let raw: i64 = 5_000_000 - mag;
            let size: i64 = if raw > 1_000_000 {
                raw
            } else {
                1_000_000
            };
            Some(StarSetup { position, size })
        },
        None => None,
    }
}

} // verus!
