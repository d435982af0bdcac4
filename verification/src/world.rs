//! Catalog objects: named bodies with equatorial positions.

pub mod object;
pub mod position;
