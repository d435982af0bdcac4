//! Units of angular measure: hour- and degree-based sexagesimal angles and
//! spherical polar points.

pub mod dms;
pub mod hms;
pub mod polar;
