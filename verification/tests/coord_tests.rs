use stargazer::stargazer::coord::{degrees_to_HMS, Coord, DMS, HMS};
use stargazer::stargazer::lst::deg_to_hms;

#[test]
fn degrees_to_hms_matches_the_method() {
    let hms = degrees_to_HMS(271_087_458);
    assert_eq!(hms.hours, 18);
    assert_eq!(hms.minutes, 4);
    assert_eq!(hms.seconds_milli, 20989);
}

#[test]
fn coord_trait_reads_both_units() {
    let h = HMS::from_str("18:04:20.99").unwrap();
    let d = DMS::from_str("-31:31:8.9").unwrap();
    assert_eq!(Coord::to_degrees(&h), 271_087_458);
    assert_eq!(Coord::to_degrees(&d), -31_519_138);
}

#[test]
fn deg_to_hms_returns_the_remainders() {
    let (hours, minutes_micro, seconds_micro) = deg_to_hms(271_087_458);
    assert_eq!(hours, 18);
    assert_eq!(minutes_micro / 1_000_000, 4);
    assert_eq!(seconds_micro / 1_000_000, 20);
}

#[test]
fn deg_to_hms_wraps_a_full_turn() {
    let (hours, minutes_micro, seconds_micro) = deg_to_hms(375_000_000);
    assert_eq!(hours, 1);
    assert_eq!(minutes_micro, 0);
    assert_eq!(seconds_micro, 0);
}
