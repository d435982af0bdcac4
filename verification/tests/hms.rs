use stargazer::units::dms::DMS;
use stargazer::units::hms::HMS;

#[test]
fn test_create() {
    let hms = HMS::from_str("18:04:20.99").unwrap();
    assert_eq!(hms.hours, 18);
    assert_eq!(hms.minutes, 04);
    assert_eq!(hms.seconds_milli, 20990);
}

#[test]
fn hms_rejects_two_fields() {
    assert!(HMS::from_str("18:04").is_err());
}

#[test]
fn hms_rejects_extra_fields() {
    assert!(HMS::from_str("18:04:20.99:7").is_err());
}

#[test]
fn hms_rejects_letters() {
    assert!(HMS::from_str("18:xx:20.99").is_err());
}

#[test]
fn dms_keeps_the_sign_of_the_degrees() {
    let dms = DMS::from_str("-31:31:8.9").unwrap();
    assert_eq!(dms.degrees, -31);
    assert_eq!(dms.minutes, 31);
    assert_eq!(dms.seconds_milli, 8900);
}

#[test]
fn hms_to_degrees_follows_the_formula() {
    // (18 + 4/60 + 20.99/3600) * 15 degrees, in millionths
    let hms = HMS::from_str("18:04:20.99").unwrap();
    let micro = hms.to_degrees();
    assert_eq!(micro, 271_087_458);
    let expected = (18.0f64 + 4.0 / 60.0 + 20.99 / 3600.0) * 15.0;
    assert!((micro as f64 / 1e6 - expected).abs() < 1e-3);
}

#[test]
fn dms_to_degrees_follows_the_formula() {
    let dms = DMS::from_str("-31:31:8.9").unwrap();
    let micro = dms.to_degrees();
    // sign(-31) * (31 + 31/60 + 8.9/3600) degrees, in millionths
    let expected = -(31.0f64 + 31.0 / 60.0 + 8.9 / 3600.0);
    assert!((micro as f64 / 1e6 - expected).abs() < 1e-3);
    assert_eq!(micro, -31_519_138);
}

#[test]
fn hms_display_drops_trailing_zeros() {
    let hms = HMS::from_str("18:04:20.99").unwrap();
    assert_eq!(hms.to_display_string(), "18h4m20.99s");
    let whole = HMS { hours: 2, minutes: 0, seconds_milli: 7000 };
    assert_eq!(whole.to_display_string(), "2h0m7s");
}

#[test]
fn from_degrees_wraps_onto_the_clock() {
    let seed = HMS { hours: 0, minutes: 0, seconds_milli: 0 };
    let hms = seed.from_degrees(271_087_458);
    assert_eq!(hms.hours, 18);
    assert_eq!(hms.minutes, 4);
    assert_eq!(hms.seconds_milli, 20989);
}
