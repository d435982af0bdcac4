use stargazer::parse::{parse_dec_field, parse_int_field};
use stargazer::text::{format_centi, format_milli, i64_to_string, u64_to_string};

fn chars(s: &str) -> Vec<char> {
    s.chars().collect()
}

#[test]
fn decimal_fields_scale_to_the_place_count() {
    assert_eq!(parse_dec_field(&chars("0.5"), 6), Some(500_000));
    assert_eq!(parse_dec_field(&chars(".5"), 6), Some(500_000));
    assert_eq!(parse_dec_field(&chars("20."), 3), Some(20_000));
    assert_eq!(parse_dec_field(&chars("-0.5"), 6), Some(-500_000));
    assert_eq!(parse_dec_field(&chars("20.99"), 3), Some(20_990));
}

#[test]
fn decimal_fields_truncate_past_the_place_count() {
    assert_eq!(parse_dec_field(&chars("1.2345678"), 6), Some(1_234_567));
}

#[test]
fn decimal_fields_reject_what_is_not_a_number() {
    assert_eq!(parse_dec_field(&chars("abc"), 6), None);
    assert_eq!(parse_dec_field(&chars(""), 6), None);
    assert_eq!(parse_dec_field(&chars("."), 6), None);
    assert_eq!(parse_dec_field(&chars("1.2.3"), 6), None);
    assert_eq!(parse_dec_field(&chars("1e5"), 6), None);
}

#[test]
fn integer_fields_read_signs_and_padding() {
    assert_eq!(parse_int_field(&chars("+5")), Some(5));
    assert_eq!(parse_int_field(&chars("04")), Some(4));
    assert_eq!(parse_int_field(&chars("-2147483648")), Some(-2147483648));
}

#[test]
fn integer_fields_stop_at_the_32_bit_range() {
    assert_eq!(parse_int_field(&chars("2147483647")), Some(2147483647));
    assert_eq!(parse_int_field(&chars("2147483648")), None);
    assert_eq!(parse_int_field(&chars("-2147483649")), None);
    assert_eq!(parse_int_field(&chars("00000000002147483648")), None);
}

#[test]
fn numbers_render_back_to_decimal() {
    assert_eq!(u64_to_string(1234567890), "1234567890");
    assert_eq!(i64_to_string(-10), "-10");
    assert_eq!(i64_to_string(0), "0");
}

#[test]
fn milli_rendering_trims_trailing_zeros() {
    assert_eq!(format_milli(-8900), "-8.9");
    assert_eq!(format_milli(20990), "20.99");
    assert_eq!(format_milli(7000), "7");
    assert_eq!(format_milli(7001), "7.001");
}

#[test]
fn centi_rendering_keeps_two_places() {
    assert_eq!(format_centi(0), "0.00");
    assert_eq!(format_centi(9000), "90.00");
    assert_eq!(format_centi(4507), "45.07");
}
