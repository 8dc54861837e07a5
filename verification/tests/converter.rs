use consolekit::decimal::{format_hundredths, format_u64};
use consolekit::temperature::{
    celsius_to_fahrenheit, convert, fahrenheit_to_celsius, parse_unit, Unit,
};

#[test]
fn one_hundred_celsius_is_212_fahrenheit() {
    let c = convert("celsius", 10000).unwrap();
    assert_eq!(c.unit, Unit::Fahrenheit);
    assert_eq!(format_hundredths(c.value), "212.00");
}

#[test]
fn thirty_two_fahrenheit_is_zero_celsius() {
    let c = convert("fahrenheit", 3200).unwrap();
    assert_eq!(c.unit, Unit::Celsius);
    assert_eq!(format_hundredths(c.value), "0.00");
}

#[test]
fn kelvin_is_not_a_unit() {
    assert_eq!(convert("kelvin", 0), None);
    assert_eq!(parse_unit("kelvin"), None);
    assert_eq!(parse_unit(""), None);
    assert_eq!(parse_unit("celsiusx"), None);
}

#[test]
fn unit_tokens_ignore_ascii_case() {
    assert_eq!(parse_unit("FAHRENHEIT"), Some(Unit::Fahrenheit));
    assert_eq!(parse_unit("Fahrenheit"), Some(Unit::Fahrenheit));
    assert_eq!(parse_unit("celsius"), Some(Unit::Celsius));
    assert_eq!(parse_unit("CeLsIuS"), Some(Unit::Celsius));
}

#[test]
fn conversions_round_to_the_nearest_hundredth() {
    // 0 F = -17.78 C, rounded from -17.777...
    assert_eq!(fahrenheit_to_celsius(0), -1778);
    // 98.6 F = 37 C exactly
    assert_eq!(fahrenheit_to_celsius(9860), 3700);
    // 37 C = 98.6 F
    assert_eq!(celsius_to_fahrenheit(3700), 9860);
    // -40 is the fixed point of the two scales
    assert_eq!(fahrenheit_to_celsius(-4000), -4000);
    assert_eq!(celsius_to_fahrenheit(-4000), -4000);
}

#[test]
fn round_trip_stays_within_a_hundredth() {
    for v in [-123456i64, -4000, -1, 0, 1, 3200, 9876, 10000, 555555] {
        let there = fahrenheit_to_celsius(v);
        let back = celsius_to_fahrenheit(there);
        assert!((back - v).abs() <= 1, "{} went to {} and back to {}", v, there, back);
    }
}

#[test]
fn round_trip_matches_the_float_formula_within_rounding() {
    for v in [-7777i64, 0, 2112, 10000, 98765] {
        let f = (v as f64) / 100.0;
        let c = (f - 32.0) * 5.0 / 9.0;
        let exact = fahrenheit_to_celsius(v);
        assert!(((c * 100.0).round() as i64 - exact).abs() <= 1);
    }
}

#[test]
fn formatting_shows_two_decimals_and_a_sign() {
    assert_eq!(format_hundredths(21200), "212.00");
    assert_eq!(format_hundredths(0), "0.00");
    assert_eq!(format_hundredths(5), "0.05");
    assert_eq!(format_hundredths(-5), "-0.05");
    assert_eq!(format_hundredths(-1778), "-17.78");
    assert_eq!(format_hundredths(123456789), "1234567.89");
}

#[test]
fn whole_numbers_format_in_decimal() {
    assert_eq!(format_u64(0), "0");
    assert_eq!(format_u64(7), "7");
    assert_eq!(format_u64(10), "10");
    assert_eq!(format_u64(1234567890), "1234567890");
}
