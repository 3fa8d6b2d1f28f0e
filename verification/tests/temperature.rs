//! Temperature values are fixed-point numbers in tenths of a degree, so
//! 10 degrees Celsius is written 100 and 50 degrees Fahrenheit 500.

use umbrella::temperature::celsius_to_fahrenheit;
use umbrella::temperature::fahrenheit_to_celsius;
use umbrella::Celsius;
use umbrella::Fahrenheit;
use umbrella::Temperature;

#[test]
fn temperature_can_be_expressed_as_celsius_or_fahrenheit() {
    let temp = Temperature::from_celsius(100);
    assert_eq!(temp.as_celsius(), 100, "wrong celsius");
    assert_eq!(temp.as_fahrenheit(), 500, "wrong fahrenheit");
}

#[test]
fn temperature_converts_between_units_correctly() {
    let t = Temperature::from::<Celsius>(0);
    assert_eq!(t.to::<Celsius>(), 0);
    assert_eq!(t.to::<Fahrenheit>(), 320);
    let t = Temperature::from::<Fahrenheit>(2120);
    assert_eq!(t.to::<Fahrenheit>(), 2120);
    assert_eq!(t.to::<Celsius>(), 1000);
}

#[test]
fn conversion_functions_match_fixed_points() {
    assert_eq!(celsius_to_fahrenheit(0), 320);
    assert_eq!(celsius_to_fahrenheit(1000), 2120);
    assert_eq!(fahrenheit_to_celsius(320), 0);
    assert_eq!(fahrenheit_to_celsius(2120), 1000);
}

#[test]
fn round_trip_is_exact_on_half_degrees() {
    for c in [-1000i64, -115, -55, -5, 0, 5, 110, 375, 1000] {
        assert_eq!(fahrenheit_to_celsius(celsius_to_fahrenheit(c)), c);
    }
}

#[test]
fn round_trip_loses_at_most_one_tenth() {
    for c in [-1001i64, -13, -1, 1, 2, 3, 13, 999, 1001] {
        let back = fahrenheit_to_celsius(celsius_to_fahrenheit(c));
        assert!((back - c).abs() <= 1, "round trip of {c} gave {back}");
    }
}

#[test]
fn negative_temperatures_convert() {
    let t = Temperature::from_celsius(-400);
    assert_eq!(t.as_celsius(), -400);
    assert_eq!(t.as_fahrenheit(), -400);
}
