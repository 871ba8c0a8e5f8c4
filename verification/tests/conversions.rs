use weatherbot::units::{celsius_centi, fahrenheit_centi, inhg_centi, mph_centi, miles_centi};

#[test]
fn fahrenheit_matches_formula_at_295_15_kelvin() {
    // (295.15 - 273.15) * 9/5 + 32 = 71.60 exactly
    assert_eq!(fahrenheit_centi(29515), 7160);
}

#[test]
fn celsius_matches_formula_at_295_15_kelvin() {
    // 295.15 - 273.15 = 22.00 exactly
    assert_eq!(celsius_centi(29515), 2200);
}

#[test]
fn fahrenheit_rounds_to_nearest_hundredth() {
    // (295.37 - 273.15) * 9/5 + 32 = 71.996, which shows as 72.00
    assert_eq!(fahrenheit_centi(29537), 7200);
}

#[test]
fn fahrenheit_at_the_freezing_point() {
    assert_eq!(fahrenheit_centi(27315), 3200);
    assert_eq!(celsius_centi(27315), 0);
}

#[test]
fn fahrenheit_below_the_freezing_point() {
    // 250.00 K = -23.15 C = -9.67 F
    assert_eq!(fahrenheit_centi(25000), -967);
    assert_eq!(celsius_centi(25000), -2315);
}

#[test]
fn pressure_conversion_at_1013_hectopascal() {
    // 1013 * 0.02953 = 29.9139, which shows as 29.91
    assert_eq!(inhg_centi(1013), 2991);
}

#[test]
fn wind_conversion_at_ten_meters_per_second() {
    // 10.0 * 2.23694 = 22.3694, which shows as 22.37
    assert_eq!(mph_centi(10_000), 2237);
}

#[test]
fn wind_conversion_at_a_fractional_speed() {
    // 5.23 * 2.23694 = 11.699..., which shows as 11.70
    assert_eq!(mph_centi(5_230), 1170);
}

#[test]
fn miles_conversion() {
    // 343.56 km * 0.621371 = 213.478..., which shows as 213.48
    assert_eq!(miles_centi(34356), 21348);
    assert_eq!(miles_centi(0), 0);
}
