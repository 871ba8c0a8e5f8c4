use weatherbot::numfmt::{u64_str, fixed2_u64, fixed2_i64, milli_u64, milli_i64};
use weatherbot::weather::Main;
use weatherbot::render::{
    weather_reply, random_reply, temp_reply, clouds_reply, wind_reply, sun_reply,
};

#[test]
fn decimal_rendering_of_integers() {
    assert_eq!(u64_str(0), "0");
    assert_eq!(u64_str(7), "7");
    assert_eq!(u64_str(50), "50");
    assert_eq!(u64_str(18446744073709551615), "18446744073709551615");
}

#[test]
fn two_decimal_rendering() {
    assert_eq!(fixed2_u64(7160), "71.60");
    assert_eq!(fixed2_u64(2991), "29.91");
    assert_eq!(fixed2_u64(5), "0.05");
    assert_eq!(fixed2_u64(0), "0.00");
    assert_eq!(fixed2_i64(-967), "-9.67");
    assert_eq!(fixed2_i64(-5), "-0.05");
}

#[test]
fn trimmed_thousandths_rendering() {
    assert_eq!(milli_u64(10_000), "10");
    assert_eq!(milli_u64(3_600), "3.6");
    assert_eq!(milli_u64(3_650), "3.65");
    assert_eq!(milli_u64(3_652), "3.652");
    assert_eq!(milli_u64(0), "0");
    assert_eq!(milli_i64(-5_230), "-5.23");
}

fn testville_main() -> Main {
    Main {
        temp: 29515,
        feels_like: 29515,
        temp_min: 29515,
        temp_max: 29515,
        pressure: 1013,
        humidity: 50,
    }
}

#[test]
fn weather_summary_for_a_full_record() {
    let m = testville_main();
    let s = weather_reply("Testville", &m);
    assert_eq!(
        s,
        "The weather in Testville is:\n\u{1f321}\u{fe0f} Temp: 71.60\u{b0}F  \u{1f613} Feels Like: 71.60\u{b0}F,\n\u{1f9ca} Min Temp: 71.60\u{b0}F  \u{1f525} Max Temp: 71.60\u{b0}F\n\u{1f32c}\u{fe0f} Pressure: 29.91inHg  \u{1f4a7} Humidity: 50%"
    );
}

#[test]
fn weather_summary_contains_the_converted_fields() {
    let m = testville_main();
    let s = weather_reply("Testville", &m);
    assert!(s.contains("Temp: 71.60°F"));
    assert!(s.contains("Pressure: 29.91inHg  💧 Humidity: 50%"));
}

#[test]
fn random_city_summary_interpolates_country_and_flag() {
    let m = testville_main();
    let s = random_reply("Tokyo", "Japan", "🇯🇵", &m);
    assert!(s.starts_with("The weather in Tokyo, Japan 🇯🇵 is:\n"));
    assert!(s.contains("Temp: 71.60°F"));
    assert!(s.ends_with("Humidity: 50%"));
}

#[test]
fn temperature_reply_shows_all_three_units() {
    let s = temp_reply("Charlotte", 29515);
    assert_eq!(
        s,
        "The temperature in Charlotte is:\n🌡️ 295.15°K (Kelvin)\n🌡️ 22.00°C (Celsius)\n🌡️ 71.60°F (Fahrenheit)"
    );
}

#[test]
fn clouds_reply_shows_integer_percent() {
    assert_eq!(
        clouds_reply("Oslo", 75),
        "The cloud coverage in Oslo is\n☁️ 75%"
    );
}

#[test]
fn wind_reply_shows_both_units() {
    assert_eq!(
        wind_reply("Chicago", 10_000),
        "The wind speed in Chicago is\n💨 22.37 mph (10 m/s)"
    );
    assert_eq!(
        wind_reply("Chicago", 5_230),
        "The wind speed in Chicago is\n💨 11.70 mph (5.23 m/s)"
    );
}

#[test]
fn sun_reply_wraps_the_rendered_instants() {
    assert_eq!(
        sun_reply("Lima", "1970-01-01T00:00:00+00:00", "1970-01-01T12:00:00+00:00"),
        "The sunset/sunrise in Lima is:\nSunrise🌅 1970-01-01T00:00:00+00:00\nSunset🌙 1970-01-01T12:00:00+00:00"
    );
}
