//! The exact text of every reply, one spec function per message shape and
//! one verified builder for each. All display conversion happens here:
//! kelvin to fahrenheit and celsius, hectopascals to inches of mercury,
//! meters per second to miles per hour, each rendered with two decimals
//! (integer percentages stay integers). The shared block of the full
//! weather summary is factored out once and reused by both the plain and
//! the random-city variant.

use vstd::prelude::*;
use vstd::string::*;
use crate::numfmt::{dec_str, fixed2_str, milli_str, u64_str, fixed2_i64, fixed2_u64, milli_i64};
use crate::units::{
    spec_celsius_centi, spec_fahrenheit_centi, spec_inhg_centi, spec_mph_centi, spec_miles_centi,
    celsius_centi, fahrenheit_centi, inhg_centi, mph_centi, miles_centi,
};
use crate::weather::Main;

verus! {

/// The temperature/pressure/humidity block shared by the full weather
/// summary and the random-city summary.
pub open spec fn spec_conditions_block(m: Main) -> Seq<char> {
    "🌡️ Temp: "@ + fixed2_str(spec_fahrenheit_centi(m.temp as int))
        + "°F  😓 Feels Like: "@ + fixed2_str(spec_fahrenheit_centi(m.feels_like as int))
        + "°F,\n🧊 Min Temp: "@ + fixed2_str(spec_fahrenheit_centi(m.temp_min as int))
        + "°F  🔥 Max Temp: "@ + fixed2_str(spec_fahrenheit_centi(m.temp_max as int))
        + "°F\n🌬️ Pressure: "@ + fixed2_str(spec_inhg_centi(m.pressure as int))
        + "inHg  💧 Humidity: "@ + dec_str(m.humidity as nat) + "%"@
}

/// The full weather summary for the city name the provider reported.
pub open spec fn spec_weather_reply(name: Seq<char>, m: Main) -> Seq<char> {
    "The weather in "@ + name + " is:\n"@ + spec_conditions_block(m)
}

/// The weather summary for a randomly drawn city, with its country and
/// flag glyph interpolated into the header line.
pub open spec fn spec_random_reply(
    city: Seq<char>,
    country: Seq<char>,
    flag: Seq<char>,
    m: Main,
) -> Seq<char> {
    "The weather in "@ + city + ", "@ + country + " "@ + flag + " is:\n"@
        + spec_conditions_block(m)
}

/// The temperature-only reply: kelvin, celsius and fahrenheit.
pub open spec fn spec_temp_reply(city: Seq<char>, temp: int) -> Seq<char> {
    "The temperature in "@ + city + " is:\n🌡️ "@ + fixed2_str(temp)
        + "°K (Kelvin)\n🌡️ "@ + fixed2_str(spec_celsius_centi(temp))
        + "°C (Celsius)\n🌡️ "@ + fixed2_str(spec_fahrenheit_centi(temp))
        + "°F (Fahrenheit)"@
}

/// The sunrise/sunset reply around two already-rendered local date-times.
pub open spec fn spec_sun_reply(city: Seq<char>, rise: Seq<char>, set: Seq<char>) -> Seq<char> {
    "The sunset/sunrise in "@ + city + " is:\nSunrise🌅 "@ + rise + "\nSunset🌙 "@ + set
}

/// The cloud-coverage reply, an integer percentage.
pub open spec fn spec_clouds_reply(city: Seq<char>, all: int) -> Seq<char> {
    "The cloud coverage in "@ + city + " is\n☁️ "@ + dec_str(all as nat) + "%"@
}

/// The wind reply: miles per hour to two decimals, the raw meters per
/// second at source precision.
pub open spec fn spec_wind_reply(city: Seq<char>, speed: int) -> Seq<char> {
    "The wind speed in "@ + city + " is\n💨 "@ + fixed2_str(spec_mph_centi(speed))
        + " mph ("@ + milli_str(speed) + " m/s)"@
}

/// The great-circle distance reply, kilometers and miles to two decimals.
pub open spec fn spec_distance_reply(c1: Seq<char>, c2: Seq<char>, km_centi: int) -> Seq<char> {
    "The distance between "@ + c1 + " and "@ + c2 + " is "@ + fixed2_str(km_centi)
        + " kilometers, and "@ + fixed2_str(spec_miles_centi(km_centi)) + " miles."@
}

/// The fallback for the full weather command.
pub open spec fn spec_city_not_found(city: Seq<char>) -> Seq<char> {
    "The city '"@ + city + "' doesn't exist or couldn't be found."@
}

/// The fallback for the temperature command.
pub open spec fn spec_temp_error(city: Seq<char>) -> Seq<char> {
    "Could not find temperature data for '"@ + city + "'"@
}

/// The fallback for the sunrise/sunset command.
pub open spec fn spec_sun_error(city: Seq<char>) -> Seq<char> {
    "Could not find sunset/sunrise data for '"@ + city + "'"@
}

/// The fallback for the cloud-coverage command.
pub open spec fn spec_clouds_error(city: Seq<char>) -> Seq<char> {
    "Could not retrieve cloud information for '"@ + city + "'."@
}

/// The fallback for the wind command.
pub open spec fn spec_wind_error(city: Seq<char>) -> Seq<char> {
    "Could not retrieve wind speed information for '"@ + city + "'."@
}

/// The fallback for either slot of the distance command.
pub open spec fn spec_no_weather_data(city: Seq<char>) -> Seq<char> {
    "Could not find weather data for '"@ + city + "'"@
}

/// The fallback for the random-city command.
pub open spec fn spec_random_error(city: Seq<char>, country: Seq<char>) -> Seq<char> {
    "Could not find weather data for '"@ + city + "', '"@ + country + "'"@
}

/// Builds the shared temperature/pressure/humidity block.
pub fn conditions_block(m: &Main) -> (r: String)
    requires
        m.wf(),
    ensures
        r@ == spec_conditions_block(*m),
{
    let mut r = String::new();
    r.append("🌡️ Temp: ");
    r.append(fixed2_i64(fahrenheit_centi(m.temp)).as_str());
    r.append("°F  😓 Feels Like: ");
    r.append(fixed2_i64(fahrenheit_centi(m.feels_like)).as_str());
    r.append("°F,\n🧊 Min Temp: ");
    r.append(fixed2_i64(fahrenheit_centi(m.temp_min)).as_str());
    r.append("°F  🔥 Max Temp: ");
    r.append(fixed2_i64(fahrenheit_centi(m.temp_max)).as_str());
    r.append("°F\n🌬️ Pressure: ");
    r.append(fixed2_u64(inhg_centi(m.pressure)).as_str());
    r.append("inHg  💧 Humidity: ");
    r.append(u64_str(m.humidity as u64).as_str());
    r.append("%");
    proof {
        assert(r@ =~= spec_conditions_block(*m));
    }
    r
}

/// Builds the full weather summary.
pub fn weather_reply(name: &str, m: &Main) -> (r: String)
    requires
        m.wf(),
    ensures
        r@ == spec_weather_reply(name@, *m),
{
    let mut r = String::new();
    r.append("The weather in ");
    r.append(name);
    r.append(" is:\n");
    r.append(conditions_block(m).as_str());
    proof {
        assert(r@ =~= spec_weather_reply(name@, *m));
    }
    r
}

/// Builds the random-city weather summary.
pub fn random_reply(city: &str, country: &str, flag: &str, m: &Main) -> (r: String)
    requires
        m.wf(),
    ensures
        r@ == spec_random_reply(city@, country@, flag@, *m),
{
    let mut r = String::new();
    r.append("The weather in ");
    r.append(city);
    r.append(", ");
    r.append(country);
    r.append(" ");
    r.append(flag);
    r.append(" is:\n");
    r.append(conditions_block(m).as_str());
    proof {
        assert(r@ =~= spec_random_reply(city@, country@, flag@, *m));
    }
    r
}

/// Builds the temperature-only reply.
pub fn temp_reply(city: &str, temp: i64) -> (r: String)
    requires
        -crate::units::TEMP_LIMIT <= temp <= crate::units::TEMP_LIMIT,
    ensures
        r@ == spec_temp_reply(city@, temp as int),
{
    let mut r = String::new();
    r.append("The temperature in ");
    r.append(city);
    r.append(" is:\n🌡️ ");
    r.append(fixed2_i64(temp).as_str());
    r.append("°K (Kelvin)\n🌡️ ");
    r.append(fixed2_i64(celsius_centi(temp)).as_str());
    r.append("°C (Celsius)\n🌡️ ");
    r.append(fixed2_i64(fahrenheit_centi(temp)).as_str());
    r.append("°F (Fahrenheit)");
    proof {
        assert(r@ =~= spec_temp_reply(city@, temp as int));
    }
    r
}

/// Builds the sunrise/sunset reply from two rendered local date-times.
pub fn sun_reply(city: &str, rise: &str, set: &str) -> (r: String)
    ensures
        r@ == spec_sun_reply(city@, rise@, set@),
{
    let mut r = String::new();
    r.append("The sunset/sunrise in ");
    r.append(city);
    r.append(" is:\nSunrise🌅 ");
    r.append(rise);
    r.append("\nSunset🌙 ");
    r.append(set);
    proof {
        assert(r@ =~= spec_sun_reply(city@, rise@, set@));
    }
    r
}

/// Builds the cloud-coverage reply.
pub fn clouds_reply(city: &str, all: u32) -> (r: String)
    ensures
        r@ == spec_clouds_reply(city@, all as int),
{
    let mut r = String::new();
    r.append("The cloud coverage in ");
    r.append(city);
    r.append(" is\n☁️ ");
    r.append(u64_str(all as u64).as_str());
    r.append("%");
    proof {
        assert(r@ =~= spec_clouds_reply(city@, all as int));
    }
    r
}

/// Builds the wind reply.
pub fn wind_reply(city: &str, speed: i64) -> (r: String)
    requires
        -crate::units::SPEED_LIMIT <= speed <= crate::units::SPEED_LIMIT,
    ensures
        r@ == spec_wind_reply(city@, speed as int),
{
    let mut r = String::new();
    r.append("The wind speed in ");
    r.append(city);
    r.append(" is\n💨 ");
    r.append(fixed2_i64(mph_centi(speed)).as_str());
    r.append(" mph (");
    r.append(milli_i64(speed).as_str());
    r.append(" m/s)");
    proof {
        assert(r@ =~= spec_wind_reply(city@, speed as int));
    }
    r
}

/// Builds the distance reply from the distance in hundredths of a
/// kilometer.
pub fn distance_reply(c1: &str, c2: &str, km_centi: u64) -> (r: String)
    requires
        km_centi <= 10_000_000,
    ensures
        r@ == spec_distance_reply(c1@, c2@, km_centi as int),
{
    let mut r = String::new();
    r.append("The distance between ");
    r.append(c1);
    r.append(" and ");
    r.append(c2);
    r.append(" is ");
    r.append(fixed2_u64(km_centi).as_str());
    r.append(" kilometers, and ");
    r.append(fixed2_u64(miles_centi(km_centi)).as_str());
    r.append(" miles.");
    proof {
        assert(r@ =~= spec_distance_reply(c1@, c2@, km_centi as int));
    }
    r
}

/// Builds the full-weather fallback message.
pub fn city_not_found(city: &str) -> (r: String)
    ensures
        r@ == spec_city_not_found(city@),
{
    let mut r = String::new();
    r.append("The city '");
    r.append(city);
    r.append("' doesn't exist or couldn't be found.");
    proof {
        assert(r@ =~= spec_city_not_found(city@));
    }
    r
}

/// Builds the temperature fallback message.
pub fn temp_error(city: &str) -> (r: String)
    ensures
        r@ == spec_temp_error(city@),
{
    let mut r = String::new();
    r.append("Could not find temperature data for '");
    r.append(city);
    r.append("'");
    proof {
        assert(r@ =~= spec_temp_error(city@));
    }
    r
}

/// Builds the sunrise/sunset fallback message.
pub fn sun_error(city: &str) -> (r: String)
    ensures
        r@ == spec_sun_error(city@),
{
    let mut r = String::new();
    r.append("Could not find sunset/sunrise data for '");
    r.append(city);
    r.append("'");
    proof {
        assert(r@ =~= spec_sun_error(city@));
    }
    r
}

/// Builds the cloud-coverage fallback message.
pub fn clouds_error(city: &str) -> (r: String)
    ensures
        r@ == spec_clouds_error(city@),
{
    let mut r = String::new();
    r.append("Could not retrieve cloud information for '");
    r.append(city);
    r.append("'.");
    proof {
        assert(r@ =~= spec_clouds_error(city@));
    }
    r
}

/// Builds the wind fallback message.
pub fn wind_error(city: &str) -> (r: String)
    ensures
        r@ == spec_wind_error(city@),
{
    let mut r = String::new();
    r.append("Could not retrieve wind speed information for '");
    r.append(city);
    r.append("'.");
    proof {
        assert(r@ =~= spec_wind_error(city@));
    }
    r
}

/// Builds the distance-slot fallback message.
pub fn no_weather_data(city: &str) -> (r: String)
    ensures
        r@ == spec_no_weather_data(city@),
{
    let mut r = String::new();
    r.append("Could not find weather data for '");
    r.append(city);
    r.append("'");
    proof {
        assert(r@ =~= spec_no_weather_data(city@));
    }
    r
}

/// Builds the random-city fallback message.
pub fn random_error(city: &str, country: &str) -> (r: String)
    ensures
        r@ == spec_random_error(city@, country@),
{
    let mut r = String::new();
    r.append("Could not find weather data for '");
    r.append(city);
    r.append("', '");
    r.append(country);
    r.append("'");
    proof {
        assert(r@ =~= spec_random_error(city@, country@));
    }
    r
}

/// The fallback for the weather-fact command.
pub open spec fn spec_fact_error(city: Seq<char>) -> Seq<char> {
    "Could not retrieve a weather fact for '"@ + city + "'."@
}

/// The fallback for the weather-fact command.
pub fn fact_error(city: &str) -> (r: String)
    ensures
        r@ == spec_fact_error(city@),
{
    let mut r = String::new();
    r.append("Could not retrieve a weather fact for '");
    r.append(city);
    r.append("'.");
    proof {
        assert(r@ =~= spec_fact_error(city@));
    }
    r
}

/// The fallback for the weather-joke command.
pub open spec fn spec_joke_error() -> Seq<char> {
    "Could not retrieve a weather joke."@
}

/// The fallback for the weather-joke command.
pub fn joke_error() -> (r: String)
    ensures
        r@ == spec_joke_error(),
{
    String::from_str("Could not retrieve a weather joke.")
}

} // verus!
