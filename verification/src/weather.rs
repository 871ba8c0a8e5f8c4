//! The weather record as the provider reports it, with every quantity a
//! plain scaled integer: temperatures in hundredths of a kelvin, wind
//! speed in thousandths of a meter per second, rainfall in thousandths of
//! a millimeter, coordinates in millionths of a degree, sunrise and
//! sunset as epoch seconds. The provider performs no conversion; display
//! conversion is the formatter's job.

use vstd::prelude::*;
use vstd::string::*;
use crate::units::{spec_mph_centi, mph_centi, TEMP_LIMIT, SPEED_LIMIT};

verus! {

/// Largest coordinate latitude, in millionths of a degree.
pub const LAT_LIMIT: i64 = 90_000_000;

/// Largest coordinate longitude, in millionths of a degree.
pub const LON_LIMIT: i64 = 180_000_000;

/// Upper bound on sunrise/sunset epoch seconds (the end of year 9999).
pub const EPOCH_LIMIT: u64 = 253_402_300_800;

/// How a weather lookup can fail: the request never got an answer, the
/// answer had a non-success status, or the payload did not match the
/// expected schema.
pub enum WeatherError {
    Transport,
    HttpStatus(u16),
    Decode,
}

/// A coordinate pair in millionths of a degree.
pub struct Coord {
    pub lat: i64,
    pub lon: i64,
}

impl Coord {
    /// Latitude within +-90 degrees, longitude within +-180 degrees.
    pub open spec fn wf(self) -> bool {
        -LAT_LIMIT <= self.lat <= LAT_LIMIT && -LON_LIMIT <= self.lon <= LON_LIMIT
    }
}

/// One reported weather condition.
pub struct Weather {
    pub id: u32,
    pub main: String,
    pub description: String,
    pub icon: String,
}

/// The temperature block, in hundredths of a kelvin, with pressure in
/// hectopascals and humidity in percent.
pub struct Main {
    pub temp: i64,
    pub feels_like: i64,
    pub temp_min: i64,
    pub temp_max: i64,
    pub pressure: u32,
    pub humidity: u32,
}

impl Main {
    /// Every temperature within the representable band.
    pub open spec fn wf(self) -> bool {
        &&& -TEMP_LIMIT <= self.temp <= TEMP_LIMIT
        &&& -TEMP_LIMIT <= self.feels_like <= TEMP_LIMIT
        &&& -TEMP_LIMIT <= self.temp_min <= TEMP_LIMIT
        &&& -TEMP_LIMIT <= self.temp_max <= TEMP_LIMIT
    }
}

/// Wind speed in thousandths of a meter per second, direction in degrees.
pub struct Wind {
    pub speed: i64,
    pub deg: u32,
}

impl Wind {
    /// Speed within the representable band.
    pub open spec fn wf(self) -> bool {
        -SPEED_LIMIT <= self.speed <= SPEED_LIMIT
    }

    /// Wind speed as reported, in thousandths of a meter per second.
    pub fn get_speed_meters_per_sec(&self) -> (r: i64)
        ensures
            r == self.speed,
    {
        self.speed
    }

    /// Wind speed converted to hundredths of a mile per hour.
    pub fn get_speed_mph(&self) -> (r: i64)
        requires
            self.wf(),
        ensures
            r == spec_mph_centi(self.speed as int),
    {
        mph_centi(self.speed)
    }
}

/// Rainfall over the last hour, in thousandths of a millimeter.
pub struct Rain {
    pub rain_1h: i64,
}

/// Cloud coverage in percent.
pub struct Clouds {
    pub all: u32,
}

impl Clouds {
    /// The coverage percentage as reported.
    pub fn get_cloud_coverage(&self) -> (r: u32)
        ensures
            r == self.all,
    {
        self.all
    }
}

/// Country code and the sunrise/sunset instants in epoch seconds.
pub struct Sys {
    pub country: String,
    pub sunrise: u64,
    pub sunset: u64,
}

impl Sys {
    /// Both instants before the end of year 9999.
    pub open spec fn wf(self) -> bool {
        self.sunrise < EPOCH_LIMIT && self.sunset < EPOCH_LIMIT
    }
}

/// A full weather record for one city, as one lookup returns it.
pub struct WeatherResponse {
    pub coord: Coord,
    pub weather: Vec<Weather>,
    pub main: Main,
    pub wind: Wind,
    pub rain: Option<Rain>,
    pub clouds: Clouds,
    pub sys: Sys,
    pub name: String,
}

impl WeatherResponse {
    /// Every numeric field within its representable band.
    pub open spec fn wf(self) -> bool {
        self.coord.wf() && self.main.wf() && self.wind.wf() && self.sys.wf()
    }
}

/// The provider URL that fetches the weather for a city.
pub open spec fn spec_weather_request_url(city: Seq<char>) -> Seq<char> {
    "https://weather-api138.p.rapidapi.com/weather?city_name="@ + city
}

/// Builds the provider URL that fetches the weather for a city.
pub fn weather_request_url(city: &str) -> (r: String)
    ensures
        r@ == spec_weather_request_url(city@),
{
    let mut r = String::new();
    r.append("https://weather-api138.p.rapidapi.com/weather?city_name=");
    r.append(city);
    proof {
        assert(r@ =~= spec_weather_request_url(city@));
    }
    r
}

} // verus!
