//! The command dispatcher: a small state machine per invocation. The
//! caller resolves an inbound command with `begin`, performs the fetch
//! the returned action asks for, and hands the outcome back through
//! `on_weather` or `on_completion` until an action says what to reply.
//! Missing city arguments default to "Charlotte", one slot at a time;
//! a failed fetch always turns into the command's own fallback message,
//! and the distance command stops at the first failing fetch without
//! attempting the second.

use vstd::prelude::*;
use vstd::string::*;
use crate::weather::{WeatherResponse, WeatherError};
use crate::chatbot::{OpenAIResponse, CompletionError, spec_fact_prompt, spec_joke_prompt, fact_prompt, joke_prompt};
use crate::cities::{city_table, get_random_city};
use crate::render::{
    spec_weather_reply, spec_random_reply, spec_temp_reply, spec_sun_reply, spec_clouds_reply,
    spec_wind_reply, spec_distance_reply, spec_city_not_found, spec_temp_error, spec_sun_error,
    spec_clouds_error, spec_wind_error, spec_no_weather_data, spec_random_error, spec_fact_error,
    spec_joke_error, weather_reply, random_reply, temp_reply, sun_reply, clouds_reply, wind_reply,
    distance_reply, city_not_found, temp_error, sun_error, clouds_error, wind_error,
    no_weather_data, random_error, fact_error, joke_error,
};
use crate::localtime::{local_datetime_str, local_offset_seconds, format_local_datetime};
use crate::geo::{spec_distance_km_centi, distance_km_centi};

verus! {

/// The commands the bot serves.
#[derive(Clone, Copy, PartialEq, Eq, Structural)]
pub enum Command {
    Weather,
    Temp,
    Sun,
    Clouds,
    Wind,
    WeatherFact,
    WeatherJoke,
    Random,
    Distance,
}

impl Command {
    /// Whether the command's data comes from the weather provider (as
    /// opposed to the completion endpoint).
    pub open spec fn fetches_weather(self) -> bool {
        self != Command::WeatherFact && self != Command::WeatherJoke
    }
}

/// What the caller must do next: fetch weather for a city, post a
/// prompt with a token limit to the completion endpoint, or send the
/// finished reply.
pub enum Action {
    FetchWeather(String),
    FetchCompletion(String, u32),
    Reply(String),
}

/// One in-flight command invocation: the command, its two resolved
/// city slots, the drawn country and flag for the random command, and
/// the first fetched record while the distance command waits for its
/// second.
pub struct Invocation {
    pub cmd: Command,
    pub city1: String,
    pub city2: String,
    pub country: String,
    pub flag: String,
    pub first: Option<WeatherResponse>,
}

impl Invocation {
    /// A record is stored only mid-way through the distance command,
    /// and only a well-formed one.
    pub open spec fn wf(self) -> bool {
        self.first matches Some(w) ==> self.cmd == Command::Distance && w.wf()
    }
}

/// The single argument-defaulting rule: a missing city becomes the
/// literal "Charlotte"; a given one is kept as it is.
pub fn resolve_city(arg: Option<String>) -> (r: String)
    ensures
        arg matches Some(c) ==> r@ == c@,
        arg is None ==> r@ == "Charlotte"@,
{
    match arg {
        Some(c) => c,
        None => String::from_str("Charlotte"),
    }
}

/// Starts an invocation: resolves both argument slots (except for the
/// random command, which draws its city from the directory) and names
/// the first fetch or completion call to make.
pub fn begin(cmd: Command, arg1: Option<String>, arg2: Option<String>) -> (res: (
    Invocation,
    Action,
))
    ensures
        res.0.wf(),
        res.0.cmd == cmd,
        res.0.first is None,
        cmd != Command::Random ==> {
            &&& (arg1 matches Some(c) ==> res.0.city1@ == c@)
            &&& (arg1 is None ==> res.0.city1@ == "Charlotte"@)
        },
        arg2 matches Some(c) ==> res.0.city2@ == c@,
        arg2 is None ==> res.0.city2@ == "Charlotte"@,
        cmd == Command::Random ==> exists|i: int|
            0 <= i < city_table().len() && (res.0.city1@, res.0.country@, res.0.flag@)
                == #[trigger] city_table()[i],
        cmd.fetches_weather() ==> (res.1 matches Action::FetchWeather(city) && city@
            == res.0.city1@),
        cmd == Command::WeatherFact ==> (res.1 matches Action::FetchCompletion(p, n) && p@
            == spec_fact_prompt(res.0.city1@) && n == 100),
        cmd == Command::WeatherJoke ==> (res.1 matches Action::FetchCompletion(p, n) && p@
            == spec_joke_prompt() && n == 50),
{
    let city2 = resolve_city(arg2);
    if let Command::Random = cmd {
        let (name, country, flag) = get_random_city();
        let city1 = String::from_str(name);
        let inv = Invocation {
            cmd,
            city1,
            city2,
            country: String::from_str(country),
            flag: String::from_str(flag),
            first: None,
        };
        let action = Action::FetchWeather(inv.city1.clone());
        (inv, action)
    } else {
        let city1 = resolve_city(arg1);
        let inv = Invocation {
            cmd,
            city1,
            city2,
            country: String::new(),
            flag: String::new(),
            first: None,
        };
        let action = match cmd {
            Command::WeatherFact => Action::FetchCompletion(fact_prompt(inv.city1.as_str()), 100),
            Command::WeatherJoke => Action::FetchCompletion(String::from_str(joke_prompt()), 50),
            _ => Action::FetchWeather(inv.city1.clone()),
        };
        (inv, action)
    }
}

/// Feeds the outcome of a weather fetch back into the invocation. A
/// failure becomes the command's own fallback reply at once - for the
/// distance command, without the second fetch. A success becomes the
/// command's reply, except mid-way through the distance command, where
/// the record is kept and the second fetch is requested.
pub fn on_weather(inv: Invocation, res: Result<WeatherResponse, WeatherError>) -> (out: (
    Invocation,
    Action,
))
    requires
        inv.wf(),
        inv.cmd.fetches_weather(),
        res matches Ok(w) ==> w.wf(),
    ensures
        out.0.wf(),
        inv.cmd == Command::Weather ==> {
            &&& (res matches Ok(w) ==> (out.1 matches Action::Reply(s) && s@
                == spec_weather_reply(w.name@, w.main)))
            &&& (res is Err ==> (out.1 matches Action::Reply(s) && s@ == spec_city_not_found(
                inv.city1@,
            )))
        },
        inv.cmd == Command::Temp ==> {
            &&& (res matches Ok(w) ==> (out.1 matches Action::Reply(s) && s@ == spec_temp_reply(
                inv.city1@,
                w.main.temp as int,
            )))
            &&& (res is Err ==> (out.1 matches Action::Reply(s) && s@ == spec_temp_error(
                inv.city1@,
            )))
        },
        inv.cmd == Command::Sun ==> {
            &&& (res matches Ok(w) ==> (out.1 matches Action::Reply(s) && exists|off: int|
                -86_400 < off < 86_400 && s@ == spec_sun_reply(
                    inv.city1@,
                    #[trigger] local_datetime_str(w.sys.sunrise as int, off),
                    local_datetime_str(w.sys.sunset as int, off),
                )))
            &&& (res is Err ==> (out.1 matches Action::Reply(s) && s@ == spec_sun_error(
                inv.city1@,
            )))
        },
        inv.cmd == Command::Clouds ==> {
            &&& (res matches Ok(w) ==> (out.1 matches Action::Reply(s) && s@ == spec_clouds_reply(
                inv.city1@,
                w.clouds.all as int,
            )))
            &&& (res is Err ==> (out.1 matches Action::Reply(s) && s@ == spec_clouds_error(
                inv.city1@,
            )))
        },
        inv.cmd == Command::Wind ==> {
            &&& (res matches Ok(w) ==> (out.1 matches Action::Reply(s) && s@ == spec_wind_reply(
                inv.city1@,
                w.wind.speed as int,
            )))
            &&& (res is Err ==> (out.1 matches Action::Reply(s) && s@ == spec_wind_error(
                inv.city1@,
            )))
        },
        inv.cmd == Command::Random ==> {
            &&& (res matches Ok(w) ==> (out.1 matches Action::Reply(s) && s@ == spec_random_reply(
                inv.city1@,
                inv.country@,
                inv.flag@,
                w.main,
            )))
            &&& (res is Err ==> (out.1 matches Action::Reply(s) && s@ == spec_random_error(
                inv.city1@,
                inv.country@,
            )))
        },
        inv.cmd == Command::Distance && inv.first is None ==> {
            &&& (res matches Ok(w) ==> (out.1 matches Action::FetchWeather(city) && city@
                == inv.city2@ && (out.0.first matches Some(w1) && w1.coord == w.coord)
                && out.0.cmd == Command::Distance && out.0.city1@ == inv.city1@ && out.0.city2@
                == inv.city2@))
            &&& (res is Err ==> (out.1 matches Action::Reply(s) && s@ == spec_no_weather_data(
                inv.city1@,
            )))
        },
        inv.cmd == Command::Distance ==> (inv.first matches Some(w1) ==> {
            &&& (res matches Ok(w2) ==> (out.1 matches Action::Reply(s) && s@
                == spec_distance_reply(
                inv.city1@,
                inv.city2@,
                spec_distance_km_centi(w1.coord, w2.coord),
            )))
            &&& (res is Err ==> (out.1 matches Action::Reply(s) && s@ == spec_no_weather_data(
                inv.city2@,
            )))
        }),
{
    match inv.cmd {
        Command::Weather => match res {
            Ok(w) => {
                let s = weather_reply(w.name.as_str(), &w.main);
                (inv, Action::Reply(s))
            },
            Err(_) => {
                let s = city_not_found(inv.city1.as_str());
                (inv, Action::Reply(s))
            },
        },
        Command::Temp => match res {
            Ok(w) => {
                let s = temp_reply(inv.city1.as_str(), w.main.temp);
                (inv, Action::Reply(s))
            },
            Err(_) => {
                let s = temp_error(inv.city1.as_str());
                (inv, Action::Reply(s))
            },
        },
        Command::Sun => match res {
            Ok(w) => {
                let off = local_offset_seconds();
                let rise = format_local_datetime(w.sys.sunrise, off);
                let set = format_local_datetime(w.sys.sunset, off);
                let s = sun_reply(inv.city1.as_str(), rise.as_str(), set.as_str());
                proof {
                    assert(-86_400 < (off as int) < 86_400 && s@ == spec_sun_reply(
                        inv.city1@,
                        local_datetime_str(w.sys.sunrise as int, off as int),
                        local_datetime_str(w.sys.sunset as int, off as int),
                    ));
                }
                (inv, Action::Reply(s))
            },
            Err(_) => {
                let s = sun_error(inv.city1.as_str());
                (inv, Action::Reply(s))
            },
        },
        Command::Clouds => match res {
            Ok(w) => {
                let s = clouds_reply(inv.city1.as_str(), w.clouds.get_cloud_coverage());
                (inv, Action::Reply(s))
            },
            Err(_) => {
                let s = clouds_error(inv.city1.as_str());
                (inv, Action::Reply(s))
            },
        },
        Command::Wind => match res {
            Ok(w) => {
                let s = wind_reply(inv.city1.as_str(), w.wind.get_speed_meters_per_sec());
                (inv, Action::Reply(s))
            },
            Err(_) => {
                let s = wind_error(inv.city1.as_str());
                (inv, Action::Reply(s))
            },
        },
        Command::Random => match res {
            Ok(w) => {
                let s = random_reply(
                    inv.city1.as_str(),
                    inv.country.as_str(),
                    inv.flag.as_str(),
                    &w.main,
                );
                (inv, Action::Reply(s))
            },
            Err(_) => {
                let s = random_error(inv.city1.as_str(), inv.country.as_str());
                (inv, Action::Reply(s))
            },
        },
        Command::Distance => {
            let had_first = inv.first.is_some();
            if !had_first {
                match res {
                    Ok(w) => {
                        let action = Action::FetchWeather(inv.city2.clone());
                        let out = Invocation { first: Some(w), ..inv };
                        (out, action)
                    },
                    Err(_) => {
                        let s = no_weather_data(inv.city1.as_str());
                        (inv, Action::Reply(s))
                    },
                }
            } else {
                match res {
                    Ok(w2) => {
                        let w1 = inv.first.as_ref().unwrap();
                        let km = distance_km_centi(&w1.coord, &w2.coord);
                        let s = distance_reply(inv.city1.as_str(), inv.city2.as_str(), km);
                        let out = (inv, Action::Reply(s));
                        out
                    },
                    Err(_) => {
                        let s = no_weather_data(inv.city2.as_str());
                        (inv, Action::Reply(s))
                    },
                }
            }
        },
        Command::WeatherFact => unreached(),
        Command::WeatherJoke => unreached(),
    }
}

/// Feeds the outcome of a completion call back into the invocation:
/// the first candidate's text (or the "No response" sentinel) on
/// success, the command's own fallback message on failure.
pub fn on_completion(inv: &Invocation, res: Result<OpenAIResponse, CompletionError>) -> (out:
    Action)
    requires
        inv.cmd == Command::WeatherFact || inv.cmd == Command::WeatherJoke,
    ensures
        res matches Ok(r) ==> (out matches Action::Reply(s) && {
            &&& (r.choices@.len() > 0 ==> s@ == r.choices@[0].message.content@)
            &&& (r.choices@.len() == 0 ==> s@ == crate::chatbot::spec_no_response())
        }),
        res is Err ==> (out matches Action::Reply(s) && {
            &&& (inv.cmd == Command::WeatherFact ==> s@ == spec_fact_error(inv.city1@))
            &&& (inv.cmd == Command::WeatherJoke ==> s@ == spec_joke_error())
        }),
{
    match res {
        Ok(r) => Action::Reply(crate::chatbot::extract_completion(&r)),
        Err(_) => match inv.cmd {
            Command::WeatherFact => Action::Reply(fact_error(inv.city1.as_str())),
            _ => Action::Reply(joke_error()),
        },
    }
}

} // verus!
