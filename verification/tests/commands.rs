use weatherbot::dispatch::{begin, on_weather, on_completion, resolve_city, Command, Action};
use weatherbot::weather::{
    WeatherResponse, WeatherError, Coord, Weather, Main, Wind, Clouds, Sys,
};
use weatherbot::chatbot::{OpenAIResponse, Choice, Message, CompletionError};

fn record(name: &str, lat: i64, lon: i64) -> WeatherResponse {
    WeatherResponse {
        coord: Coord { lat, lon },
        weather: vec![Weather {
            id: 800,
            main: "Clear".to_string(),
            description: "clear sky".to_string(),
            icon: "01d".to_string(),
        }],
        main: Main {
            temp: 29515,
            feels_like: 29515,
            temp_min: 29515,
            temp_max: 29515,
            pressure: 1013,
            humidity: 50,
        },
        wind: Wind { speed: 10_000, deg: 180 },
        rain: None,
        clouds: Clouds { all: 75 },
        sys: Sys { country: "GB".to_string(), sunrise: 0, sunset: 43_200 },
        name: name.to_string(),
    }
}

fn reply_text(action: Action) -> String {
    match action {
        Action::Reply(s) => s,
        _ => panic!("expected a reply"),
    }
}

#[test]
fn missing_city_defaults_to_charlotte() {
    assert_eq!(resolve_city(None), "Charlotte");
    assert_eq!(resolve_city(Some("Boston".to_string())), "Boston");
}

#[test]
fn weather_command_without_argument_fetches_charlotte() {
    let (inv, action) = begin(Command::Weather, None, None);
    assert_eq!(inv.city1, "Charlotte");
    match action {
        Action::FetchWeather(city) => assert_eq!(city, "Charlotte"),
        _ => panic!("expected a weather fetch"),
    }
}

#[test]
fn distance_command_with_one_argument_keeps_it_and_defaults_the_other() {
    let (inv, action) = begin(Command::Distance, Some("Boston".to_string()), None);
    assert_eq!(inv.city1, "Boston");
    assert_eq!(inv.city2, "Charlotte");
    match action {
        Action::FetchWeather(city) => assert_eq!(city, "Boston"),
        _ => panic!("expected a weather fetch"),
    }
}

#[test]
fn weather_failure_yields_the_not_found_reply_for_every_variant() {
    for err in [WeatherError::Transport, WeatherError::HttpStatus(404), WeatherError::Decode] {
        let (inv, _) = begin(Command::Weather, Some("Nowhereville".to_string()), None);
        let (_, action) = on_weather(inv, Err(err));
        assert_eq!(
            reply_text(action),
            "The city 'Nowhereville' doesn't exist or couldn't be found."
        );
    }
}

#[test]
fn temp_failure_yields_its_own_fallback() {
    let (inv, _) = begin(Command::Temp, Some("Nowhereville".to_string()), None);
    let (_, action) = on_weather(inv, Err(WeatherError::Decode));
    assert_eq!(
        reply_text(action),
        "Could not find temperature data for 'Nowhereville'"
    );
}

#[test]
fn sun_failure_yields_its_own_fallback() {
    let (inv, _) = begin(Command::Sun, Some("Nowhereville".to_string()), None);
    let (_, action) = on_weather(inv, Err(WeatherError::Transport));
    assert_eq!(
        reply_text(action),
        "Could not find sunset/sunrise data for 'Nowhereville'"
    );
}

#[test]
fn clouds_failure_yields_its_own_fallback() {
    let (inv, _) = begin(Command::Clouds, Some("Nowhereville".to_string()), None);
    let (_, action) = on_weather(inv, Err(WeatherError::HttpStatus(500)));
    assert_eq!(
        reply_text(action),
        "Could not retrieve cloud information for 'Nowhereville'."
    );
}

#[test]
fn wind_failure_yields_its_own_fallback() {
    let (inv, _) = begin(Command::Wind, Some("Nowhereville".to_string()), None);
    let (_, action) = on_weather(inv, Err(WeatherError::Decode));
    assert_eq!(
        reply_text(action),
        "Could not retrieve wind speed information for 'Nowhereville'."
    );
}

#[test]
fn weather_success_formats_the_record() {
    let (inv, _) = begin(Command::Weather, Some("London".to_string()), None);
    let (_, action) = on_weather(inv, Ok(record("London", 51_507_400, -127_800)));
    let s = reply_text(action);
    assert!(s.starts_with("The weather in London is:\n"));
    assert!(s.contains("Temp: 71.60°F"));
    assert!(s.contains("Pressure: 29.91inHg  💧 Humidity: 50%"));
}

#[test]
fn temp_success_uses_the_requested_city_name() {
    let (inv, _) = begin(Command::Temp, None, None);
    let (_, action) = on_weather(inv, Ok(record("Charlotte City", 35_227_100, -80_843_100)));
    assert_eq!(
        reply_text(action),
        "The temperature in Charlotte is:\n🌡️ 295.15°K (Kelvin)\n🌡️ 22.00°C (Celsius)\n🌡️ 71.60°F (Fahrenheit)"
    );
}

#[test]
fn clouds_success_reports_the_percentage() {
    let (inv, _) = begin(Command::Clouds, Some("Oslo".to_string()), None);
    let (_, action) = on_weather(inv, Ok(record("Oslo", 59_913_900, 10_752_200)));
    assert_eq!(reply_text(action), "The cloud coverage in Oslo is\n☁️ 75%");
}

#[test]
fn wind_success_reports_both_units() {
    let (inv, _) = begin(Command::Wind, Some("Chicago".to_string()), None);
    let (_, action) = on_weather(inv, Ok(record("Chicago", 41_878_100, -87_629_800)));
    assert_eq!(
        reply_text(action),
        "The wind speed in Chicago is\n💨 22.37 mph (10 m/s)"
    );
}

#[test]
fn sun_success_renders_both_instants() {
    let (inv, _) = begin(Command::Sun, Some("Lima".to_string()), None);
    let (_, action) = on_weather(inv, Ok(record("Lima", -12_046_400, -77_042_800)));
    let s = reply_text(action);
    // the rendered instants depend on the machine's UTC offset
    assert!(s.starts_with("The sunset/sunrise in Lima is:\nSunrise🌅 "));
    assert!(s.contains("\nSunset🌙 "));
    assert!(s.contains("T"));
}

#[test]
fn distance_first_failure_short_circuits() {
    let (inv, _) = begin(
        Command::Distance,
        Some("Nowhereville".to_string()),
        Some("Paris".to_string()),
    );
    let (_, action) = on_weather(inv, Err(WeatherError::Transport));
    assert_eq!(
        reply_text(action),
        "Could not find weather data for 'Nowhereville'"
    );
}

#[test]
fn distance_second_failure_names_the_second_city() {
    let (inv, _) = begin(
        Command::Distance,
        Some("London".to_string()),
        Some("Nowhereville".to_string()),
    );
    let (inv, action) = on_weather(inv, Ok(record("London", 51_507_400, -127_800)));
    match action {
        Action::FetchWeather(city) => assert_eq!(city, "Nowhereville"),
        _ => panic!("expected the second fetch"),
    }
    let (_, action) = on_weather(inv, Err(WeatherError::HttpStatus(404)));
    assert_eq!(
        reply_text(action),
        "Could not find weather data for 'Nowhereville'"
    );
}

#[test]
fn distance_between_london_and_paris() {
    let (inv, _) = begin(
        Command::Distance,
        Some("London".to_string()),
        Some("Paris".to_string()),
    );
    let (inv, action) = on_weather(inv, Ok(record("London", 51_507_400, -127_800)));
    match action {
        Action::FetchWeather(city) => assert_eq!(city, "Paris"),
        _ => panic!("expected the second fetch"),
    }
    let (_, action) = on_weather(inv, Ok(record("Paris", 48_856_600, 2_352_200)));
    assert_eq!(
        reply_text(action),
        "The distance between London and Paris is 343.56 kilometers, and 213.48 miles."
    );
}

#[test]
fn distance_of_identical_coordinates_is_zero_end_to_end() {
    let (inv, _) = begin(Command::Distance, Some("A".to_string()), Some("B".to_string()));
    let (inv, _) = on_weather(inv, Ok(record("A", 10_000_000, 20_000_000)));
    let (_, action) = on_weather(inv, Ok(record("B", 10_000_000, 20_000_000)));
    assert_eq!(
        reply_text(action),
        "The distance between A and B is 0.00 kilometers, and 0.00 miles."
    );
}

#[test]
fn fact_command_builds_the_city_prompt() {
    let (inv, action) = begin(Command::WeatherFact, Some("Austin".to_string()), None);
    assert_eq!(inv.city1, "Austin");
    match action {
        Action::FetchCompletion(prompt, max_tokens) => {
            assert_eq!(
                prompt,
                "what is a different crazy historical weather fact for the city of Austin in only 2 sentences"
            );
            assert_eq!(max_tokens, 100);
        },
        _ => panic!("expected a completion call"),
    }
}

#[test]
fn joke_command_uses_the_fixed_prompt() {
    let (_, action) = begin(Command::WeatherJoke, None, None);
    match action {
        Action::FetchCompletion(prompt, max_tokens) => {
            assert_eq!(
                prompt,
                "tell me a joke about the weather or jokes about meteorologists"
            );
            assert_eq!(max_tokens, 50);
        },
        _ => panic!("expected a completion call"),
    }
}

#[test]
fn completion_with_candidates_replies_with_the_first() {
    let (inv, _) = begin(Command::WeatherJoke, None, None);
    let resp = OpenAIResponse {
        id: "cmpl-1".to_string(),
        object: "chat.completion".to_string(),
        created: 0,
        model: "gpt-3.5-turbo".to_string(),
        choices: vec![
            Choice {
                index: 0,
                message: Message {
                    role: "assistant".to_string(),
                    content: "Why did the cloud stay home? It felt under the weather.".to_string(),
                },
                finish_reason: "stop".to_string(),
            },
            Choice {
                index: 1,
                message: Message { role: "assistant".to_string(), content: "second".to_string() },
                finish_reason: "stop".to_string(),
            },
        ],
    };
    let action = on_completion(&inv, Ok(resp));
    assert_eq!(
        reply_text(action),
        "Why did the cloud stay home? It felt under the weather."
    );
}

#[test]
fn completion_with_zero_candidates_replies_no_response() {
    let (inv, _) = begin(Command::WeatherFact, None, None);
    let resp = OpenAIResponse {
        id: "cmpl-2".to_string(),
        object: "chat.completion".to_string(),
        created: 0,
        model: "gpt-3.5-turbo".to_string(),
        choices: vec![],
    };
    let action = on_completion(&inv, Ok(resp));
    assert_eq!(reply_text(action), "No response");
}

#[test]
fn completion_failure_yields_the_command_fallback() {
    let (inv, _) = begin(Command::WeatherFact, Some("Austin".to_string()), None);
    let action = on_completion(&inv, Err(CompletionError::Transport));
    assert_eq!(
        reply_text(action),
        "Could not retrieve a weather fact for 'Austin'."
    );
    let (inv, _) = begin(Command::WeatherJoke, None, None);
    let action = on_completion(&inv, Err(CompletionError::HttpStatus(401)));
    assert_eq!(reply_text(action), "Could not retrieve a weather joke.");
    let (inv, _) = begin(Command::WeatherJoke, None, None);
    let action = on_completion(&inv, Err(CompletionError::Decode));
    assert_eq!(reply_text(action), "Could not retrieve a weather joke.");
}
