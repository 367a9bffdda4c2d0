use nws_forecast_summarizer::config::load;
use nws_forecast_summarizer::geocode::{geocode_url, parse_geocode};
use nws_forecast_summarizer::json::parse_json;
use nws_forecast_summarizer::model::{
    Coordinates, Dewpoint, FetchError, GeocodeError, LocatorError, Period,
    ProbabilityOfPrecipitation, RelativeHumidity, SimplifiedForecastPeriod,
};
use nws_forecast_summarizer::model::{simplify, simplify_one};
use nws_forecast_summarizer::payload::simplified_to_json;
use nws_forecast_summarizer::periods::parse_periods;
use nws_forecast_summarizer::points::{parse_points, point_url};
use nws_forecast_summarizer::root_body;
use nws_forecast_summarizer::summarize::{few_shot_example, FEW_SHOT_INPUT, FEW_SHOT_OUTPUT};
use nws_forecast_summarizer::text::{parse_dec5_text, parse_int_text, parse_u16_text};

fn sample_period() -> Period {
    Period {
        detailed_forecast: String::from("Mostly cloudy, with a low around 54."),
        dewpoint: Dewpoint {
            unit_code: String::from("wmoUnit:degC"),
            value: String::from("11.7"),
        },
        end_time: String::from("2024-06-09T06:00:00-07:00"),
        icon: String::from("https://api.weather.gov/icons/land/night/bkn"),
        is_daytime: false,
        name: String::from("Tonight"),
        number: 1,
        probability_of_precipitation: ProbabilityOfPrecipitation {
            unit_code: String::from("wmoUnit:percent"),
            value: None,
        },
        relative_humidity: RelativeHumidity {
            unit_code: String::from("wmoUnit:percent"),
            value: 80,
        },
        short_forecast: String::from("Mostly Cloudy"),
        start_time: String::from("2024-06-08T20:00:00-07:00"),
        temperature: 54,
        temperature_trend: None,
        temperature_unit: String::from("F"),
        wind_direction: String::from("E"),
        wind_speed: String::from("2 mph"),
    }
}

#[test]
fn root_names_the_service() {
    assert_eq!(root_body(), "nws-forecast-summarizer");
}

#[test]
fn simplify_formats_the_three_composites() {
    let s = simplify_one(&sample_period());
    assert_eq!(s.temperature, "54F");
    assert_eq!(s.relative_humidity, "80%");
    assert_eq!(s.wind_speed, "2 mph E");
    assert_eq!(s.name, "Tonight");
    assert_eq!(s.detailed_forecast, "Mostly cloudy, with a low around 54.");
    assert_eq!(s.start_time, "2024-06-08T20:00:00-07:00");
    assert_eq!(s.end_time, "2024-06-09T06:00:00-07:00");
}

#[test]
fn simplify_formats_negative_temperature_without_whitespace() {
    let mut p = sample_period();
    p.temperature = -5;
    p.temperature_unit = String::from("C");
    let s = simplify_one(&p);
    assert_eq!(s.temperature, "-5C");
}

#[test]
fn simplify_keeps_length_and_order() {
    let mut a = sample_period();
    a.name = String::from("First");
    let mut b = sample_period();
    b.name = String::from("Second");
    let mut c = sample_period();
    c.name = String::from("Third");
    let out = simplify(&vec![a, b, c]);
    assert_eq!(out.len(), 3);
    assert_eq!(out[0].name, "First");
    assert_eq!(out[1].name, "Second");
    assert_eq!(out[2].name, "Third");
}

#[test]
fn payload_serialization_is_exact() {
    let rec = SimplifiedForecastPeriod {
        detailed_forecast: String::from("Rain \"likely\".\nLow 40."),
        end_time: String::from("2024-06-09T06:00:00-07:00"),
        name: String::from("Tonight"),
        relative_humidity: String::from("80%"),
        start_time: String::from("2024-06-08T20:00:00-07:00"),
        temperature: String::from("54F"),
        wind_speed: String::from("2 mph E"),
    };
    let got = simplified_to_json(&vec![rec]);
    let want = "[{\"detailed_forecast\":\"Rain \\\"likely\\\".\\nLow 40.\",\"end_time\":\"2024-06-09T06:00:00-07:00\",\"name\":\"Tonight\",\"relative_humidity\":\"80%\",\"start_time\":\"2024-06-08T20:00:00-07:00\",\"temperature\":\"54F\",\"wind_speed\":\"2 mph E\"}]";
    assert_eq!(got, want);
}

#[test]
fn payload_serialization_matches_the_reference_writer() {
    let s = simplify_one(&sample_period());
    let got = simplified_to_json(&vec![s.clone()]);
    let mut obj = serde_json::Map::new();
    obj.insert(
        String::from("detailed_forecast"),
        serde_json::Value::String(s.detailed_forecast.clone()),
    );
    obj.insert(String::from("end_time"), serde_json::Value::String(s.end_time.clone()));
    obj.insert(String::from("name"), serde_json::Value::String(s.name.clone()));
    obj.insert(
        String::from("relative_humidity"),
        serde_json::Value::String(s.relative_humidity.clone()),
    );
    obj.insert(String::from("start_time"), serde_json::Value::String(s.start_time.clone()));
    obj.insert(String::from("temperature"), serde_json::Value::String(s.temperature.clone()));
    obj.insert(String::from("wind_speed"), serde_json::Value::String(s.wind_speed.clone()));
    let want =
        serde_json::to_string(&serde_json::Value::Array(vec![serde_json::Value::Object(obj)]))
            .unwrap();
    assert_eq!(got, want);
}

#[test]
fn geocode_url_percent_encodes() {
    let u = geocode_url("a b+c,d~e");
    assert_eq!(
        u,
        "https://geocoding.geo.census.gov/geocoder/locations/onelineaddress?address=a%20b%2Bc%2Cd~e&benchmark=2020&format=json"
    );
}

#[test]
fn geocode_reads_the_first_match() {
    let body = "{\"result\":{\"addressMatches\":[{\"coordinates\":{\"x\":-77.03654395,\"y\":38.89766127}},{\"coordinates\":{\"x\":1.0,\"y\":2.0}}]}}";
    let j = parse_json(body).unwrap();
    let c = parse_geocode(&j).unwrap();
    assert_eq!(c, Coordinates { latitude: 3889766, longitude: -7703654 });
}

#[test]
fn geocode_rejects_missing_matches() {
    let j = parse_json("{\"result\":{}}").unwrap();
    assert_eq!(parse_geocode(&j).unwrap_err(), GeocodeError::NoMatch);
    let j = parse_json("{\"result\":{\"addressMatches\":[]}}").unwrap();
    assert_eq!(parse_geocode(&j).unwrap_err(), GeocodeError::NoMatch);
    let j = parse_json("{\"result\":{\"addressMatches\":7}}").unwrap();
    assert_eq!(parse_geocode(&j).unwrap_err(), GeocodeError::NoMatch);
}

#[test]
fn point_url_prints_five_decimals() {
    assert_eq!(
        point_url(&Coordinates { latitude: 3889766, longitude: -7703654 }),
        "https://api.weather.gov/points/38.89766,-77.03654"
    );
    assert_eq!(
        point_url(&Coordinates { latitude: 100000, longitude: -5 }),
        "https://api.weather.gov/points/1.00000,-0.00005"
    );
}

#[test]
fn coordinate_parsing_rounds_the_sixth_place() {
    assert_eq!(parse_dec5_text("38.8976649"), Some(3889766));
    assert_eq!(parse_dec5_text("38.8976655"), Some(3889767));
    assert_eq!(parse_dec5_text("-77.036543"), Some(-7703654));
    assert_eq!(parse_dec5_text("12"), Some(1200000));
    assert_eq!(parse_dec5_text("1.5"), Some(150000));
    assert_eq!(parse_dec5_text(""), None);
    assert_eq!(parse_dec5_text("1."), None);
    assert_eq!(parse_dec5_text("a.b"), None);
}

#[test]
fn integer_parsing_reads_signed_numerals() {
    assert_eq!(parse_int_text("54"), Some(54));
    assert_eq!(parse_int_text("-12"), Some(-12));
    assert_eq!(parse_int_text("54.5"), None);
    assert_eq!(parse_int_text(""), None);
    assert_eq!(parse_int_text("--4"), None);
}

#[test]
fn locator_reads_the_forecast_url() {
    let j = parse_json("{\"properties\":{\"forecast\":\"https://api.weather.gov/x\"}}").unwrap();
    assert_eq!(parse_points(&j).unwrap(), "https://api.weather.gov/x");
}

#[test]
fn locator_rejects_missing_or_empty_url() {
    let j = parse_json("{\"properties\":{}}").unwrap();
    assert_eq!(parse_points(&j).unwrap_err(), LocatorError::NotFound);
    let j = parse_json("{\"properties\":{\"forecast\":\"\"}}").unwrap();
    assert_eq!(parse_points(&j).unwrap_err(), LocatorError::NotFound);
    let j = parse_json("{\"properties\":{\"forecast\":7}}").unwrap();
    assert_eq!(parse_points(&j).unwrap_err(), LocatorError::NotFound);
}

#[test]
fn fetch_distinguishes_empty_and_malformed() {
    let j = parse_json("{\"properties\":{\"periods\":[]}}").unwrap();
    assert_eq!(parse_periods(&j).unwrap_err(), FetchError::Empty);
    let j = parse_json("{}").unwrap();
    assert_eq!(parse_periods(&j).unwrap_err(), FetchError::Empty);
    let j = parse_json("{\"properties\":{\"periods\":[{\"name\":\"x\"}]}}").unwrap();
    assert_eq!(parse_periods(&j).unwrap_err(), FetchError::Decode);
}

#[test]
fn fetch_reads_a_whole_period() {
    let body = "{\"properties\":{\"periods\":[{\"detailedForecast\":\"Sunny.\",\"dewpoint\":{\"unitCode\":\"wmoUnit:degC\",\"value\":11.5},\"endTime\":\"e\",\"icon\":\"i\",\"isDaytime\":true,\"name\":\"Today\",\"number\":1,\"probabilityOfPrecipitation\":{\"unitCode\":\"wmoUnit:percent\",\"value\":30},\"relativeHumidity\":{\"unitCode\":\"wmoUnit:percent\",\"value\":66},\"shortForecast\":\"Sunny\",\"startTime\":\"s\",\"temperature\":70,\"temperatureTrend\":\"falling\",\"temperatureUnit\":\"F\",\"windDirection\":\"SW\",\"windSpeed\":\"5 mph\"}]}}";
    let j = parse_json(body).unwrap();
    let ps = parse_periods(&j).unwrap();
    assert_eq!(ps.len(), 1);
    let p = &ps[0];
    assert_eq!(p.name, "Today");
    assert_eq!(p.number, 1);
    assert!(p.is_daytime);
    assert_eq!(p.temperature, 70);
    assert_eq!(p.temperature_trend.as_deref(), Some("falling"));
    assert_eq!(p.probability_of_precipitation.value, Some(30));
    assert_eq!(p.relative_humidity.value, 66);
    assert_eq!(p.dewpoint.value, "11.5");
    assert_eq!(p.wind_direction, "SW");
    assert_eq!(p.wind_speed, "5 mph");
}

#[test]
fn few_shot_example_is_the_fixed_pair() {
    let ex = few_shot_example();
    assert_eq!(ex.input, FEW_SHOT_INPUT);
    assert_eq!(ex.output, FEW_SHOT_OUTPUT);
    assert!(ex.input.contains("\"name\": \"Tonight\""));
    assert!(ex.output.contains("\"summary\""));
}

#[test]
fn port_parsing_accepts_sixteen_bits_only() {
    assert_eq!(parse_u16_text("8080"), Some(8080));
    assert_eq!(parse_u16_text("+80"), Some(80));
    assert_eq!(parse_u16_text("65535"), Some(65535));
    assert_eq!(parse_u16_text("65536"), None);
    assert_eq!(parse_u16_text("abc"), None);
    assert_eq!(parse_u16_text(""), None);
}

#[test]
fn port_parsing_ignores_leading_zeros() {
    assert_eq!(parse_u16_text("000080"), Some(80));
    assert_eq!(parse_u16_text("+000080"), Some(80));
    assert_eq!(parse_u16_text("0"), Some(0));
    assert_eq!(parse_u16_text("00000000000000"), Some(0));
    assert_eq!(parse_u16_text("000065536"), None);
    assert_eq!(parse_u16_text("0000x1"), None);
    assert_eq!(parse_u16_text("+"), None);
    for text in ["000080", "65535", "0", "99999999", "007"] {
        assert_eq!(parse_u16_text(text), text.parse::<u16>().ok());
    }
}

#[test]
fn integer_parsing_covers_the_whole_signed_range() {
    assert_eq!(parse_int_text("1000000000000000000"), Some(1000000000000000000));
    assert_eq!(parse_int_text("9223372036854775807"), Some(i64::MAX));
    assert_eq!(parse_int_text("-9223372036854775808"), Some(i64::MIN));
    assert_eq!(parse_int_text("9223372036854775808"), None);
    assert_eq!(parse_int_text("-9223372036854775809"), None);
    assert_eq!(parse_int_text("99999999999999999999"), None);
}

#[test]
fn fetch_accepts_nineteen_digit_temperatures() {
    let body = "{\"properties\":{\"periods\":[{\"detailedForecast\":\"Sunny.\",\"dewpoint\":{\"unitCode\":\"wmoUnit:degC\",\"value\":11.5},\"endTime\":\"e\",\"icon\":\"i\",\"isDaytime\":true,\"name\":\"Today\",\"number\":1,\"probabilityOfPrecipitation\":{\"unitCode\":\"wmoUnit:percent\",\"value\":30},\"relativeHumidity\":{\"unitCode\":\"wmoUnit:percent\",\"value\":66},\"shortForecast\":\"Sunny\",\"startTime\":\"s\",\"temperature\":1000000000000000000,\"temperatureUnit\":\"F\",\"windDirection\":\"SW\",\"windSpeed\":\"5 mph\"}]}}";
    let j = parse_json(body).unwrap();
    let ps = parse_periods(&j).unwrap();
    assert_eq!(ps[0].temperature, 1000000000000000000);
}

#[test]
fn load_builds_the_config() {
    let c = load(
        Some(String::from("info")),
        Some(String::from("0.0.0.0")),
        Some(String::from("8080")),
        Some(String::from("0.0.0.0")),
        Some(String::from("9090")),
        Some(String::from("ollama")),
        Some(String::from("11434")),
        Some(String::from("llama3")),
    )
    .unwrap();
    assert_eq!(c.log_level, "info");
    assert_eq!(c.api_port, 8080);
    assert_eq!(c.metrics_port, 9090);
    assert_eq!(c.ollama_port, 11434);
    assert_eq!(c.ollama_model, "llama3");
}

#[test]
fn load_names_the_first_fault() {
    let e = load(
        None,
        Some(String::from("h")),
        Some(String::from("1")),
        Some(String::from("h")),
        Some(String::from("1")),
        Some(String::from("h")),
        Some(String::from("1")),
        Some(String::from("m")),
    )
    .unwrap_err();
    assert_eq!(e, "LOG_LEVEL is not set");
    let e = load(
        Some(String::from("info")),
        Some(String::from("h")),
        Some(String::from("70000")),
        Some(String::from("h")),
        Some(String::from("1")),
        Some(String::from("h")),
        Some(String::from("1")),
        Some(String::from("m")),
    )
    .unwrap_err();
    assert_eq!(e, "70000 is not a valid u16");
    let e = load(
        Some(String::from("info")),
        Some(String::from("h")),
        Some(String::from("1")),
        Some(String::from("h")),
        Some(String::from("1")),
        Some(String::from("h")),
        Some(String::from("1")),
        None,
    )
    .unwrap_err();
    assert_eq!(e, "OLLAMA_MODEL is not set");
}
