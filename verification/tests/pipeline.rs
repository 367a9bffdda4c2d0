use nws_forecast_summarizer::pipeline::{Action, Event, ForecastPipeline};
use nws_forecast_summarizer::summarize::{FEW_SHOT_INPUT, FEW_SHOT_OUTPUT, SYSTEM_PROMPT};
use nws_forecast_summarizer::summarize::Role;

fn period_json(i: usize) -> String {
    format!(
        "{{\"detailedForecast\":\"Mostly sunny, with a high near {t}.\",\"dewpoint\":{{\"unitCode\":\"wmoUnit:degC\",\"value\":11.666666666666666}},\"endTime\":\"2024-06-{d:02}T18:00:00-04:00\",\"icon\":\"https://api.weather.gov/icons/land/day/few\",\"isDaytime\":{day},\"name\":\"Period {i}\",\"number\":{n},\"probabilityOfPrecipitation\":{{\"unitCode\":\"wmoUnit:percent\",\"value\":null}},\"relativeHumidity\":{{\"unitCode\":\"wmoUnit:percent\",\"value\":{h}}},\"shortForecast\":\"Mostly Sunny\",\"startTime\":\"2024-06-{d:02}T06:00:00-04:00\",\"temperature\":{t},\"temperatureUnit\":\"F\",\"windDirection\":\"E\",\"windSpeed\":\"2 to 7 mph\"}}",
        t = 50 + i,
        d = 8 + i / 2,
        day = if i % 2 == 0 { "true" } else { "false" },
        i = i,
        n = i + 1,
        h = 70 + i,
    )
}

fn forecast_body(n: usize) -> String {
    let mut periods = String::new();
    for i in 0..n {
        if i > 0 {
            periods.push(',');
        }
        periods.push_str(&period_json(i));
    }
    format!("{{\"properties\":{{\"periods\":[{}]}}}}", periods)
}

const GEOCODE_BODY: &str = "{\"result\":{\"addressMatches\":[{\"coordinates\":{\"x\":-77.03654395,\"y\":38.89766127},\"matchedAddress\":\"1600 PENNSYLVANIA AVE NW, WASHINGTON, DC, 20500\"}]}}";

const POINTS_BODY: &str = "{\"properties\":{\"forecast\":\"https://api.weather.gov/gridpoints/LWX/97,71/forecast\"}}";

#[test]
fn end_to_end_success() {
    let mut p = ForecastPipeline::new(String::from("llama3"));
    let (st, a) = p.start(Some(String::from("1600 Pennsylvania Ave NW, Washington, DC")));
    assert_eq!(p.calls, 1);
    match a {
        Action::Get { url, nws_headers } => {
            assert_eq!(
                url,
                "https://geocoding.geo.census.gov/geocoder/locations/onelineaddress?address=1600%20Pennsylvania%20Ave%20NW%2C%20Washington%2C%20DC&benchmark=2020&format=json"
            );
            assert!(!nws_headers);
        },
        _ => panic!("expected the geocoding request"),
    }
    let (st, a) = p.on_event(st, Event::Response(Some(String::from(GEOCODE_BODY))));
    match a {
        Action::Get { url, nws_headers } => {
            assert_eq!(url, "https://api.weather.gov/points/38.89766,-77.03654");
            assert!(nws_headers);
        },
        _ => panic!("expected the points request"),
    }
    let (st, a) = p.on_event(st, Event::Response(Some(String::from(POINTS_BODY))));
    match a {
        Action::Get { url, nws_headers } => {
            assert_eq!(url, "https://api.weather.gov/gridpoints/LWX/97,71/forecast");
            assert!(nws_headers);
        },
        _ => panic!("expected the forecast request"),
    }
    let (st, a) = p.on_event(st, Event::Response(Some(forecast_body(14))));
    match a {
        Action::Chat { model, messages, json_format } => {
            assert!(json_format);
            assert_eq!(model, "llama3");
            assert_eq!(messages.len(), 4);
            assert!(matches!(messages[0].role, Role::System));
            assert_eq!(messages[0].content, SYSTEM_PROMPT);
            assert!(matches!(messages[1].role, Role::User));
            assert_eq!(messages[1].content, FEW_SHOT_INPUT);
            assert!(matches!(messages[2].role, Role::Assistant));
            assert_eq!(messages[2].content, FEW_SHOT_OUTPUT);
            assert!(matches!(messages[3].role, Role::User));
            let payload: serde_json::Value = serde_json::from_str(&messages[3].content).unwrap();
            let arr = payload.as_array().unwrap();
            assert_eq!(arr.len(), 14);
            assert_eq!(arr[0]["temperature"].as_str().unwrap(), "50F");
            assert_eq!(arr[0]["relative_humidity"].as_str().unwrap(), "70%");
            assert_eq!(arr[0]["wind_speed"].as_str().unwrap(), "2 to 7 mph E");
            assert_eq!(arr[0]["name"].as_str().unwrap(), "Period 0");
            assert_eq!(arr[13]["temperature"].as_str().unwrap(), "63F");
        },
        _ => panic!("expected the chat request"),
    }
    let (st, a) = p.on_event(st, Event::Summary(Some(String::from("{\"summary\": \"fine\"}"))));
    match a {
        Action::Respond { result } => {
            assert_eq!(result.unwrap(), "{\"summary\": \"fine\"}");
        },
        _ => panic!("expected the response"),
    }
    assert_eq!(p.calls, 1);
}

#[test]
fn missing_address_fails_before_any_request() {
    let mut p = ForecastPipeline::new(String::from("llama3"));
    let (_st, a) = p.start(None);
    match a {
        Action::Respond { result } => {
            assert_eq!(result.unwrap_err(), "address parameter is required");
        },
        _ => panic!("a missing address must answer at once"),
    }
    assert_eq!(p.calls, 1);
}

#[test]
fn counter_rises_once_per_request_including_failures() {
    let mut p = ForecastPipeline::new(String::from("llama3"));
    let (st, _a) = p.start(None);
    assert_eq!(p.calls, 1);
    let (st, _a) = p.start(Some(String::from("somewhere")));
    assert_eq!(p.calls, 2);
    let (st, _a) = p.on_event(st, Event::Response(None));
    assert_eq!(p.calls, 2);
    let (st, _a) = p.start(None);
    assert_eq!(p.calls, 3);
}

#[test]
fn empty_address_matches_halts_at_geocode() {
    let mut p = ForecastPipeline::new(String::from("llama3"));
    let (st, _a) = p.start(Some(String::from("nowhere at all")));
    let (st, a) = p.on_event(st, Event::Response(Some(String::from(
        "{\"result\":{\"addressMatches\":[]}}",
    ))));
    match a {
        Action::Respond { result } => {
            assert_eq!(result.unwrap_err(), "error geocoding address");
        },
        _ => panic!("an empty match list must answer at once"),
    }
}

#[test]
fn transport_failure_at_geocode() {
    let mut p = ForecastPipeline::new(String::from("llama3"));
    let (st, _a) = p.start(Some(String::from("somewhere")));
    let (st, a) = p.on_event(st, Event::Response(None));
    match a {
        Action::Respond { result } => {
            assert_eq!(result.unwrap_err(), "error geocoding address");
        },
        _ => panic!("a transport failure must answer at once"),
    }
}

#[test]
fn unparsable_geocode_body_is_transport_failure() {
    let mut p = ForecastPipeline::new(String::from("llama3"));
    let (st, _a) = p.start(Some(String::from("somewhere")));
    let (st, a) = p.on_event(st, Event::Response(Some(String::from("not json at all"))));
    match a {
        Action::Respond { result } => {
            assert_eq!(result.unwrap_err(), "error geocoding address");
        },
        _ => panic!("an unparsable body must answer at once"),
    }
}

#[test]
fn missing_forecast_url_halts_at_locator() {
    let mut p = ForecastPipeline::new(String::from("llama3"));
    let (st, _a) = p.start(Some(String::from("somewhere")));
    let (st, _a) = p.on_event(st, Event::Response(Some(String::from(GEOCODE_BODY))));
    let (st, a) = p.on_event(st, Event::Response(Some(String::from("{\"properties\":{}}"))));
    match a {
        Action::Respond { result } => {
            assert_eq!(result.unwrap_err(), "error getting forecast URL");
        },
        _ => panic!("a missing forecast URL must answer at once"),
    }
}

#[test]
fn empty_periods_halts_before_summarizer() {
    let mut p = ForecastPipeline::new(String::from("llama3"));
    let (st, _a) = p.start(Some(String::from("somewhere")));
    let (st, _a) = p.on_event(st, Event::Response(Some(String::from(GEOCODE_BODY))));
    let (st, _a) = p.on_event(st, Event::Response(Some(String::from(POINTS_BODY))));
    let (st, a) = p.on_event(st, Event::Response(Some(String::from(
        "{\"properties\":{\"periods\":[]}}",
    ))));
    match a {
        Action::Respond { result } => {
            assert_eq!(result.unwrap_err(), "error getting forecast periods");
        },
        _ => panic!("an empty period list must answer at once"),
    }
}

#[test]
fn malformed_period_halts_before_summarizer() {
    let mut p = ForecastPipeline::new(String::from("llama3"));
    let (st, _a) = p.start(Some(String::from("somewhere")));
    let (st, _a) = p.on_event(st, Event::Response(Some(String::from(GEOCODE_BODY))));
    let (st, _a) = p.on_event(st, Event::Response(Some(String::from(POINTS_BODY))));
    let (st, a) = p.on_event(st, Event::Response(Some(String::from(
        "{\"properties\":{\"periods\":[{\"name\":\"Tonight\"}]}}",
    ))));
    match a {
        Action::Respond { result } => {
            assert_eq!(result.unwrap_err(), "error getting forecast periods");
        },
        _ => panic!("a malformed period must answer at once"),
    }
}

#[test]
fn failed_summarizer_is_a_request_scoped_failure() {
    let mut p = ForecastPipeline::new(String::from("llama3"));
    let (st, _a) = p.start(Some(String::from("somewhere")));
    let (st, _a) = p.on_event(st, Event::Response(Some(String::from(GEOCODE_BODY))));
    let (st, _a) = p.on_event(st, Event::Response(Some(String::from(POINTS_BODY))));
    let (st, _a) = p.on_event(st, Event::Response(Some(forecast_body(2))));
    let (st, a) = p.on_event(st, Event::Summary(None));
    match a {
        Action::Respond { result } => {
            assert_eq!(result.unwrap_err(), "error summarizing forecast");
        },
        _ => panic!("a failed chat call must answer at once"),
    }
}

#[test]
fn few_shot_pair_is_sent_unmodified_for_any_forecast() {
    let mut p = ForecastPipeline::new(String::from("llama3"));
    let (st, _a) = p.start(Some(String::from("somewhere")));
    let (st, _a) = p.on_event(st, Event::Response(Some(String::from(GEOCODE_BODY))));
    let (st, _a) = p.on_event(st, Event::Response(Some(String::from(POINTS_BODY))));
    let (st, a) = p.on_event(st, Event::Response(Some(forecast_body(3))));
    match a {
        Action::Chat { messages, .. } => {
            assert_eq!(messages[1].content, FEW_SHOT_INPUT);
            assert_eq!(messages[2].content, FEW_SHOT_OUTPUT);
        },
        _ => panic!("expected the chat request"),
    }
}

#[test]
fn summary_text_is_passed_through_verbatim() {
    let mut p = ForecastPipeline::new(String::from("llama3"));
    let (st, _a) = p.start(Some(String::from("somewhere")));
    let (st, _a) = p.on_event(st, Event::Response(Some(String::from(GEOCODE_BODY))));
    let (st, _a) = p.on_event(st, Event::Response(Some(String::from(POINTS_BODY))));
    let (st, _a) = p.on_event(st, Event::Response(Some(forecast_body(1))));
    let (st, a) = p.on_event(st, Event::Summary(Some(String::from("not json, still returned"))));
    match a {
        Action::Respond { result } => {
            assert_eq!(result.unwrap(), "not json, still returned");
        },
        _ => panic!("expected the response"),
    }
}
