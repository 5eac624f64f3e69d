use weathercr::engine::{handle, LookupRequest};
use weathercr::geocode::{
    forward_geocode_query, latlng_query, parse_forward_geocode, parse_reverse_geocode, GeoError,
};
use weathercr::pipeline::{
    by_coordinates_step, by_name_geocode_step, by_name_weather_step,
    resolve_by_coordinates_pipeline, ByNameStep, TransportError,
};
use weathercr::report::{format_by_coordinates, format_by_name};
use weathercr::state::{ConversationState, Event};
use weathercr::weather::{parse_weather_response, weather_query, WeatherSnapshot};
use weathercr::Coordinates;

const FORWARD_OK: &str = r#"{
  "status": "OK",
  "results": [
    { "geometry": { "location": { "lat": 41.38, "lng": 2.17 } } }
  ]
}"#;

const FORWARD_ZERO: &str = r#"{ "status": "ZERO_RESULTS", "results": [] }"#;

const REVERSE_OK: &str = r#"{
  "status": "OK",
  "results": [
    { "formatted_address": "first candidate" },
    { "formatted_address": "second candidate" },
    { "formatted_address": "Carrer de Mallorca, Barcelona" },
    { "formatted_address": "fourth candidate" }
  ]
}"#;

const WEATHER_OK: &str = r#"{
  "weatherCondition": { "description": { "text": "Clear" } },
  "temperature": { "degrees": 20.0 },
  "feelsLikeTemperature": { "degrees": 19.5 },
  "relativeHumidity": 50,
  "precipitation": { "probability": { "percent": 10 } }
}"#;

fn snapshot() -> WeatherSnapshot {
    WeatherSnapshot::new(
        "Clear".to_string(),
        "20".to_string(),
        "19.5".to_string(),
        "50".to_string(),
        "10".to_string(),
    )
}

#[test]
fn forward_geocode_query_joins_with_plus_signs() {
    let q = forward_geocode_query("New York", "New York State", "United States");
    assert_eq!(q, "New+York+New+York+State+United+States");
}

#[test]
fn forward_geocode_query_of_empty_words_keeps_the_separators() {
    assert_eq!(forward_geocode_query("", "", ""), "++");
}

#[test]
fn latlng_query_joins_with_comma() {
    let c = Coordinates::new("41.38".to_string(), "2.17".to_string());
    assert_eq!(latlng_query(&c), "41.38,2.17");
}

#[test]
fn weather_query_names_both_coordinates() {
    let c = Coordinates::new("41.38".to_string(), "2.17".to_string());
    assert_eq!(weather_query(&c), "location.latitude=41.38&location.longitude=2.17");
}

#[test]
fn forward_geocode_response_yields_first_result_coordinates() {
    let r = parse_forward_geocode(Some(FORWARD_OK));
    assert_eq!(r, Ok(Coordinates::new("41.38".to_string(), "2.17".to_string())));
}

#[test]
fn forward_geocode_zero_results_is_no_results() {
    assert_eq!(parse_forward_geocode(Some(FORWARD_ZERO)), Err(GeoError::NoResults));
}

#[test]
fn forward_geocode_failures_are_transport_errors() {
    assert_eq!(parse_forward_geocode(None), Err(GeoError::Transport));
    assert_eq!(parse_forward_geocode(Some("not json")), Err(GeoError::Transport));
    assert_eq!(
        parse_forward_geocode(Some(r#"{ "status": "OK", "results": [] }"#)),
        Err(GeoError::Transport)
    );
    assert_eq!(
        parse_forward_geocode(Some(r#"{ "status": "OK", "results": [ { } ] }"#)),
        Err(GeoError::Transport)
    );
}

#[test]
fn zero_results_become_the_apology_not_a_failure() {
    let step = by_name_geocode_step(parse_forward_geocode(Some(FORWARD_ZERO)));
    assert_eq!(
        step,
        ByNameStep::Report(
            "❌ Please check the location, province, and country you provided.".to_string()
        )
    );
}

#[test]
fn geocode_transport_failure_propagates() {
    let step = by_name_geocode_step(parse_forward_geocode(None));
    assert_eq!(step, ByNameStep::Fail(TransportError));
}

#[test]
fn reverse_geocode_takes_the_third_candidate() {
    let r = parse_reverse_geocode(Some(REVERSE_OK));
    assert_eq!(r, Some("Carrer de Mallorca, Barcelona".to_string()));
}

#[test]
fn reverse_geocode_needs_three_candidates() {
    let two = r#"{ "results": [ { "formatted_address": "a" }, { "formatted_address": "b" } ] }"#;
    assert_eq!(parse_reverse_geocode(Some(two)), None);
    assert_eq!(parse_reverse_geocode(None), None);
    assert_eq!(parse_reverse_geocode(Some("not json")), None);
}

#[test]
fn weather_response_yields_the_snapshot() {
    let w = parse_weather_response(Some(WEATHER_OK));
    assert_eq!(w, Some(snapshot()));
}

#[test]
fn weather_response_with_missing_field_is_fatal() {
    let missing = r#"{
      "weatherCondition": { "description": { "text": "Clear" } },
      "temperature": { "degrees": 20.0 }
    }"#;
    assert_eq!(parse_weather_response(Some(missing)), None);
    assert_eq!(parse_weather_response(None), None);
    let mistyped = r#"{
      "weatherCondition": { "description": { "text": "Clear" } },
      "temperature": { "degrees": "warm" },
      "feelsLikeTemperature": { "degrees": 19.5 },
      "relativeHumidity": 50,
      "precipitation": { "probability": { "percent": 10 } }
    }"#;
    assert_eq!(parse_weather_response(Some(mistyped)), None);
}

#[test]
fn report_by_name_carries_every_value_verbatim() {
    let report = format_by_name("Madrid", "Madrid", "Spain", &snapshot());
    assert_eq!(
        report,
        "🌤️ The weather in Madrid, Madrid, Spain is\nWeather Condition: Clear\nTemperature: 20°C\nFeels Like: 19.5°C\nHumidity: 50%\nPrecipitation Probability: 10%"
    );
    for part in ["Madrid", "Spain", "Clear", "20", "19.5", "50", "10"] {
        assert!(report.contains(part));
    }
}

#[test]
fn report_by_coordinates_names_the_resolved_place() {
    let report = format_by_coordinates("Carrer de Mallorca, Barcelona", &snapshot());
    assert_eq!(
        report,
        "🌤️ The weather in Carrer de Mallorca, Barcelona is\nWeather Condition: Clear\nTemperature: 20°C\nFeels Like: 19.5°C\nHumidity: 50%\nPrecipitation Probability: 10%"
    );
}

#[test]
fn by_name_weather_failure_propagates() {
    assert_eq!(by_name_weather_step("a", "b", "c", None), Err(TransportError));
}

#[test]
fn by_coordinates_weather_failure_propagates_without_partial_report() {
    assert_eq!(
        by_coordinates_step(Some("Carrer de Mallorca, Barcelona".to_string()), None),
        Err(TransportError)
    );
    assert_eq!(resolve_by_coordinates_pipeline(Some(REVERSE_OK), None), Err(TransportError));
    assert_eq!(
        resolve_by_coordinates_pipeline(Some(REVERSE_OK), Some("not json")),
        Err(TransportError)
    );
}

#[test]
fn by_coordinates_reverse_failure_propagates() {
    assert_eq!(resolve_by_coordinates_pipeline(None, Some(WEATHER_OK)), Err(TransportError));
}

#[test]
fn by_coordinates_pipeline_formats_the_report() {
    let r = resolve_by_coordinates_pipeline(Some(REVERSE_OK), Some(WEATHER_OK));
    assert_eq!(
        r,
        Ok("🌤️ The weather in Carrer de Mallorca, Barcelona is\nWeather Condition: Clear\nTemperature: 20°C\nFeels Like: 19.5°C\nHumidity: 50%\nPrecipitation Probability: 10%".to_string())
    );
}

#[test]
fn attached_location_sends_progress_then_report() {
    let step = handle(
        ConversationState::AwaitingAttachedLocation,
        Event::Location(Coordinates::new("41.38".to_string(), "2.17".to_string())),
    );
    assert_eq!(step.next, ConversationState::Idle);
    let mut sent = step.messages.clone();
    let coordinates = match step.lookup {
        Some(LookupRequest::ByCoordinates { coordinates }) => coordinates,
        other => panic!("expected a by-coordinates lookup, got {:?}", other),
    };
    assert_eq!(latlng_query(&coordinates), "41.38,2.17");
    let report = resolve_by_coordinates_pipeline(Some(REVERSE_OK), Some(WEATHER_OK)).unwrap();
    sent.push(report);
    assert_eq!(
        sent,
        vec![
            "Obtaining the climate for your location...".to_string(),
            "🌤️ The weather in Carrer de Mallorca, Barcelona is\nWeather Condition: Clear\nTemperature: 20°C\nFeels Like: 19.5°C\nHumidity: 50%\nPrecipitation Probability: 10%".to_string(),
        ]
    );
}

#[test]
fn completed_disclosure_sends_progress_then_report() {
    let step = handle(
        ConversationState::AwaitingCountry {
            location: "Barcelona".to_string(),
            province: "Catalonia".to_string(),
        },
        Event::Text("Spain".to_string()),
    );
    assert_eq!(step.next, ConversationState::Idle);
    let mut sent = step.messages.clone();
    let (location, province, country) = match step.lookup {
        Some(LookupRequest::ByName { location, province, country }) => {
            (location, province, country)
        }
        other => panic!("expected a by-name lookup, got {:?}", other),
    };
    let query = forward_geocode_query(&location, &province, &country);
    assert_eq!(query, "Barcelona+Catalonia+Spain");
    let geocoded = parse_forward_geocode(Some(FORWARD_OK));
    let coordinates = match by_name_geocode_step(geocoded) {
        ByNameStep::FetchWeather(c) => c,
        other => panic!("expected the weather fetch, got {:?}", other),
    };
    assert_eq!(coordinates, Coordinates::new("41.38".to_string(), "2.17".to_string()));
    let snapshot = parse_weather_response(Some(WEATHER_OK));
    let report = by_name_weather_step(&location, &province, &country, snapshot).unwrap();
    sent.push(report);
    assert_eq!(
        sent,
        vec![
            "Obtaining the climate for Barcelona, Catalonia en Spain...".to_string(),
            "🌤️ The weather in Barcelona, Catalonia, Spain is\nWeather Condition: Clear\nTemperature: 20°C\nFeels Like: 19.5°C\nHumidity: 50%\nPrecipitation Probability: 10%".to_string(),
        ]
    );
}
