//! Tests for response parsing, decoding, and outcome classification.

use tiny_weather::error::OpenMeteoError;
use tiny_weather::forecast::{decode_forecast, get_outcome};
use tiny_weather::geocoding::{decode_geocoding, search_outcome};
use tiny_weather::json::{parse_json, Json};

fn vars_get<T: Clone>(vars: &[(String, T)], key: &str) -> Option<T> {
    vars.iter().find(|p| p.0 == key).map(|p| p.1.clone())
}

#[test]
fn test_forecast_response_deserialization() {
    let json = r#"{
            "latitude": 52.52,
            "longitude": 13.419,
            "elevation": 44.812,
            "generationtime_ms": 2.2119,
            "utc_offset_seconds": 7200,
            "timezone": "Europe/Berlin",
            "timezone_abbreviation": "CEST",
            "hourly": {
                "time": ["2022-07-01T00:00", "2022-07-01T01:00"],
                "temperature_2m": [13.0, 12.7]
            },
            "hourly_units": {
                "temperature_2m": "Â°C"
            }
        }"#;

    let value = parse_json(json).unwrap();
    let response = decode_forecast(&value).unwrap();
    assert_eq!(response.latitude.parse::<f64>().unwrap(), 52.52);
    assert_eq!(response.timezone, "Europe/Berlin");

    let hourly = response.hourly.unwrap();
    assert_eq!(hourly.time.len(), 2);
    assert_eq!(vars_get(&hourly.variables, "temperature_2m").unwrap().len(), 2);
}

#[test]
fn test_geocoding_response_deserialization() {
    let json = r#"{
            "results": [
                {
                    "id": 2950159,
                    "name": "Berlin",
                    "latitude": 52.52437,
                    "longitude": 13.41053,
                    "elevation": 74.0,
                    "timezone": "Europe/Berlin",
                    "country_code": "DE",
                    "country": "Deutschland",
                    "population": 3426354,
                    "postcodes": ["10967", "13347"]
                }
            ]
        }"#;

    let value = parse_json(json).unwrap();
    let response = decode_geocoding(&value).unwrap();
    assert_eq!(response.results.len(), 1);

    let location = &response.results[0];
    assert_eq!(location.name, "Berlin");
    assert_eq!(location.latitude.parse::<f64>().unwrap(), 52.52437);
    assert_eq!(location.country_code.as_ref().unwrap(), "DE");
}

#[test]
fn test_empty_results() {
    let json = r#"{"results": []}"#;
    let value = parse_json(json).unwrap();
    let response = decode_geocoding(&value).unwrap();
    assert_eq!(response.results.len(), 0);
}

#[test]
fn empty_results_are_a_distinguished_error() {
    match search_outcome(200, r#"{"results": []}"#) {
        Err(OpenMeteoError::NoResults) => {}
        other => panic!("expected NoResults, got {:?}", other),
    }
}

#[test]
fn missing_results_member_means_no_results() {
    match search_outcome(200, "{}") {
        Err(OpenMeteoError::NoResults) => {}
        other => panic!("expected NoResults, got {:?}", other),
    }
}

#[test]
fn location_with_only_required_fields() {
    let json = r#"{"results": [{"id": 7, "name": "Lund", "latitude": 55.7, "longitude": 13.19}]}"#;
    let response = search_outcome(200, json).unwrap();
    assert_eq!(response.results.len(), 1);
    let location = &response.results[0];
    assert_eq!(location.id, 7);
    assert_eq!(location.name, "Lund");
    assert_eq!(location.latitude.parse::<f64>().unwrap(), 55.7);
    assert_eq!(location.longitude.parse::<f64>().unwrap(), 13.19);
    assert!(location.elevation.is_none());
    assert!(location.timezone.is_none());
    assert!(location.country_code.is_none());
    assert!(location.country.is_none());
    assert!(location.admin1.is_none());
    assert!(location.admin2.is_none());
    assert!(location.admin3.is_none());
    assert!(location.admin4.is_none());
    assert!(location.population.is_none());
    assert!(location.postcodes.is_none());
}

#[test]
fn null_samples_are_missing_markers() {
    let json = r#"{
        "latitude": 1.5, "longitude": 2.5, "elevation": 3.0, "generationtime_ms": 0.1,
        "utc_offset_seconds": 0, "timezone": "GMT", "timezone_abbreviation": "GMT",
        "hourly": {
            "time": ["t0", "t1", "t2"],
            "precipitation": [0.4, null, 1.25]
        }
    }"#;
    let response = get_outcome(200, json).unwrap();
    let hourly = response.hourly.unwrap();
    assert_eq!(hourly.time.len(), 3);
    let samples = vars_get(&hourly.variables, "precipitation").unwrap();
    assert_eq!(samples.len(), 3);
    assert_eq!(samples[0].as_ref().unwrap().parse::<f64>().unwrap(), 0.4);
    assert!(samples[1].is_none());
    assert_eq!(samples[2].as_ref().unwrap().parse::<f64>().unwrap(), 1.25);
}

#[test]
fn sample_count_must_match_time_count() {
    let json = r#"{
        "latitude": 1.5, "longitude": 2.5, "elevation": 3.0, "generationtime_ms": 0.1,
        "utc_offset_seconds": 0, "timezone": "GMT", "timezone_abbreviation": "GMT",
        "hourly": {
            "time": ["t0", "t1"],
            "precipitation": [0.4]
        }
    }"#;
    match get_outcome(200, json) {
        Err(OpenMeteoError::DeserializationError(_)) => {}
        other => panic!("expected DeserializationError, got {:?}", other),
    }
}

#[test]
fn forecast_error_envelope_reason_is_used() {
    match get_outcome(400, r#"{"reason": "X"}"#) {
        Err(OpenMeteoError::ApiError { reason }) => assert_eq!(reason, "X"),
        other => panic!("expected ApiError, got {:?}", other),
    }
}

#[test]
fn forecast_error_without_envelope_embeds_status_and_body() {
    match get_outcome(500, "service exploded") {
        Err(OpenMeteoError::ApiError { reason }) => {
            assert_eq!(reason, "HTTP 500: service exploded");
        }
        other => panic!("expected ApiError, got {:?}", other),
    }
    match get_outcome(404, r#"{"message": "no reason member"}"#) {
        Err(OpenMeteoError::ApiError { reason }) => {
            assert_eq!(reason, r#"HTTP 404: {"message": "no reason member"}"#);
        }
        other => panic!("expected ApiError, got {:?}", other),
    }
}

#[test]
fn geocoding_error_embeds_status_and_body() {
    match search_outcome(503, "gateway down") {
        Err(OpenMeteoError::ApiError { reason }) => {
            assert_eq!(reason, "HTTP 503: gateway down");
        }
        other => panic!("expected ApiError, got {:?}", other),
    }
}

#[test]
fn invalid_json_is_a_deserialization_error() {
    match get_outcome(200, "{not json") {
        Err(OpenMeteoError::DeserializationError(_)) => {}
        other => panic!("expected DeserializationError, got {:?}", other),
    }
    match search_outcome(200, "") {
        Err(OpenMeteoError::DeserializationError(_)) => {}
        other => panic!("expected DeserializationError, got {:?}", other),
    }
}

#[test]
fn wrong_shape_is_a_deserialization_error() {
    match get_outcome(200, r#"{"latitude": "not a number"}"#) {
        Err(OpenMeteoError::DeserializationError(_)) => {}
        other => panic!("expected DeserializationError, got {:?}", other),
    }
    match search_outcome(200, r#"{"results": [{"id": 1, "name": "x"}]}"#) {
        Err(OpenMeteoError::DeserializationError(_)) => {}
        other => panic!("expected DeserializationError, got {:?}", other),
    }
    match search_outcome(200, r#"{"results": null}"#) {
        Err(OpenMeteoError::DeserializationError(_)) => {}
        other => panic!("expected DeserializationError, got {:?}", other),
    }
}

#[test]
fn unknown_members_are_ignored() {
    let json = r#"{
        "latitude": 1.5, "longitude": 2.5, "elevation": 3.0, "generationtime_ms": 0.1,
        "utc_offset_seconds": -3600, "timezone": "GMT", "timezone_abbreviation": "GMT",
        "brand_new_field": {"nested": [1, 2, 3]}
    }"#;
    let response = get_outcome(200, json).unwrap();
    assert_eq!(response.utc_offset_seconds, -3600);
    assert!(response.hourly.is_none());
    assert!(response.daily.is_none());
    assert!(response.current.is_none());
}

#[test]
fn current_section_and_units_are_decoded() {
    let json = r#"{
        "latitude": 1.5, "longitude": 2.5, "elevation": 3.0, "generationtime_ms": 0.1,
        "utc_offset_seconds": 7200, "timezone": "Europe/Berlin", "timezone_abbreviation": "CEST",
        "current": {"time": "2024-05-01T10:00", "interval": 900, "cloud_cover": null},
        "current_units": {"cloud_cover": "%"}
    }"#;
    let response = get_outcome(200, json).unwrap();
    let current = response.current.unwrap();
    assert_eq!(current.time, "2024-05-01T10:00");
    assert_eq!(
        vars_get(&current.variables, "interval").unwrap().unwrap(),
        "900"
    );
    assert!(vars_get(&current.variables, "cloud_cover").unwrap().is_none());
    let units = response.current_units.unwrap();
    assert_eq!(vars_get(&units, "cloud_cover").unwrap(), "%");
}

#[test]
fn parser_handles_escapes_and_nesting() {
    let value = parse_json(r#"  ["a\u0041b", "tab\t", {"k": [true, false, null, -1.5e3]}]  "#);
    match value {
        Some(Json::Arr(items)) => {
            assert_eq!(items.len(), 3);
            match &items[0] {
                Json::Str(s) => assert_eq!(s, "aAb"),
                other => panic!("expected string, got {:?}", other),
            }
            match &items[1] {
                Json::Str(s) => assert_eq!(s, "tab\t"),
                other => panic!("expected string, got {:?}", other),
            }
        }
        other => panic!("expected array, got {:?}", other),
    }
}

#[test]
fn parser_rejects_malformed_documents() {
    assert!(parse_json("").is_none());
    assert!(parse_json("{").is_none());
    assert!(parse_json("[1,]").is_none());
    assert!(parse_json("01").is_none());
    assert!(parse_json("1 2").is_none());
    assert!(parse_json("\"unterminated").is_none());
    assert!(parse_json("{\"a\" 1}").is_none());
    assert!(parse_json("nul").is_none());
}

#[test]
fn error_descriptions_match_their_variants() {
    assert_eq!(
        OpenMeteoError::RequestFailed("timed out".to_string()).describe(),
        "HTTP request failed: timed out"
    );
    assert_eq!(
        OpenMeteoError::ApiError { reason: "bad coords".to_string() }.describe(),
        "API error: bad coords"
    );
    assert_eq!(
        OpenMeteoError::DeserializationError("bad body".to_string()).describe(),
        "Failed to deserialize response: bad body"
    );
    assert_eq!(
        OpenMeteoError::InvalidParameter("bad url".to_string()).describe(),
        "Invalid parameter: bad url"
    );
    assert_eq!(
        OpenMeteoError::NoResults.describe(),
        "No results found for query"
    );
}
