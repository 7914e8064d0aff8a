//! Tests for request construction and query-parameter encoding.

use tiny_weather::common::{PrecipitationUnit, TemperatureUnit, TimeFormat, WindSpeedUnit};
use tiny_weather::error::OpenMeteoError;
use tiny_weather::forecast::ForecastRequest;
use tiny_weather::geocoding::GeocodingRequest;

fn params_get(params: &[(String, String)], key: &str) -> Option<String> {
    params
        .iter()
        .find(|p| p.0 == key)
        .map(|p| p.1.clone())
}

#[test]
fn test_geocoding_request_builder() {
    let request = GeocodingRequest::new("Berlin".to_string())
        .count(5)
        .language("en".to_string());

    assert_eq!(request.name, "Berlin");
    assert_eq!(request.count, Some(5));
    assert_eq!(request.language.as_ref().unwrap(), "en");
}

#[test]
fn test_forecast_request_builder() {
    let request = ForecastRequest::new(format!("{}", 52.52), format!("{}", 13.41))
        .hourly(vec!["temperature_2m".to_string(), "precipitation".to_string()])
        .daily(vec!["temperature_2m_max".to_string()])
        .timezone("auto".to_string());

    assert_eq!(request.latitude.parse::<f64>().unwrap(), 52.52);
    assert_eq!(request.longitude.parse::<f64>().unwrap(), 13.41);
    assert_eq!(request.hourly.as_ref().unwrap().len(), 2);
    assert_eq!(request.daily.as_ref().unwrap().len(), 1);
    assert_eq!(request.timezone.as_ref().unwrap(), "auto");
}

#[test]
fn unset_scalar_fields_are_omitted() {
    let request = ForecastRequest::new("52.52".to_string(), "13.41".to_string());
    let params = request.query_params();
    for key in ["elevation", "hourly", "daily", "current", "timezone", "past_days", "forecast_days", "models"] {
        assert!(params_get(&params, key).is_none(), "unexpected key {}", key);
    }
    let geo = GeocodingRequest::new("Berlin".to_string());
    let gparams = geo.query_params();
    for key in ["count", "language", "format"] {
        assert!(params_get(&gparams, key).is_none(), "unexpected key {}", key);
    }
}

#[test]
fn set_scalar_fields_are_encoded() {
    let request = ForecastRequest::new("52.52".to_string(), "13.41".to_string())
        .elevation("44.8".to_string())
        .timezone("auto".to_string())
        .past_days(9)
        .forecast_days(16)
        .models("icon_seamless".to_string());
    let params = request.query_params();
    assert_eq!(params_get(&params, "latitude").unwrap(), "52.52");
    assert_eq!(params_get(&params, "longitude").unwrap(), "13.41");
    assert_eq!(params_get(&params, "elevation").unwrap(), "44.8");
    assert_eq!(params_get(&params, "timezone").unwrap(), "auto");
    assert_eq!(params_get(&params, "past_days").unwrap(), "9");
    assert_eq!(params_get(&params, "forecast_days").unwrap(), "16");
    assert_eq!(params_get(&params, "models").unwrap(), "icon_seamless");

    let geo = GeocodingRequest::new("Berlin".to_string())
        .count(105)
        .language("de".to_string())
        .format("json".to_string());
    let gparams = geo.query_params();
    assert_eq!(params_get(&gparams, "name").unwrap(), "Berlin");
    assert_eq!(params_get(&gparams, "count").unwrap(), "105");
    assert_eq!(params_get(&gparams, "language").unwrap(), "de");
    assert_eq!(params_get(&gparams, "format").unwrap(), "json");
}

#[test]
fn list_fields_join_with_commas() {
    let request = ForecastRequest::new("1".to_string(), "2".to_string())
        .hourly(vec!["a".to_string(), "b".to_string(), "c".to_string()]);
    let params = request.query_params();
    assert_eq!(params_get(&params, "hourly").unwrap(), "a,b,c");
}

#[test]
fn empty_list_fields_are_omitted() {
    let request = ForecastRequest::new("1".to_string(), "2".to_string())
        .hourly(Vec::new())
        .daily(Vec::new());
    let params = request.query_params();
    assert!(params_get(&params, "hourly").is_none());
    assert!(params_get(&params, "daily").is_none());
}

#[test]
fn default_units_are_encoded() {
    let request = ForecastRequest::new("52.52".to_string(), "13.41".to_string());
    let params = request.query_params();
    assert_eq!(params_get(&params, "temperature_unit").unwrap(), "celsius");
    assert_eq!(params_get(&params, "wind_speed_unit").unwrap(), "kmh");
    assert_eq!(params_get(&params, "precipitation_unit").unwrap(), "mm");
    assert_eq!(params_get(&params, "timeformat").unwrap(), "iso8601");
}

#[test]
fn chosen_units_are_encoded() {
    let request = ForecastRequest::new("52.52".to_string(), "13.41".to_string())
        .temperature_unit(TemperatureUnit::Fahrenheit)
        .wind_speed_unit(WindSpeedUnit::Mph)
        .precipitation_unit(PrecipitationUnit::Inch)
        .timeformat(TimeFormat::Unixtime);
    let params = request.query_params();
    assert_eq!(params_get(&params, "temperature_unit").unwrap(), "fahrenheit");
    assert_eq!(params_get(&params, "wind_speed_unit").unwrap(), "mph");
    assert_eq!(params_get(&params, "precipitation_unit").unwrap(), "inch");
    assert_eq!(params_get(&params, "timeformat").unwrap(), "unixtime");
}

#[test]
fn wire_strings_cover_every_variant() {
    assert_eq!(TemperatureUnit::Celsius.wire(), "celsius");
    assert_eq!(TemperatureUnit::Fahrenheit.wire(), "fahrenheit");
    assert_eq!(WindSpeedUnit::Kmh.wire(), "kmh");
    assert_eq!(WindSpeedUnit::Ms.wire(), "ms");
    assert_eq!(WindSpeedUnit::Mph.wire(), "mph");
    assert_eq!(WindSpeedUnit::Kn.wire(), "kn");
    assert_eq!(PrecipitationUnit::Mm.wire(), "mm");
    assert_eq!(PrecipitationUnit::Inch.wire(), "inch");
    assert_eq!(TimeFormat::Iso8601.wire(), "iso8601");
    assert_eq!(TimeFormat::Unixtime.wire(), "unixtime");
}

#[test]
fn url_round_trips_request_values() {
    let request = ForecastRequest::new(format!("{}", 52.52), format!("{}", 13.41))
        .forecast_days(3)
        .hourly(vec!["temperature_2m".to_string()]);
    let url = request
        .url("https://api.open-meteo.com/v1/forecast")
        .unwrap();
    let query = url.split('?').nth(1).unwrap();
    let mut latitude = None;
    let mut longitude = None;
    let mut forecast_days = None;
    let mut hourly = None;
    for pair in query.split('&') {
        let mut it = pair.splitn(2, '=');
        let key = it.next().unwrap();
        let value = it.next().unwrap();
        match key {
            "latitude" => latitude = Some(value.to_string()),
            "longitude" => longitude = Some(value.to_string()),
            "forecast_days" => forecast_days = Some(value.to_string()),
            "hourly" => hourly = Some(value.to_string()),
            _ => {}
        }
    }
    assert_eq!(latitude.unwrap().parse::<f64>().unwrap(), 52.52);
    assert_eq!(longitude.unwrap().parse::<f64>().unwrap(), 13.41);
    assert_eq!(forecast_days.unwrap().parse::<u8>().unwrap(), 3);
    assert_eq!(hourly.unwrap(), "temperature_2m");
}

#[test]
fn url_appends_to_base() {
    let url = GeocodingRequest::new("Berlin".to_string())
        .url("https://example.com/api")
        .unwrap();
    assert!(url.starts_with("https://example.com/api?"));
    assert!(url.contains("name=Berlin"));
}

#[test]
fn invalid_base_url_is_reported() {
    let request = GeocodingRequest::new("Berlin".to_string());
    match request.url("not a url") {
        Err(OpenMeteoError::InvalidParameter(_)) => {}
        other => panic!("expected InvalidParameter, got {:?}", other),
    }
}

#[test]
fn builder_calls_are_order_insensitive() {
    let a = ForecastRequest::new("1".to_string(), "2".to_string())
        .timezone("auto".to_string())
        .past_days(2);
    let b = ForecastRequest::new("1".to_string(), "2".to_string())
        .past_days(2)
        .timezone("auto".to_string());
    assert_eq!(a, b);
    assert_eq!(a.query_params(), b.query_params());
}
