use umbrella::weatherstack::deserialize;
use umbrella::weatherstack::handle_response;
use umbrella::Temperature;
use umbrella::Weather;
use umbrella::WeatherError;
use umbrella::WeatherStack;

const SUCCESS_BODY: &str = r#"{
    "location": { "name": "London", "country": "United Kingdom" },
    "current": { "temperature": 11, "weather_descriptions": ["Sunny"] }
}"#;

#[test]
fn request_builds_correct_request() {
    let ws = WeatherStack::new("dummy API key");
    let req = ws.request("London,UK");
    assert_eq!(req.method, "GET", "wrong method");
    let url = url::Url::parse(&req.url).unwrap();
    assert_eq!(
        url.host(),
        Some(url::Host::Domain("api.weatherstack.com")),
        "wrong host"
    );
    assert_eq!(url.path(), "/current", "wrong path");
    let params: Vec<(String, String)> = req.params;
    assert_eq!(
        params,
        vec![
            ("query".to_string(), "London,UK".to_string()),
            ("access_key".to_string(), "dummy API key".to_string())
        ],
        "wrong params"
    );
}

#[test]
fn request_has_one_second_timeout() {
    let ws = WeatherStack::new("k");
    assert_eq!(ws.request("x").timeout_secs, 1);
}

#[test]
fn with_base_url_overrides_endpoint() {
    let ws = WeatherStack::with_base_url("k", "http://localhost:8080/current");
    assert_eq!(ws.base_url(), "http://localhost:8080/current");
    assert_eq!(ws.api_key(), "k");
    let default = WeatherStack::new("k");
    assert_eq!(default.base_url(), "https://api.weatherstack.com/current");
}

#[test]
fn deserialize_extracts_correct_weather_from_json() {
    let weather = deserialize(SUCCESS_BODY).unwrap();
    assert_eq!(
        weather,
        Weather {
            location: "London, United Kingdom".into(),
            temperature: Temperature::from_celsius(110),
            summary: "Sunny".into(),
        },
        "wrong weather"
    );
}

#[test]
fn deserialize_reports_vendor_error() {
    let body = r#"{ "error": { "info": "invalid access key" } }"#;
    assert_eq!(
        deserialize(body),
        Err(WeatherError::Vendor("invalid access key".to_string()))
    );
}

#[test]
fn vendor_error_wins_over_success_fields() {
    let body = r#"{
        "error": { "info": "quota exceeded" },
        "location": { "name": "London", "country": "United Kingdom" },
        "current": { "temperature": 11, "weather_descriptions": ["Sunny"] }
    }"#;
    assert_eq!(
        deserialize(body),
        Err(WeatherError::Vendor("quota exceeded".to_string()))
    );
}

#[test]
fn deserialize_rejects_missing_temperature() {
    let body = r#"{
        "location": { "name": "London", "country": "United Kingdom" },
        "current": { "weather_descriptions": ["Sunny"] }
    }"#;
    assert_eq!(deserialize(body), Err(WeatherError::Schema(body.to_string())));
}

#[test]
fn deserialize_rejects_fractional_temperature() {
    let body = r#"{
        "location": { "name": "London", "country": "United Kingdom" },
        "current": { "temperature": 11.5, "weather_descriptions": ["Sunny"] }
    }"#;
    assert_eq!(deserialize(body), Err(WeatherError::Schema(body.to_string())));
}

#[test]
fn deserialize_rejects_empty_descriptions() {
    let body = r#"{
        "location": { "name": "London", "country": "United Kingdom" },
        "current": { "temperature": 11, "weather_descriptions": [] }
    }"#;
    assert_eq!(deserialize(body), Err(WeatherError::Schema(body.to_string())));
}

#[test]
fn deserialize_rejects_non_json_body() {
    let body = "not json at all";
    assert_eq!(deserialize(body), Err(WeatherError::Schema(body.to_string())));
}

#[test]
fn non_success_status_short_circuits_before_parsing() {
    let malformed = "{ this would fail schema validation";
    assert_eq!(
        handle_response(500, malformed),
        Err(WeatherError::HttpStatus(500))
    );
    assert_eq!(
        handle_response(404, SUCCESS_BODY),
        Err(WeatherError::HttpStatus(404))
    );
}

#[test]
fn success_status_hands_body_to_deserializer() {
    let weather = handle_response(200, SUCCESS_BODY).unwrap();
    assert_eq!(weather.location, "London, United Kingdom");
    assert_eq!(weather.temperature, Temperature::from_celsius(110));
    assert_eq!(weather.summary, "Sunny");
}

#[test]
fn error_kinds_are_distinguishable() {
    let kinds = [
        WeatherError::Transport("connection refused".to_string()),
        WeatherError::HttpStatus(502),
        WeatherError::Vendor("invalid access key".to_string()),
        WeatherError::Schema("{}".to_string()),
    ];
    for (i, a) in kinds.iter().enumerate() {
        for (j, b) in kinds.iter().enumerate() {
            assert_eq!(a == b, i == j);
        }
    }
}

#[test]
fn interpret_fields_builds_the_result_from_extracted_fields() {
    let ok = umbrella::weatherstack::interpret_fields(
        "raw",
        None,
        Some("London".to_string()),
        Some("United Kingdom".to_string()),
        Some(11),
        Some("Sunny".to_string()),
    );
    assert_eq!(
        ok,
        Ok(Weather {
            location: "London, United Kingdom".to_string(),
            temperature: Temperature::from_celsius(110),
            summary: "Sunny".to_string(),
        })
    );
    let vendor = umbrella::weatherstack::interpret_fields(
        "raw",
        Some("bad key".to_string()),
        None,
        None,
        None,
        None,
    );
    assert_eq!(vendor, Err(WeatherError::Vendor("bad key".to_string())));
    let schema = umbrella::weatherstack::interpret_fields(
        "raw",
        None,
        Some("London".to_string()),
        None,
        Some(11),
        Some("Sunny".to_string()),
    );
    assert_eq!(schema, Err(WeatherError::Schema("raw".to_string())));
}
