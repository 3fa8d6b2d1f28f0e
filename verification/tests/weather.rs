use umbrella::weatherstack::deserialize;
use umbrella::Temperature;
use umbrella::Weather;

#[test]
fn render_shows_summary_celsius_and_location() {
    let weather = Weather {
        location: "London, United Kingdom".to_string(),
        temperature: Temperature::from_celsius(110),
        summary: "Sunny".to_string(),
    };
    assert_eq!(weather.render(), "Sunny 11\u{ba}C (London, United Kingdom)");
}

#[test]
fn render_keeps_a_nonzero_tenths_digit() {
    let weather = Weather {
        location: "Oymyakon, Russia".to_string(),
        temperature: Temperature::from_celsius(-425),
        summary: "Freezing".to_string(),
    };
    assert_eq!(weather.render(), "Freezing -42.5\u{ba}C (Oymyakon, Russia)");
}

#[test]
fn render_of_deserialized_payload() {
    let body = r#"{
        "location": { "name": "Paris", "country": "France" },
        "current": { "temperature": 0, "weather_descriptions": ["Cloudy"] }
    }"#;
    let weather = deserialize(body).unwrap();
    assert_eq!(weather.render(), "Cloudy 0\u{ba}C (Paris, France)");
}
