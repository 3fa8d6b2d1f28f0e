//! A small weather library: a unit-safe temperature value, a weather record
//! with a canonical rendering, a provider capability, and a client for the
//! weatherstack vendor API that builds requests and interprets responses.

pub mod temperature;
pub mod weather;
pub mod weatherstack;

pub use temperature::Celsius;
pub use temperature::Fahrenheit;
pub use temperature::Temperature;
pub use temperature::Unit;
pub use weather::Provider;
pub use weather::Weather;
pub use weather::WeatherError;
pub use weatherstack::Request;
pub use weatherstack::WeatherStack;
