//! The weatherstack vendor client: immutable configuration, a pure request
//! builder, and the interpretation of vendor responses — status handling,
//! the vendor error envelope, and the success schema — into the domain
//! model.

use vstd::prelude::*;

use crate::temperature::Temperature;
use crate::weather::Weather;
use crate::weather::WeatherError;

verus! {

/// The vendor endpoint queried when no other base URL is configured.
pub const DEFAULT_BASE_URL: &'static str = "https://api.weatherstack.com/current";

/// Largest magnitude accepted for a vendor-reported temperature, in whole
/// degrees Celsius; anything beyond could not be converted without
/// overflowing the temperature scale.
pub const TEMPERATURE_LIMIT: i64 = 10_000_000_000_000_000;

/// What the JSON document parsed from `s` holds at JSON-pointer `path`: the
/// character sequence when `s` parses as JSON and a string sits at `path`,
/// and nothing otherwise.
pub uninterp spec fn doc_str_at(s: Seq<char>, path: Seq<char>) -> Option<Seq<char>>;

/// What the JSON document parsed from `s` holds at JSON-pointer `path`: the
/// integer when `s` parses as JSON and an integer number sits at `path`,
/// and nothing otherwise.
pub uninterp spec fn doc_int_at(s: Seq<char>, path: Seq<char>) -> Option<i64>;

/// Relies on serde_json: `from_str::<Value>` parses `s`, `Value::pointer`
/// resolves a JSON pointer, and `Value::as_str` reads a string. All three
/// are deterministic, so the outcome is a function of `s` and `path` alone.
#[verifier::external_body]
fn json_str_at(s: &str, path: &str) -> (r: Option<String>)
    ensures
        r matches Some(x) ==> doc_str_at(s@, path@) == Some(x@),
        r is None ==> doc_str_at(s@, path@) is None,
{
    let doc: serde_json::Value = serde_json::from_str(s).ok()?;
    Some(doc.pointer(path)?.as_str()?.to_string())
}

/// Relies on serde_json: `from_str::<Value>` parses `s`, `Value::pointer`
/// resolves a JSON pointer, and `Value::as_i64` reads a number stored as an
/// integer. All three are deterministic, so the outcome is a function of
/// `s` and `path` alone.
#[verifier::external_body]
fn json_int_at(s: &str, path: &str) -> (r: Option<i64>)
    ensures
        r matches Some(x) ==> doc_int_at(s@, path@) == Some(x),
        r is None ==> doc_int_at(s@, path@) is None,
{
    serde_json::from_str::<serde_json::Value>(s).ok()?.pointer(path)?.as_i64()
}

/// The vendor's error envelope: the message at `error.info`, if present.
pub open spec fn vendor_info_of(s: Seq<char>) -> Option<Seq<char>> {
    doc_str_at(s, "/error/info"@)
}

/// The place name of the success envelope.
pub open spec fn name_of(s: Seq<char>) -> Option<Seq<char>> {
    doc_str_at(s, "/location/name"@)
}

/// The country of the success envelope.
pub open spec fn country_of(s: Seq<char>) -> Option<Seq<char>> {
    doc_str_at(s, "/location/country"@)
}

/// The temperature of the success envelope, in whole degrees Celsius.
pub open spec fn temperature_of(s: Seq<char>) -> Option<i64> {
    doc_int_at(s, "/current/temperature"@)
}

/// The first weather description of the success envelope.
pub open spec fn summary_of(s: Seq<char>) -> Option<Seq<char>> {
    doc_str_at(s, "/current/weather_descriptions/0"@)
}

/// How the extracted fields of a body determine the deserializer's result:
/// a vendor-reported message wins; otherwise a complete set of success
/// fields with a convertible temperature yields the weather record, whose
/// location joins name and country with `", "`; otherwise the body fails
/// schema validation and is carried for diagnosis.
pub open spec fn fields_interpreted(
    raw: Seq<char>,
    info: Option<Seq<char>>,
    name: Option<Seq<char>>,
    country: Option<Seq<char>>,
    temperature: Option<i64>,
    summary: Option<Seq<char>>,
    r: Result<Weather, WeatherError>,
) -> bool {
    if info is Some {
        r matches Err(WeatherError::Vendor(m)) && m@ == info->Some_0
    } else if name is Some && country is Some && summary is Some && temperature is Some
        && -TEMPERATURE_LIMIT <= temperature->Some_0 <= TEMPERATURE_LIMIT {
        r matches Ok(w) && w.location@ == name->Some_0 + ", "@ + country->Some_0
            && w.temperature.canon() == 90 * temperature->Some_0
            && w.summary@ == summary->Some_0
    } else {
        r matches Err(WeatherError::Schema(d)) && d@ == raw
    }
}

/// How a response body determines the deserializer's result, through the
/// fields the vendor schema names.
pub open spec fn deserialized_to(s: Seq<char>, r: Result<Weather, WeatherError>) -> bool {
    fields_interpreted(
        s,
        vendor_info_of(s),
        name_of(s),
        country_of(s),
        temperature_of(s),
        summary_of(s),
        r,
    )
}

/// The view of an optional string.
pub open spec fn opt_view(o: Option<String>) -> Option<Seq<char>> {
    match o {
        Some(x) => Some(x@),
        None => None,
    }
}

/// Builds the deserializer's result from the extracted fields of `raw`:
/// `error.info` yields the vendor error; a complete success envelope
/// yields the weather record; anything else fails schema validation.
pub fn interpret_fields(
    raw: &str,
    info: Option<String>,
    name: Option<String>,
    country: Option<String>,
    temperature: Option<i64>,
    summary: Option<String>,
) -> (r: Result<Weather, WeatherError>)
    ensures
        fields_interpreted(
            raw@,
            opt_view(info),
            opt_view(name),
            opt_view(country),
            temperature,
            opt_view(summary),
            r,
        ),
{
    proof {
        reveal_strlit(", ");
    }
    if let Some(message) = info {
        return Err(WeatherError::Vendor(message));
    }
    if name.is_some() && country.is_some() && summary.is_some() && temperature.is_some() {
        let t = temperature.unwrap();
        if -TEMPERATURE_LIMIT <= t && t <= TEMPERATURE_LIMIT {
            let mut location = name.unwrap();
            location.append(", ");
            location.append(country.unwrap().as_str());
            return Ok(
                Weather {
                    location,
                    temperature: Temperature::from_celsius(10 * t),
                    summary: summary.unwrap(),
                },
            );
        }
    }
    Err(WeatherError::Schema(String::from_str(raw)))
}

/// Maps a vendor response body to the domain model: a body carrying the
/// vendor's error envelope fails with the vendor's message even under a
/// success status; a body matching the success envelope yields the
/// weather; any other body — unparseable, missing a required field, or
/// mistyped — fails schema validation and never panics.
pub fn deserialize(json: &str) -> (r: Result<Weather, WeatherError>)
    ensures
        deserialized_to(json@, r),
{
    let info = json_str_at(json, "/error/info");
    let name = json_str_at(json, "/location/name");
    let country = json_str_at(json, "/location/country");
    let temperature = json_int_at(json, "/current/temperature");
    let summary = json_str_at(json, "/current/weather_descriptions/0");
    interpret_fields(json, info, name, country, temperature, summary)
}

/// Whether an HTTP status code counts as success.
pub open spec fn http_success(status: u16) -> bool {
    200 <= status < 300
}

/// Interprets a vendor HTTP response. A non-success status short-circuits
/// to an HTTP-status error carrying the code — the body is never read, let
/// alone parsed. A success status hands the body to the deserializer.
pub fn handle_response(status: u16, body: &str) -> (r: Result<Weather, WeatherError>)
    ensures
        !http_success(status) ==> r == Err::<Weather, WeatherError>(
            WeatherError::HttpStatus(status),
        ),
        http_success(status) ==> deserialized_to(body@, r),
{
    if status < 200 || status >= 300 {
        return Err(WeatherError::HttpStatus(status));
    }
    deserialize(body)
}

/// Immutable configuration for the weatherstack client: the base URL the
/// request is sent to and the caller-supplied API key, never validated
/// locally.
pub struct WeatherStack {
    base_url: String,
    api_key: String,
}

/// A vendor request, described as plain data: the HTTP method, the URL, the
/// query parameters in order, and the request timeout.
pub struct Request {
    pub method: String,
    pub url: String,
    pub params: Vec<(String, String)>,
    pub timeout_secs: u64,
}

impl WeatherStack {
    /// The configured base URL.
    pub closed spec fn spec_base_url(self) -> Seq<char> {
        self.base_url@
    }

    /// The configured API key.
    pub closed spec fn spec_api_key(self) -> Seq<char> {
        self.api_key@
    }

    /// Creates a client configuration for the vendor's fixed endpoint with
    /// the given API key.
    pub fn new(api_key: &str) -> (ws: WeatherStack)
        ensures
            ws.spec_base_url() == DEFAULT_BASE_URL@,
            ws.spec_api_key() == api_key@,
    {
        WeatherStack {
            base_url: String::from_str(DEFAULT_BASE_URL),
            api_key: String::from_str(api_key),
        }
    }

    /// Creates a client configuration against another endpoint (for
    /// testing against a local server).
    pub fn with_base_url(api_key: &str, base_url: &str) -> (ws: WeatherStack)
        ensures
            ws.spec_base_url() == base_url@,
            ws.spec_api_key() == api_key@,
    {
        WeatherStack {
            base_url: String::from_str(base_url),
            api_key: String::from_str(api_key),
        }
    }

    /// The configured base URL.
    pub fn base_url(&self) -> (r: &str)
        ensures
            r@ == self.spec_base_url(),
    {
        self.base_url.as_str()
    }

    /// The configured API key.
    pub fn api_key(&self) -> (r: &str)
        ensures
            r@ == self.spec_api_key(),
    {
        self.api_key.as_str()
    }

    /// Builds the request for `location`: a GET of the configured URL with
    /// exactly two query parameters — `query` set to the raw location and
    /// `access_key` set to the configured key — and a one-second timeout.
    pub fn request(&self, location: &str) -> (r: Request)
        ensures
            r.method@ == "GET"@,
            r.url@ == self.spec_base_url(),
            r.params@.len() == 2,
            r.params@[0].0@ == "query"@,
            r.params@[0].1@ == location@,
            r.params@[1].0@ == "access_key"@,
            r.params@[1].1@ == self.spec_api_key(),
            r.timeout_secs == 1,
{
        let mut params: Vec<(String, String)> = Vec::new();
        params.push((String::from_str("query"), String::from_str(location)));
        params.push((String::from_str("access_key"), String::from_str(self.api_key.as_str())));
        Request {
            method: String::from_str("GET"),
            url: String::from_str(self.base_url.as_str()),
            params,
            timeout_secs: 1,
        }
    }
}

} // verus!

