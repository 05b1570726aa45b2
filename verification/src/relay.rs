//! Decision logic of the aggregation relay and of the client that calls it.
//!
//! The relay accepts a location request, geocodes it against the upstream
//! provider (taking the first result only), fetches current and daily
//! weather for the resolved coordinates, and answers with the raw weather
//! payload passed through unchanged plus one convenience field extracted
//! from it. The network calls themselves happen outside this crate; the
//! functions here build the exact request URLs, interpret the response
//! bodies, and compose the answer, with JSON extraction confined to three
//! trusted wrappers over `serde_json`.

use vstd::prelude::*;
use vstd::string::StringExecFns;

use crate::error::WeatherError;

verus! {

/// The location a fetch cycle asks weather for, as the IP-geolocation
/// provider reports it.
pub struct LocationQuery {
    pub city: String,
    pub country_code: String,
}

/// Coordinates resolved by geocoding. Each coordinate is carried in the
/// decimal text form the provider handed back, which is all the relay needs:
/// the value is only ever embedded in the weather request URL.
#[derive(Debug)]
pub struct Coordinates {
    pub lat: String,
    pub lon: String,
}

/// The relay's successful answer: the upstream weather payload passed
/// through unchanged, the description of today's weather extracted from it
/// as a convenience, and the city the request named.
#[derive(Debug)]
pub struct RelayWeatherResponse {
    pub weather_data: String,
    pub daily_weather_description: String,
    pub city: String,
}

/// What the geocoding response body holds: nothing when the body is not a
/// JSON array; an empty marker when the array has no elements; otherwise the
/// decimal text of the numeric `lat` and `lon` fields of the first element,
/// each absent when the field is missing or not a number.
pub uninterp spec fn geo_first_of(body: Seq<char>) -> Option<
    Option<(Option<Seq<char>>, Option<Seq<char>>)>,
>;

/// Relies on `serde_json`: `from_str` to parse the body as a JSON array,
/// `Value::get` and `Value::is_number` to read the `lat` and `lon` fields of
/// its first element, and `Value`'s `Display` for their decimal text. The
/// result is a function of the body text alone.
#[verifier::external_body]
fn json_geo_first(body: &str) -> (r: Option<Option<(Option<String>, Option<String>)>>)
    ensures
        r.deep_view() == geo_first_of(body@),
{
    let arr: Vec<serde_json::Value> = match serde_json::from_str(body) {
        Ok(a) => a,
        Err(_) => return None,
    };
    let v = match arr.first() {
        Some(v) => v,
        None => return Some(None),
    };
    let lat = match v.get("lat") { Some(x) if x.is_number() => Some(x.to_string()), _ => None };
    let lon = match v.get("lon") { Some(x) if x.is_number() => Some(x.to_string()), _ => None };
    Some(Some((lat, lon)))
}

/// What the weather response body holds: nothing when the body is not JSON;
/// otherwise the string at `daily[0].weather[0].description`, absent when
/// the path does not lead to a string.
pub uninterp spec fn daily_description_of(body: Seq<char>) -> Option<Option<Seq<char>>>;

/// Relies on `serde_json`: `from_str` to parse the body, `Value`'s indexing
/// to walk `daily[0].weather[0].description`, and `Value::as_str` to read
/// it. The result is a function of the body text alone.
#[verifier::external_body]
fn json_daily_description(body: &str) -> (r: Option<Option<String>>)
    ensures
        r.deep_view() == daily_description_of(body@),
{
    let v: serde_json::Value = match serde_json::from_str(body) {
        Ok(v) => v,
        Err(_) => return None,
    };
    match v["daily"][0]["weather"][0]["description"].as_str() {
        Some(d) => Some(Some(d.to_string())),
        None => Some(None),
    }
}

/// What the IP-geolocation response body holds: nothing when the body is not
/// JSON; otherwise the `city` and `countryCode` string fields, each absent
/// when missing or not a string.
pub uninterp spec fn ip_location_of(body: Seq<char>) -> Option<
    (Option<Seq<char>>, Option<Seq<char>>),
>;

/// Relies on `serde_json`: `from_str` to parse the body, `Value`'s indexing
/// and `Value::as_str` to read the `city` and `countryCode` fields. The
/// result is a function of the body text alone.
#[verifier::external_body]
fn json_ip_location(body: &str) -> (r: Option<(Option<String>, Option<String>)>)
    ensures
        r.deep_view() == ip_location_of(body@),
{
    let v: serde_json::Value = match serde_json::from_str(body) {
        Ok(v) => v,
        Err(_) => return None,
    };
    let city = match v["city"].as_str() {
        Some(s) => Some(s.to_string()),
        None => None,
    };
    let country = match v["countryCode"].as_str() {
        Some(s) => Some(s.to_string()),
        None => None,
    };
    Some((city, country))
}

/// The geocoding request for a city and country: first result only, under
/// the given provider credential.
pub fn geocode_url(city: &str, country_code: &str, api_key: &str) -> (r: String)
    ensures
        r@ == "http://api.openweathermap.org/geo/1.0/direct?q="@ + city@ + ","@ + country_code@
            + "&limit=1&appid="@ + api_key@,
{
    let mut url = String::from_str("http://api.openweathermap.org/geo/1.0/direct?q=");
    url.append(city);
    url.append(",");
    url.append(country_code);
    url.append("&limit=1&appid=");
    url.append(api_key);
    url
}

/// The weather request for resolved coordinates: imperial units, current and
/// daily granularity only, under the given provider credential.
pub fn weather_url(c: &Coordinates, api_key: &str) -> (r: String)
    ensures
        r@ == "https://api.openweathermap.org/data/3.0/onecall?lat="@ + c.lat@ + "&lon="@ + c.lon@
            + "&units=imperial&exclude=minutely,hourly,alerts&appid="@ + api_key@,
{
    let mut url = String::from_str("https://api.openweathermap.org/data/3.0/onecall?lat=");
    url.append(c.lat.as_str());
    url.append("&lon=");
    url.append(c.lon.as_str());
    url.append("&units=imperial&exclude=minutely,hourly,alerts&appid=");
    url.append(api_key);
    url
}

/// The plain-text body of the relay's health endpoint.
pub fn health_message() -> (r: String)
    ensures
        r@ == "Weather Proxy Server is running! Use POST /api/weather to get weather data."@,
{
    String::from_str(
        "Weather Proxy Server is running! Use POST /api/weather to get weather data.",
    )
}

/// The IP-geolocation request that resolves the caller's own location.
pub fn ip_lookup_url() -> (r: String)
    ensures
        r@ == "http://ip-api.com/json/"@,
{
    String::from_str("http://ip-api.com/json/")
}

/// Reads the geocoding response body into coordinates, taking the first
/// result only. A body that is not a JSON array is a malformed payload; an
/// empty result list means the location could not be resolved; a first
/// result that lacks a numeric coordinate is a malformed payload too —
/// never a silent default.
pub fn resolve_coordinates(geo_body: &str) -> (r: Result<Coordinates, WeatherError>)
    ensures
        geo_first_of(geo_body@) is None ==> (r matches Err(e) && e matches WeatherError::MalformedPayload {
            detail,
        } && detail@ == "Failed to parse coordinates: invalid JSON"@),
        geo_first_of(geo_body@) matches Some(first) ==> {
            match first {
                None => r matches Err(e) && e is LocationNotFound,
                Some(p) => {
                    if p.0 is Some && p.1 is Some {
                        r matches Ok(c) && c.lat@ == p.0->0 && c.lon@ == p.1->0
                    } else {
                        r matches Err(e) && e matches WeatherError::MalformedPayload { detail }
                            && detail@ == "Failed to parse coordinates: missing coordinates"@
                    }
                },
            }
        },
{
    match json_geo_first(geo_body) {
        None => Err(
            WeatherError::MalformedPayload {
                detail: String::from_str("Failed to parse coordinates: invalid JSON"),
            },
        ),
        Some(None) => Err(WeatherError::LocationNotFound),
        Some(Some(p)) => {
            match (p.0, p.1) {
                (Some(lat), Some(lon)) => Ok(Coordinates { lat, lon }),
                _ => Err(
                    WeatherError::MalformedPayload {
                        detail: String::from_str("Failed to parse coordinates: missing coordinates"),
                    },
                ),
            }
        },
    }
}

/// Composes the relay's successful answer from the upstream weather body:
/// the payload is passed through unchanged, with today's weather description
/// extracted as a convenience field, "Unknown" when the payload does not
/// carry one. A body that is not JSON at all is a malformed payload.
pub fn compose_weather_response(weather_body: String, city: String) -> (r: Result<
    RelayWeatherResponse,
    WeatherError,
>)
    ensures
        daily_description_of(weather_body@) is None ==> (r matches Err(e) && e matches WeatherError::MalformedPayload {
            detail,
        } && detail@ == "Failed to parse weather data: invalid JSON"@),
        daily_description_of(weather_body@) matches Some(d) ==> (r matches Ok(resp)
            && resp.weather_data@ == weather_body@ && resp.daily_weather_description@ == (
        match d {
            Some(t) => t,
            None => "Unknown"@,
        }) && resp.city@ == city@),
{
    match json_daily_description(weather_body.as_str()) {
        None => Err(
            WeatherError::MalformedPayload {
                detail: String::from_str("Failed to parse weather data: invalid JSON"),
            },
        ),
        Some(d) => {
            let description = match d {
                Some(t) => t,
                None => String::from_str("Unknown"),
            };
            Ok(
                RelayWeatherResponse {
                    weather_data: weather_body,
                    daily_weather_description: description,
                    city,
                },
            )
        },
    }
}

/// The location a lookup reported, with the documented defaults where a
/// field is missing: "Unknown City" and "US".
pub fn location_from_lookup(city: Option<String>, country_code: Option<String>) -> (q:
    LocationQuery)
    ensures
        q.city@ == (match city.deep_view() {
            Some(c) => c,
            None => "Unknown City"@,
        }),
        q.country_code@ == (match country_code.deep_view() {
            Some(c) => c,
            None => "US"@,
        }),
{
    let city = match city {
        Some(c) => c,
        None => String::from_str("Unknown City"),
    };
    let country_code = match country_code {
        Some(c) => c,
        None => String::from_str("US"),
    };
    LocationQuery { city, country_code }
}

/// Reads the IP-geolocation response body into the location to fetch
/// weather for, defaulting missing fields; a body that is not JSON yields
/// nothing and fails the lookup.
pub fn interpret_ip_response(body: &str) -> (r: Option<LocationQuery>)
    ensures
        ip_location_of(body@) is None ==> r is None,
        ip_location_of(body@) matches Some(p) ==> (r matches Some(q) && q.city@ == (match p.0 {
            Some(c) => c,
            None => "Unknown City"@,
        }) && q.country_code@ == (match p.1 {
            Some(c) => c,
            None => "US"@,
        })),
{
    match json_ip_location(body) {
        None => None,
        Some(p) => Some(location_from_lookup(p.0, p.1)),
    }
}

/// The relay base URL the client talks to: as configured, or the local
/// development default.
pub fn relay_base_url(config: Option<String>) -> (r: String)
    ensures
        r@ == (match config.deep_view() {
            Some(u) => u,
            None => "http://localhost:3000"@,
        }),
{
    match config {
        Some(u) => u,
        None => String::from_str("http://localhost:3000"),
    }
}

/// The weather endpoint under a relay base URL.
pub fn relay_endpoint_url(base: &str) -> (r: String)
    ensures
        r@ == base@ + "/api/weather"@,
{
    let mut url = String::from_str(base);
    url.append("/api/weather");
    url
}

} // verus!
