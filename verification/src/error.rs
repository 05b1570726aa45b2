//! The error taxonomy shared by the formatter, the relay and the fetch
//! pipeline.
//!
//! Each variant names one failure class with its own remediation: a missing
//! provider credential, a location that geocoding could not resolve, an
//! upstream provider that could not be reached or answered badly, a payload
//! whose shape does not match the contract, and a relay that the client could
//! not reach at all.

use vstd::prelude::*;
use vstd::string::StringExecFns;

verus! {

/// One failure class of the weather pipeline. Variants that arise from an
/// outside call carry the composed user-facing message as `detail`.
#[derive(Debug)]
pub enum WeatherError {
    /// The provider credential is absent; fatal at relay startup,
    /// recoverable with guidance at the client.
    CredentialMissing,
    /// Geocoding returned zero results for the requested location.
    LocationNotFound,
    /// A provider could not be reached or answered with an error.
    UpstreamUnavailable { detail: String },
    /// A payload's shape does not match the documented contract.
    MalformedPayload { detail: String },
    /// The client could not reach the relay at all.
    RelayUnreachable { detail: String },
}

/// Builds the error for a geocoding request that could not be carried out,
/// keeping the transport's own words as the suffix of the message.
pub fn geo_request_failed(detail: &str) -> (e: WeatherError)
    ensures
        e matches WeatherError::UpstreamUnavailable { detail: d } && d@ == "Failed to get coordinates: "@
            + detail@,
{
    let mut msg = String::from_str("Failed to get coordinates: ");
    msg.append(detail);
    WeatherError::UpstreamUnavailable { detail: msg }
}

/// Builds the error for a weather request that could not be carried out,
/// keeping the transport's own words as the suffix of the message.
pub fn weather_request_failed(detail: &str) -> (e: WeatherError)
    ensures
        e matches WeatherError::UpstreamUnavailable { detail: d } && d@
            == "Failed to get weather data: "@ + detail@,
{
    let mut msg = String::from_str("Failed to get weather data: ");
    msg.append(detail);
    WeatherError::UpstreamUnavailable { detail: msg }
}

/// The HTTP status the relay answers with for each error class: bad request
/// for a location that could not be resolved, internal server error for
/// everything else.
pub open spec fn relay_status_of(e: WeatherError) -> int {
    match e {
        WeatherError::LocationNotFound => 400,
        _ => 500,
    }
}

/// Maps an error to the HTTP status code of the relay's response.
pub fn relay_error_status(e: &WeatherError) -> (s: u16)
    ensures
        s as int == relay_status_of(*e),
{
    match e {
        WeatherError::LocationNotFound => 400,
        _ => 500,
    }
}

/// The user-facing message the relay puts in its JSON error body.
pub open spec fn relay_message_of(e: WeatherError) -> Seq<char> {
    match e {
        WeatherError::CredentialMissing => "OPENWEATHERMAP_API_KEY must be set"@,
        WeatherError::LocationNotFound => "Unable to get location coordinates."@,
        WeatherError::UpstreamUnavailable { detail } => detail@,
        WeatherError::MalformedPayload { detail } => detail@,
        WeatherError::RelayUnreachable { detail } => detail@,
    }
}

/// Renders an error as the message of the relay's JSON error body.
pub fn relay_error_message(e: &WeatherError) -> (m: String)
    ensures
        m@ == relay_message_of(*e),
{
    match e {
        WeatherError::CredentialMissing => String::from_str("OPENWEATHERMAP_API_KEY must be set"),
        WeatherError::LocationNotFound => String::from_str("Unable to get location coordinates."),
        WeatherError::UpstreamUnavailable { detail } => detail.clone(),
        WeatherError::MalformedPayload { detail } => detail.clone(),
        WeatherError::RelayUnreachable { detail } => detail.clone(),
    }
}

} // verus!
