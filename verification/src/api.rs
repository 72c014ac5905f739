//! The request sent to the weather provider and the reading of its answer.

use crate::decimal::{decimal_digits, decimal_text};
use vstd::prelude::*;
use vstd::string::StringExecFns;

verus! {

/// Why a lookup failed.
#[derive(Debug, Clone)]
pub enum FetchError {
    /// The provider could not be reached.
    NetworkFailure,
    /// The provider answered with a status other than success.
    ApiError { status: u16, body: String },
    /// The answer does not have the expected shape.
    DecodeError,
}

/// The address of a query for a city in a country, in metric units.
pub open spec fn query_url(
    endpoint: Seq<char>,
    city: Seq<char>,
    country_code: Seq<char>,
    api_key: Seq<char>,
) -> Seq<char> {
    "http://api.openweathermap.org/data/2.5/"@ + endpoint + "?q="@ + city + ","@ + country_code
        + "&units=metric&appid="@ + api_key
}

/// Whether an HTTP status reports success: 200 up to 299.
pub open spec fn is_success(status: u16) -> bool {
    200 <= status && status < 300
}

/// The words in which a failed lookup is reported.
pub open spec fn fetch_error_text(error: &FetchError) -> Seq<char> {
    match error {
        FetchError::NetworkFailure => "Network failure"@,
        FetchError::ApiError { status, body } => "API request failed: "@ + decimal_digits(
            *status as nat,
        ) + " ("@ + body@ + ")"@,
        FetchError::DecodeError => "Unexpected response from the weather service"@,
    }
}

fn build_url(endpoint: &str, city: &str, country_code: &str, api_key: &str) -> (url: String)
    ensures
        url@ == query_url(endpoint@, city@, country_code@, api_key@),
{
    let mut url = String::from_str("http://api.openweathermap.org/data/2.5/");
    url.append(endpoint);
    url.append("?q=");
    url.append(city);
    url.append(",");
    url.append(country_code);
    url.append("&units=metric&appid=");
    url.append(api_key);
    url
}

/// The address that answers with the current weather.
pub fn weather_url(city: &str, country_code: &str, api_key: &str) -> (url: String)
    ensures
        url@ == query_url("weather"@, city@, country_code@, api_key@),
{
    build_url("weather", city, country_code, api_key)
}

/// The address that answers with the forecast.
pub fn forecast_url(city: &str, country_code: &str, api_key: &str) -> (url: String)
    ensures
        url@ == query_url("forecast"@, city@, country_code@, api_key@),
{
    build_url("forecast", city, country_code, api_key)
}

/// Tells whether an HTTP status reports success.
pub fn is_success_status(status: u16) -> (success: bool)
    ensures
        success == is_success(status),
{
    200 <= status && status < 300
}

/// Reads the status of an answer: a success lets the body through, any
/// other status turns it into an error that carries status and body.
pub fn check_status(status: u16, body: String) -> (checked: Result<String, FetchError>)
    ensures
        is_success(status) ==> checked is Ok && checked->Ok_0 == body,
        !is_success(status) ==> checked is Err && checked->Err_0 == (FetchError::ApiError {
            status,
            body,
        }),
{
    if is_success_status(status) {
        Ok(body)
    } else {
        Err(FetchError::ApiError { status, body })
    }
}

impl FetchError {
    /// The words in which the failure is reported.
    pub fn message(&self) -> (text: String)
        ensures
            text@ == fetch_error_text(self),
    {
        match self {
            FetchError::NetworkFailure => String::from_str("Network failure"),
            FetchError::ApiError { status, body } => {
                let mut text = String::from_str("API request failed: ");
                text.append(decimal_text(*status as u64).as_str());
                text.append(" (");
                text.append(body.as_str());
                text.append(")");
                text
            },
            FetchError::DecodeError => String::from_str(
                "Unexpected response from the weather service",
            ),
        }
    }
}

} // verus!
