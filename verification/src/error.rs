//! The closed error taxonomy of the flight search pipeline.

use vstd::prelude::*;

verus! {

/// Every failure of a search call is one of these kinds. An error is
/// constructed at the point of detection and returned immediately to the
/// caller; there is no retry and no partial result.
#[derive(Debug)]
pub enum FlightSearchError {
    /// Transport-level failure: connection, body read, or a response body
    /// that is not JSON at all. Carries the transport detail text.
    HttpRequestFailed(String),
    /// The provider answered successfully but the body is structurally
    /// missing what the pipeline expects. Carries the detail text.
    InvalidResponse(String),
    /// The provider was reachable but reported a failure: a non-success
    /// HTTP status or an embedded application error. Carries status/message.
    ApiError(String),
    /// The API key environment variable is absent; no network call is made.
    MissingApiKey,
}

/// The mathematical value of an error: its kind and detail text.
pub ghost enum ErrorModel {
    HttpRequestFailed(Seq<char>),
    InvalidResponse(Seq<char>),
    ApiError(Seq<char>),
    MissingApiKey,
}

impl View for FlightSearchError {
    type V = ErrorModel;

    open spec fn view(&self) -> ErrorModel {
        match self {
            FlightSearchError::HttpRequestFailed(d) => ErrorModel::HttpRequestFailed(d@),
            FlightSearchError::InvalidResponse(d) => ErrorModel::InvalidResponse(d@),
            FlightSearchError::ApiError(d) => ErrorModel::ApiError(d@),
            FlightSearchError::MissingApiKey => ErrorModel::MissingApiKey,
        }
    }
}

impl FlightSearchError {
    /// The human-readable rendering of the error.
    pub fn message(&self) -> (r: String)
        ensures
            r@ == self.spec_message(),
    {
        match self {
            FlightSearchError::HttpRequestFailed(d) => {
                let mut s = String::from_str("HTTP request failed: ");
                s.append(d.as_str());
                s
            },
            FlightSearchError::InvalidResponse(d) => {
                let mut s = String::from_str("Invalid response: ");
                s.append(d.as_str());
                s
            },
            FlightSearchError::ApiError(d) => {
                let mut s = String::from_str("API error: ");
                s.append(d.as_str());
                s
            },
            FlightSearchError::MissingApiKey => String::from_str("Missing API key"),
        }
    }

    /// What `message` returns, as a mathematical value.
    pub open spec fn spec_message(&self) -> Seq<char> {
        match self {
            FlightSearchError::HttpRequestFailed(d) => "HTTP request failed: "@ + d@,
            FlightSearchError::InvalidResponse(d) => "Invalid response: "@ + d@,
            FlightSearchError::ApiError(d) => "API error: "@ + d@,
            FlightSearchError::MissingApiKey => "Missing API key"@,
        }
    }
}

} // verus!
