//! Error kinds.

use crate::text::{decimal_text, format_i64};
use vstd::prelude::*;

verus! {

/// A transport failure of `reqwest`.
#[verifier::external_type_specification]
#[verifier::external_body]
pub struct ExRequestError(reqwest::Error);

/// Errors that can occur when using the Mindat API client.
#[derive(Debug)]
pub enum MindatError {
    /// HTTP request failed
    Request(reqwest::Error),
    /// Failed to parse URL
    Url(url::ParseError),
    /// API returned an error response
    Api { status: u16, message: String },
    /// Failed to deserialize response
    Deserialization(serde_json::Error),
    /// Authentication error - missing or invalid token
    AuthenticationRequired,
    /// Rate limit exceeded
    RateLimited,
    /// Resource not found
    NotFound(String),
    /// Invalid parameter value
    InvalidParameter(String),
}

impl MindatError {
    /// How the message of an error begins. For the kinds that wrap a foreign
    /// error, the foreign error's own description follows.
    pub open spec fn prefix(self) -> Seq<char> {
        match self {
            MindatError::Request(_) => "HTTP request failed: "@,
            MindatError::Url(_) => "Invalid URL: "@,
            MindatError::Api { status, .. } => "API error (status "@ + decimal_text(status as int)
                + "): "@,
            MindatError::Deserialization(_) => "Failed to parse response: "@,
            MindatError::AuthenticationRequired =>
                "Authentication required: please provide a valid API token"@,
            MindatError::RateLimited =>
                "Rate limit exceeded, please wait before making more requests"@,
            MindatError::NotFound(_) => "Resource not found: "@,
            MindatError::InvalidParameter(_) => "Invalid parameter: "@,
        }
    }

    /// The message of an error, for display.
    pub fn to_string(&self) -> (text: String)
        ensures
            self.prefix().is_prefix_of(text@),
            self matches MindatError::Api { message, .. } ==> text@ == self.prefix() + message@,
            self matches MindatError::NotFound(detail) ==> text@ == self.prefix() + detail@,
            self matches MindatError::InvalidParameter(detail) ==> text@ == self.prefix()
                + detail@,
            self is AuthenticationRequired || self is RateLimited ==> text@ == self.prefix(),
    {
        match self {
            MindatError::Request(e) => {
                String::from_str("HTTP request failed: ").concat(e.to_string().as_str())
            },
            MindatError::Url(e) => {
                String::from_str("Invalid URL: ").concat(e.to_string().as_str())
            },
            MindatError::Api { status, message } => {
                let code = format_i64(*status as i64);
                String::from_str("API error (status ").concat(code.as_str()).concat("): ").concat(
                    message.as_str(),
                )
            },
            MindatError::Deserialization(e) => {
                String::from_str("Failed to parse response: ").concat(e.to_string().as_str())
            },
            MindatError::AuthenticationRequired => {
                String::from_str("Authentication required: please provide a valid API token")
            },
            MindatError::RateLimited => {
                String::from_str("Rate limit exceeded, please wait before making more requests")
            },
            MindatError::NotFound(detail) => {
                String::from_str("Resource not found: ").concat(detail.as_str())
            },
            MindatError::InvalidParameter(detail) => {
                String::from_str("Invalid parameter: ").concat(detail.as_str())
            },
        }
    }
}

} // verus!
