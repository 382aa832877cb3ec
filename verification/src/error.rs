//! Error types for the questrade-client crate.

use vstd::prelude::*;

verus! {

#[verifier::external_type_specification]
#[verifier::external_body]
pub struct ExReqwestError(reqwest::Error);

#[verifier::external_type_specification]
#[verifier::external_body]
pub struct ExStatusCode(reqwest::StatusCode);

#[verifier::external_type_specification]
#[verifier::external_body]
pub struct ExSerdeJsonError(serde_json::Error);

#[verifier::external_type_specification]
#[verifier::external_body]
pub struct ExTimeError(time::error::Error);

/// Errors returned by the Questrade API client.
#[derive(Debug)]
pub enum QuestradeError {
    /// An HTTP/network error from the underlying `reqwest` client.
    Http(reqwest::Error),
    /// The Questrade API returned a non-success status code.
    Api {
        /// HTTP status code returned by the API.
        status: reqwest::StatusCode,
        /// Response body (may contain a JSON error object or plain text).
        body: String,
    },
    /// Rate-limited (HTTP 429) after exhausting all retry attempts.
    RateLimited {
        /// Number of retry attempts made before giving up.
        retries: u32,
    },
    /// OAuth token refresh failed with a non-success status.
    TokenRefresh {
        /// HTTP status code from the auth server.
        status: reqwest::StatusCode,
        /// Response body from the auth server.
        body: String,
    },
    /// Failed to deserialize a JSON response body.
    Deserialization(serde_json::Error),
    /// A datetime string could not be formatted or parsed.
    DateTime {
        /// What we were trying to do (e.g. "Failed to parse datetime: …").
        context: String,
        /// The underlying `time` format or parse error.
        source: time::error::Error,
    },
    /// A symbol lookup returned no matching result.
    SymbolNotFound(String),
    /// A response was expected to contain at least one item but was empty.
    EmptyResponse(String),
}

/// The error of a client builder that was given no token manager.
pub fn missing_token_manager() -> (e: QuestradeError)
    ensures
        e matches QuestradeError::EmptyResponse(m) && m@ == "QuestradeClientBuilder: token_manager is required"@,
{
    QuestradeError::EmptyResponse("QuestradeClientBuilder: token_manager is required".to_owned())
}

/// Convenience type alias for `Result<T, QuestradeError>`.
pub type Result<T> = std::result::Result<T, QuestradeError>;

} // verus!
