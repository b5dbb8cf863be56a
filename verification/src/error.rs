//! The failures a fetch attempt can end in, and the text shown for each.

use vstd::prelude::*;
use vstd::string::*;

verus! {

/// The payloads whose decoding can fail.
#[derive(Clone, Copy, Debug, PartialEq, Eq, Structural)]
pub enum Payload {
    /// The bytes returned by the secret store are not UTF-8.
    CredentialEncoding,
    /// The credential record held by the secret store.
    Credentials,
    /// The body returned by the token endpoint.
    TokenResponse,
    /// The body returned by the usage endpoint.
    Usage,
    /// The body returned by the profile endpoint.
    Profile,
}

/// Every way in which a fetch attempt can fail.
#[derive(Debug, Clone, PartialEq, Eq)]
pub enum FetchError {
    /// The lookup command of the secret store could not be run.
    StoreUnavailable(String),
    /// The secret store refused the lookup.
    StoreAccessDenied(String),
    /// A payload was malformed.
    ParseFailure { payload: Payload, detail: String },
    /// The credential record holds no OAuth section.
    NoCredentials,
    /// The token endpoint answered with a status outside 200..=299.
    RefreshError { status: u16, status_text: String, body: String },
    /// The token endpoint could not be reached.
    RefreshUnreachable(String),
    /// An API endpoint answered with a status outside 200..=299.
    ApiError { status: u16, status_text: String },
    /// An API endpoint could not be reached.
    RequestFailed(String),
    /// The credential record holds no refresh token.
    NoRefreshToken,
    /// The secret store did not take the new record; `ran` tells whether the
    /// insert command could be started at all.
    StoreWriteFailure { ran: bool, detail: String },
}

/// The HTTP status that marks a rejected access token.
pub const UNAUTHORIZED: u16 = 401;

/// Whether `status` lies in the success class of HTTP.
pub open spec fn status_is_success(status: u16) -> bool {
    200 <= status < 300
}

/// The words that introduce the detail of a malformed payload.
pub open spec fn payload_prefix(payload: Payload) -> Seq<char> {
    match payload {
        Payload::CredentialEncoding => "Invalid UTF-8 in credentials: "@,
        Payload::Credentials => "Failed to parse credentials: "@,
        Payload::TokenResponse => "Failed to parse token response: "@,
        Payload::Usage => "Failed to parse response: "@,
        Payload::Profile => "Failed to parse profile: "@,
    }
}

impl Payload {
    /// The words that introduce the detail of a malformed payload of this kind.
    pub fn prefix(self) -> (text: String)
        ensures
            text@ == payload_prefix(self),
    {
        match self {
            Payload::CredentialEncoding => String::from_str("Invalid UTF-8 in credentials: "),
            Payload::Credentials => String::from_str("Failed to parse credentials: "),
            Payload::TokenResponse => String::from_str("Failed to parse token response: "),
            Payload::Usage => String::from_str("Failed to parse response: "),
            Payload::Profile => String::from_str("Failed to parse profile: "),
        }
    }
}

impl FetchError {
    /// An error is an authentication error exactly when an API endpoint
    /// answered 401.
    pub open spec fn auth_error(self) -> bool {
        self matches FetchError::ApiError { status, .. } && status == UNAUTHORIZED
    }

    /// The text that observers are shown for this error.
    pub open spec fn text(self) -> Seq<char> {
        match self {
            FetchError::StoreUnavailable(detail) => "Failed to run security command: "@ + detail@,
            FetchError::StoreAccessDenied(detail) => "Keychain access failed: "@ + detail@,
            FetchError::ParseFailure { payload, detail } => payload_prefix(payload) + detail@,
            FetchError::NoCredentials => "No OAuth token found in credentials"@,
            FetchError::RefreshError { status, status_text, body } => "Token refresh failed ("@
                + status_text@ + "): "@ + body@,
            FetchError::RefreshUnreachable(detail) => "Token refresh request failed: "@ + detail@,
            FetchError::ApiError { status, status_text } => "API returned status: "@
                + status_text@,
            FetchError::RequestFailed(detail) => "Request failed: "@ + detail@,
            FetchError::NoRefreshToken => "No refresh token found"@,
            FetchError::StoreWriteFailure { ran, detail } => if ran {
                "Keychain update failed: "@ + detail@
            } else {
                "Failed to update keychain: "@ + detail@
            },
        }
    }

    /// Tells whether a refresh of the access token may cure this error.
    pub fn is_auth_error(&self) -> (auth: bool)
        ensures
            auth == self.auth_error(),
    {
        match self {
            FetchError::ApiError { status, .. } => *status == UNAUTHORIZED,
            _ => false,
        }
    }

    /// Renders the error as the text that observers are shown.
    pub fn message(&self) -> (text: String)
        ensures
            text@ == self.text(),
    {
        match self {
            FetchError::StoreUnavailable(detail) => String::from_str(
                "Failed to run security command: ",
            ).concat(detail.as_str()),
            FetchError::StoreAccessDenied(detail) => String::from_str(
                "Keychain access failed: ",
            ).concat(detail.as_str()),
            FetchError::ParseFailure { payload, detail } => payload.prefix().concat(
                detail.as_str(),
            ),
            FetchError::NoCredentials => String::from_str("No OAuth token found in credentials"),
            FetchError::RefreshError { status_text, body, .. } => String::from_str(
                "Token refresh failed (",
            ).concat(status_text.as_str()).concat("): ").concat(body.as_str()),
            FetchError::RefreshUnreachable(detail) => String::from_str(
                "Token refresh request failed: ",
            ).concat(detail.as_str()),
            FetchError::ApiError { status_text, .. } => String::from_str(
                "API returned status: ",
            ).concat(status_text.as_str()),
            FetchError::RequestFailed(detail) => String::from_str("Request failed: ").concat(
                detail.as_str(),
            ),
            FetchError::NoRefreshToken => String::from_str("No refresh token found"),
            FetchError::StoreWriteFailure { ran, detail } => if *ran {
                String::from_str("Keychain update failed: ").concat(detail.as_str())
            } else {
                String::from_str("Failed to update keychain: ").concat(detail.as_str())
            },
        }
    }
}

/// Judges the status of an API response: `None` for a success, else the error
/// that the response stands for.
pub fn api_failure(status: u16, status_text: String) -> (failure: Option<FetchError>)
    ensures
        failure == if status_is_success(status) {
            None
        } else {
            Some(FetchError::ApiError { status, status_text })
        },
{
    if 200 <= status && status < 300 {
        None
    } else {
        Some(FetchError::ApiError { status, status_text })
    }
}

/// Judges the status of the token endpoint's response: `None` for a success,
/// else the error that the response stands for.
pub fn token_failure(status: u16, status_text: String, body: String) -> (failure: Option<
    FetchError,
>)
    ensures
        failure == if status_is_success(status) {
            None
        } else {
            Some(FetchError::RefreshError { status, status_text, body })
        },
{
    if 200 <= status && status < 300 {
        None
    } else {
        Some(FetchError::RefreshError { status, status_text, body })
    }
}

} // verus!
