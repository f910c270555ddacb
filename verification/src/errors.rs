use vstd::prelude::*;
use vstd::string::StringExecFns;

verus! {

/// Error taxonomy of the login and refresh flows.
///
/// `NetworkError` is a transport failure reaching the provider; `ProviderRejected`
/// carries the non-success response body; `MalformedResponse` means the token
/// reply did not parse into a token set; `StateMismatch` and `MissingParameters`
/// are callback validation failures; `LoginExpiredOrNotStarted` means completion
/// was attempted with no pending login; `PortBindFailure` means the loopback
/// port could not be bound.
#[derive(Debug, Clone, PartialEq, Eq)]
pub enum AuthError {
    NetworkError(String),
    ProviderRejected(String),
    MalformedResponse(String),
    StateMismatch,
    MissingParameters,
    LoginExpiredOrNotStarted,
    PortBindFailure(String),
}

/// The description `message` owes for each variant: a fixed sentence, with
/// the carried detail appended where the variant has one.
pub open spec fn spec_message(e: AuthError) -> Seq<char> {
    match e {
        AuthError::NetworkError(d) => "network error: "@ + d@,
        AuthError::ProviderRejected(d) => "provider rejected the request: "@ + d@,
        AuthError::MalformedResponse(d) => "malformed token response: "@ + d@,
        AuthError::StateMismatch => "callback state did not match the pending login"@,
        AuthError::MissingParameters => "callback was missing the code or state parameter"@,
        AuthError::LoginExpiredOrNotStarted => "login flow expired or was never started"@,
        AuthError::PortBindFailure(d) => "could not bind the loopback callback port: "@ + d@,
    }
}

impl AuthError {
    /// A human-readable description, for callers that show errors to the user.
    pub fn message(&self) -> (r: String)
        ensures
            r@ == spec_message(*self),
    {
        match self {
            AuthError::NetworkError(d) => String::from_str("network error: ").concat(
                d.as_str(),
            ),
            AuthError::ProviderRejected(d) => String::from_str(
                "provider rejected the request: ",
            ).concat(d.as_str()),
            AuthError::MalformedResponse(d) => String::from_str(
                "malformed token response: ",
            ).concat(d.as_str()),
            AuthError::StateMismatch => String::from_str(
                "callback state did not match the pending login",
            ),
            AuthError::MissingParameters => String::from_str(
                "callback was missing the code or state parameter",
            ),
            AuthError::LoginExpiredOrNotStarted => String::from_str(
                "login flow expired or was never started",
            ),
            AuthError::PortBindFailure(d) => String::from_str(
                "could not bind the loopback callback port: ",
            ).concat(d.as_str()),
        }
    }
}

} // verus!
