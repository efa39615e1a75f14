use vstd::prelude::*;

verus! {

/// One entry of the error envelope `{"errors": [{code, message, userFacingMessage}]}`.
#[derive(Debug, Clone)]
pub struct RobloxError {
    pub code: i64,
    pub message: String,
    pub user_facing_message: Option<String>,
}

/// The error envelope returned with a failing status code.
#[derive(Debug, Clone)]
pub struct FailedRobloxResponse {
    pub errors: Vec<RobloxError>,
}

/// Every way a call through the request layer can fail.
#[derive(Debug, Clone)]
pub enum Error {
    /// The transport failed before a response arrived.
    Network,
    /// The server answered with status 429.
    RateLimited,
    /// The body did not have the shape that was expected of it.
    JSON,
    /// The server reported a failure; the first entry of its envelope.
    RobloxError(RobloxError),
    /// The operation needs a credential and none is set.
    Authentication,
    /// The anti-forgery token probe ran out of attempts.
    XcsrfToken,
}

} // verus!
