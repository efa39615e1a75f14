use vstd::prelude::*;
use crate::error::{Error, FailedRobloxResponse, RobloxError};

verus! {

/// How a status code is to be handled, decided before any body is read.
#[derive(Debug, Clone, Copy, PartialEq, Eq, Structural)]
pub enum ResponseClass {
    /// Status 200: the body is decoded as the expected value.
    Success,
    /// Status 429: the body is not read.
    RateLimited,
    /// Any other status: the body is decoded as an error envelope.
    Failure,
}

/// What the caller made of a response body, as [`classify_status`] directed.
pub enum ResponseBody<T> {
    /// Decoded as the expected value; `None` when it did not conform.
    Json(Option<T>),
    /// Decoded as an error envelope; `None` when it did not conform.
    Envelope(Option<FailedRobloxResponse>),
    /// Not read at all.
    Unread,
}

/// The result of one HTTP exchange as seen by the request layer.
pub enum Outcome<T> {
    /// No response arrived.
    TransportFailure,
    /// A response arrived, with its status, its anti-forgery token header
    /// (when it carried one) and what was read from its body.
    Received { status: u16, token_header: Option<String>, body: ResponseBody<T> },
}

pub open spec fn status_class(status: u16) -> ResponseClass {
    if status == 200 {
        ResponseClass::Success
    } else if status == 429 {
        ResponseClass::RateLimited
    } else {
        ResponseClass::Failure
    }
}

/// The error carried by a failing response: the envelope's first entry, or
/// `JSON` when the body is not an envelope with at least one entry.
pub open spec fn envelope_error(body: Option<FailedRobloxResponse>) -> Error {
    match body {
        Some(env) => if env.errors@.len() > 0 {
            Error::RobloxError(env.errors@[0])
        } else {
            Error::JSON
        },
        None => Error::JSON,
    }
}

/// The classification of a response: status 200 first, then 429, then the
/// error envelope.
pub open spec fn classified<T>(status: u16, body: ResponseBody<T>) -> Result<T, Error> {
    if status == 200 {
        match body {
            ResponseBody::Json(Some(v)) => Ok(v),
            _ => Err(Error::JSON),
        }
    } else if status == 429 {
        Err(Error::RateLimited)
    } else {
        match body {
            ResponseBody::Envelope(env) => Err(envelope_error(env)),
            _ => Err(Error::JSON),
        }
    }
}

pub open spec fn outcome_result<T>(outcome: Outcome<T>) -> Result<T, Error> {
    match outcome {
        Outcome::TransportFailure => Err(Error::Network),
        Outcome::Received { status, body, .. } => classified(status, body),
    }
}

/// Decides how a response with this status is to be read.
pub fn classify_status(status: u16) -> (r: ResponseClass)
    ensures
        r == status_class(status),
{
    if status == 200 {
        ResponseClass::Success
    } else if status == 429 {
        ResponseClass::RateLimited
    } else {
        ResponseClass::Failure
    }
}

/// The error that a failing response reports.
pub fn envelope_to_error(body: Option<FailedRobloxResponse>) -> (r: Error)
    ensures
        r == envelope_error(body),
{
    match body {
        Some(env) => {
            let mut errors = env.errors;
            if errors.len() > 0 {
                let first: RobloxError = errors.swap_remove(0);
                Error::RobloxError(first)
            } else {
                Error::JSON
            }
        },
        None => Error::JSON,
    }
}

/// Turns a status and what was read from the body into the call's result.
pub fn classify<T>(status: u16, body: ResponseBody<T>) -> (r: Result<T, Error>)
    ensures
        r == classified(status, body),
{
    if status == 200 {
        match body {
            ResponseBody::Json(Some(v)) => Ok(v),
            _ => Err(Error::JSON),
        }
    } else if status == 429 {
        Err(Error::RateLimited)
    } else {
        match body {
            ResponseBody::Envelope(env) => Err(envelope_to_error(env)),
            _ => Err(Error::JSON),
        }
    }
}

/// Turns the outcome of an exchange into the call's result.
pub fn classify_outcome<T>(outcome: Outcome<T>) -> (r: Result<T, Error>)
    ensures
        r == outcome_result(outcome),
{
    match outcome {
        Outcome::TransportFailure => Err(Error::Network),
        Outcome::Received { status, body, .. } => classify(status, body),
    }
}

} // verus!
