use vstd::prelude::*;
use vstd::string::StringExecFns;
use crate::classify::{classify, outcome_result, status_class, Outcome, ResponseBody, ResponseClass};
use crate::error::Error;
use crate::jar::{observed_token, Method, RequestJar};

verus! {

/// The exact domain error message by which the server reports a stale
/// anti-forgery token.
pub const TOKEN_INVALID_MESSAGE: &'static str = "Token Validation Failed";

pub open spec fn is_token_invalidation(e: Error) -> bool {
    match e {
        Error::RobloxError(re) => re.message@ == "Token Validation Failed"@,
        _ => false,
    }
}

/// Whether an error is the server's report of a stale token (the message
/// must match exactly, case included).
pub fn token_invalidated(e: &Error) -> (r: bool)
    ensures
        r == is_token_invalidation(*e),
{
    match e {
        Error::RobloxError(re) => {
            let sentinel = String::from_str(TOKEN_INVALID_MESSAGE);
            proof {
                reveal_strlit("Token Validation Failed");
            }
            re.message == sentinel
        },
        _ => false,
    }
}

/// One call through the request layer, from its first send to its result.
///
/// The caller sends the request (method, url and body here, headers from
/// [`RequestJar::headers`]) whenever a step says `Send`, runs a token fetch
/// when it says `RefreshToken`, and stops at `Done`. A retry re-sends this
/// same request, with its own verb and body.
pub struct RequestCall {
    pub method: Method,
    pub url: String,
    pub body: String,
    /// Whether the single retry after a token refresh has been spent.
    pub retried: bool,
}

/// What the call asks for next.
pub enum CallStep<T> {
    /// Send the request (again).
    Send,
    /// Fetch a fresh token, then report it with [`RequestCall::on_refresh`].
    RefreshToken,
    /// The call is over.
    Done(Result<T, Error>),
}

pub open spec fn outcome_token_header<T>(outcome: Outcome<T>) -> Option<String> {
    match outcome {
        Outcome::Received { token_header, .. } => token_header,
        Outcome::TransportFailure => None,
    }
}

/// What follows an outcome: a refresh when a mutating call that has not
/// yet retried meets the stale-token error, else the classified result.
pub open spec fn call_next<T>(call: RequestCall, outcome: Outcome<T>) -> CallStep<T> {
    let res = outcome_result(outcome);
    if res is Err && is_token_invalidation(res->Err_0) && call.method.is_mutating()
        && !call.retried {
        CallStep::RefreshToken
    } else {
        CallStep::Done(res)
    }
}

/// What follows a token refresh: the retry, or the refresh's own error.
pub open spec fn refresh_next<T>(result: Result<(), Error>) -> CallStep<T> {
    match result {
        Ok(_) => CallStep::Send,
        Err(e) => CallStep::Done(Err(e)),
    }
}

impl RequestCall {
    /// A call not yet sent; the caller sends it first.
    pub fn new(method: Method, url: String, body: String) -> (r: RequestCall)
        ensures
            r.method == method,
            r.url == url,
            r.body == body,
            !r.retried,
    {
        RequestCall { method, url, body, retried: false }
    }

    /// Takes the outcome of a send. A token header on the response replaces
    /// the stored token whatever the status; then the outcome is classified
    /// and either ends the call or, for the stale-token error, asks for one
    /// refresh.
    pub fn on_outcome<T>(&mut self, jar: &mut RequestJar, outcome: Outcome<T>) -> (r: CallStep<T>)
        ensures
            r == call_next(*old(self), outcome),
            *final(self) == *old(self),
            final(jar).xcsrf_token == observed_token(
                old(jar).xcsrf_token,
                outcome_token_header(outcome),
            ),
            final(jar).roblosecurity == old(jar).roblosecurity,
            final(jar).proxy == old(jar).proxy,
    {
        let res = match outcome {
            Outcome::TransportFailure => Err(Error::Network),
            Outcome::Received { status, token_header, body } => {
                jar.observe_token_header(token_header);
                classify(status, body)
            },
        };
        let refresh = match &res {
            Ok(_) => false,
            Err(e) => token_invalidated(e) && self.method != Method::Get && !self.retried,
        };
        if refresh {
            CallStep::RefreshToken
        } else {
            CallStep::Done(res)
        }
    }

    /// Takes the result of the token refresh that a step asked for: the
    /// request is sent once more, or the refresh's error ends the call.
    pub fn on_refresh<T>(&mut self, result: Result<(), Error>) -> (r: CallStep<T>)
        ensures
            r == refresh_next::<T>(result),
            final(self).retried,
            final(self).method == old(self).method,
            final(self).url == old(self).url,
            final(self).body == old(self).body,
    {
        self.retried = true;
        match result {
            Ok(_) => CallStep::Send,
            Err(e) => CallStep::Done(Err(e)),
        }
    }
}

/// A mutating call that meets the stale-token error asks for exactly one
/// refresh; after a successful refresh it re-sends the same request (same
/// verb, url and body), and whatever that retry meets, the stale-token
/// error included, ends the call with the classified result.
pub proof fn lemma_single_refresh_retry<T>(
    call: RequestCall,
    first: Outcome<T>,
    retried: RequestCall,
    second: Outcome<T>,
)
    requires
        call.method.is_mutating(),
        !call.retried,
        outcome_result(first) is Err,
        is_token_invalidation(outcome_result(first)->Err_0),
        retried.retried,
        retried.method == call.method,
        retried.url == call.url,
        retried.body == call.body,
    ensures
        call_next(call, first) == CallStep::<T>::RefreshToken,
        refresh_next::<T>(Ok(())) == CallStep::<T>::Send,
        call_next(retried, second) == CallStep::Done(outcome_result(second)),
{
}

/// Rate limiting and every other result that is not the stale-token error
/// end the call at once: nothing is retried for them.
pub proof fn lemma_no_retry_otherwise<T>(call: RequestCall, outcome: Outcome<T>)
    requires
        !(outcome_result(outcome) is Err && is_token_invalidation(outcome_result(outcome)->Err_0)),
    ensures
        call_next(call, outcome) == CallStep::Done(outcome_result(outcome)),
{
}

/// A GET call whose response has status 200 ends with the decoded value
/// when the body conformed and with `JSON` when it did not; a status 429
/// is classified before any body is read, and ends the call with
/// `RateLimited` whatever the body held, without a retry.
pub proof fn lemma_get_json<T>(
    call: RequestCall,
    token_header: Option<String>,
    v: T,
    body: ResponseBody<T>,
)
    requires
        call.method == Method::Get,
    ensures
        status_class(429) == ResponseClass::RateLimited,
        call_next(call, Outcome::Received { status: 200, token_header, body: ResponseBody::Json(Some(v)) })
            == CallStep::Done(Ok::<T, Error>(v)),
        call_next(call, Outcome::Received { status: 200, token_header, body: ResponseBody::<T>::Json(None) })
            == CallStep::<T>::Done(Err(Error::JSON)),
        call_next(call, Outcome::Received { status: 429, token_header, body })
            == CallStep::<T>::Done(Err(Error::RateLimited)),
{
}

} // verus!
