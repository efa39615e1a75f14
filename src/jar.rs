use vstd::prelude::*;
use vstd::string::StringExecFns;

verus! {

/// The HTTP verbs the request layer issues.
#[derive(Debug, Clone, Copy, PartialEq, Eq, Structural)]
pub enum Method {
    Get,
    Post,
    Patch,
    Delete,
}

impl Method {
    pub open spec fn is_mutating(self) -> bool {
        self != Method::Get
    }
}

/// The headers a call carries besides `Accept: application/json`, which
/// every call carries.
pub struct RequestHeaders {
    /// The value of the `Cookie` header: the credential, or empty.
    pub cookie: String,
    /// Whether `Content-Type: application/json` is sent.
    pub json_body: bool,
    /// The value of the `X-CSRF-TOKEN` header, when one is sent.
    pub xcsrf_token: Option<String>,
}

/// The session of one logical actor: its credential, the anti-forgery token
/// last seen for it, and the proxy its transport goes through.
///
/// A session shared between concurrent calls is held behind a lock by its
/// owner; every method here is a short critical section that does no I/O.
pub struct RequestJar {
    pub roblosecurity: Option<String>,
    pub xcsrf_token: Option<String>,
    pub proxy: Option<String>,
}

/// The `Cookie` header value for a credential.
pub open spec fn cookie_value(credential: Option<String>) -> Seq<char> {
    match credential {
        Some(c) => ".ROBLOSECURITY="@ + c@ + ";"@,
        None => Seq::empty(),
    }
}

/// The token as it is sent: the last stored value, or empty.
pub open spec fn token_value(token: Option<String>) -> Seq<char> {
    match token {
        Some(t) => t@,
        None => Seq::empty(),
    }
}

/// The stored token after a response carrying `header` was observed.
pub open spec fn observed_token(token: Option<String>, header: Option<String>) -> Option<String> {
    match header {
        Some(h) => Some(h),
        None => token,
    }
}

impl RequestJar {
    /// A session with no credential, no token and no proxy.
    pub fn new() -> (r: RequestJar)
        ensures
            r.roblosecurity is None,
            r.xcsrf_token is None,
            r.proxy is None,
    {
        RequestJar { roblosecurity: None, xcsrf_token: None, proxy: None }
    }

    /// Routes transports built from now on through `proxy`.
    pub fn set_proxy(&mut self, proxy: String)
        ensures
            final(self).proxy == Some(proxy),
            final(self).roblosecurity == old(self).roblosecurity,
            final(self).xcsrf_token == old(self).xcsrf_token,
    {
        self.proxy = Some(proxy);
    }

    /// The token to send with a mutating call: the last stored value, or
    /// the empty string when none was ever stored.
    pub fn get_xcsrf(&self) -> (r: String)
        ensures
            r@ == token_value(self.xcsrf_token),
    {
        match &self.xcsrf_token {
            Some(t) => t.clone(),
            None => String::new(),
        }
    }

    /// Stores the token a response carried, whatever its status; a response
    /// without the header leaves the stored token as it was.
    pub fn observe_token_header(&mut self, header: Option<String>)
        ensures
            final(self).xcsrf_token == observed_token(old(self).xcsrf_token, header),
            final(self).roblosecurity == old(self).roblosecurity,
            final(self).proxy == old(self).proxy,
    {
        match header {
            Some(h) => {
                self.xcsrf_token = Some(h);
            },
            None => {},
        }
    }

    /// The `Cookie` header value: `.ROBLOSECURITY=<credential>;`, or empty
    /// without a credential.
    pub fn cookie(&self) -> (r: String)
        ensures
            r@ == cookie_value(self.roblosecurity),
    {
        match &self.roblosecurity {
            Some(c) => {
                let mut s = String::from_str(".ROBLOSECURITY=");
                s.append(c.as_str());
                s.append(";");
                s
            },
            None => String::new(),
        }
    }

    /// The headers of a call: a GET carries the credential only; a mutating
    /// call also carries a JSON content type and the current token, even
    /// when that token is empty.
    pub fn headers(&self, method: Method) -> (r: RequestHeaders)
        ensures
            r.cookie@ == cookie_value(self.roblosecurity),
            r.json_body == method.is_mutating(),
            method.is_mutating() ==> r.xcsrf_token is Some && r.xcsrf_token->Some_0@ == token_value(
                self.xcsrf_token,
            ),
            !method.is_mutating() ==> r.xcsrf_token is None,
    {
        let cookie = self.cookie();
        match method {
            Method::Get => RequestHeaders { cookie, json_body: false, xcsrf_token: None },
            _ => RequestHeaders { cookie, json_body: true, xcsrf_token: Some(self.get_xcsrf()) },
        }
    }
}

} // verus!
