use vstd::prelude::*;
use crate::error::Error;
use crate::jar::{observed_token, RequestJar};

verus! {

/// Probes sent for one token fetch before it gives up: the first one and
/// three retries.
pub const MAX_TOKEN_PROBES: u8 = 4;

/// A token fetch in progress. The probe itself (a POST that is expected to
/// fail but returns the `X-CSRF-TOKEN` header) is sent by the caller, which
/// hands each answer to [`RequestJar::on_token_probe`].
pub struct TokenFetch {
    /// Probes answered so far.
    pub answered: u8,
}

/// What came back from one probe.
pub enum ProbeEvent {
    /// A response arrived; the token header, when it carried one.
    Response { token_header: Option<String> },
    /// No response arrived.
    TransportFailure,
}

/// What the fetch asks for next.
pub enum ProbeStep {
    /// Send the probe again.
    Probe,
    /// The fetch is over.
    Done(Result<(), Error>),
}

/// The answered count after one more probe, which never passes the limit.
pub open spec fn probed(answered: u8) -> u8 {
    if answered < MAX_TOKEN_PROBES {
        (answered + 1) as u8
    } else {
        MAX_TOKEN_PROBES
    }
}

/// One step of the fetch: the new answered count and what comes next.
pub open spec fn probe_next(answered: u8, event: ProbeEvent) -> (u8, ProbeStep) {
    match event {
        ProbeEvent::TransportFailure => (answered, ProbeStep::Done(Err(Error::Network))),
        ProbeEvent::Response { token_header } => {
            let n = probed(answered);
            match token_header {
                Some(_) => (n, ProbeStep::Done(Ok(()))),
                None => if n < MAX_TOKEN_PROBES {
                    (n, ProbeStep::Probe)
                } else {
                    (n, ProbeStep::Done(Err(Error::XcsrfToken)))
                },
            }
        },
    }
}

/// The token stored after a probe answer.
pub open spec fn probe_token(token: Option<String>, event: ProbeEvent) -> Option<String> {
    match event {
        ProbeEvent::TransportFailure => token,
        ProbeEvent::Response { token_header } => observed_token(token, token_header),
    }
}

/// Feeds `events` to a fetch, one per probe, until it is done or they run
/// out: how many were consumed, the last step, and the token stored.
pub open spec fn probe_run(answered: u8, token: Option<String>, events: Seq<ProbeEvent>) -> (
    nat,
    ProbeStep,
    Option<String>,
)
    decreases events.len(),
{
    if events.len() == 0 {
        (0, ProbeStep::Probe, token)
    } else {
        let (n, step) = probe_next(answered, events[0]);
        let t = probe_token(token, events[0]);
        match step {
            ProbeStep::Done(_) => (1, step, t),
            ProbeStep::Probe => {
                let (k, last, t2) = probe_run(n, t, events.drop_first());
                (k + 1, last, t2)
            },
        }
    }
}

pub open spec fn absent_header(e: ProbeEvent) -> bool {
    e == ProbeEvent::Response { token_header: None }
}

impl RequestJar {
    /// Starts a token fetch. Without a credential it fails with
    /// `Authentication` and no probe is to be sent; otherwise the caller
    /// sends the first probe.
    pub fn get_xcsrf_token(&self) -> (r: Result<TokenFetch, Error>)
        ensures
            self.roblosecurity is None <==> r is Err,
            r is Err ==> r->Err_0 == Error::Authentication,
            r is Ok ==> r->Ok_0.answered == 0,
    {
        match &self.roblosecurity {
            Some(_) => Ok(TokenFetch { answered: 0 }),
            None => Err(Error::Authentication),
        }
    }

    /// Stores the credential and starts the token fetch that follows it.
    pub fn set_roblosecurity(&mut self, roblosecurity: String) -> (r: TokenFetch)
        ensures
            final(self).roblosecurity == Some(roblosecurity),
            final(self).xcsrf_token == old(self).xcsrf_token,
            final(self).proxy == old(self).proxy,
            r.answered == 0,
    {
        self.roblosecurity = Some(roblosecurity);
        TokenFetch { answered: 0 }
    }

    /// Takes the answer to a probe: a token header is stored and ends the
    /// fetch; without one the probe is sent again until
    /// [`MAX_TOKEN_PROBES`] have been answered, after which the fetch fails
    /// with `XcsrfToken`. A transport failure ends it with `Network`.
    pub fn on_token_probe(&mut self, fetch: &mut TokenFetch, event: ProbeEvent) -> (r: ProbeStep)
        ensures
            (final(fetch).answered, r) == probe_next(old(fetch).answered, event),
            final(self).xcsrf_token == probe_token(old(self).xcsrf_token, event),
            final(self).roblosecurity == old(self).roblosecurity,
            final(self).proxy == old(self).proxy,
    {
        match event {
            ProbeEvent::TransportFailure => ProbeStep::Done(Err(Error::Network)),
            ProbeEvent::Response { token_header } => {
                let n: u8 = if fetch.answered < MAX_TOKEN_PROBES {
                    fetch.answered + 1
                } else {
                    MAX_TOKEN_PROBES
                };
                fetch.answered = n;
                match token_header {
                    Some(t) => {
                        self.xcsrf_token = Some(t);
                        ProbeStep::Done(Ok(()))
                    },
                    None => if n < MAX_TOKEN_PROBES {
                        ProbeStep::Probe
                    } else {
                        ProbeStep::Done(Err(Error::XcsrfToken))
                    },
                }
            },
        }
    }
}

/// From `answered` probes without a header, the remaining probes all
/// answered without one end the fetch with `XcsrfToken`, token untouched.
proof fn lemma_run_absent(answered: u8, token: Option<String>, events: Seq<ProbeEvent>)
    requires
        answered < MAX_TOKEN_PROBES,
        events.len() >= MAX_TOKEN_PROBES - answered,
        forall|i: int| 0 <= i < MAX_TOKEN_PROBES - answered ==> #[trigger] absent_header(events[i]),
    ensures
        probe_run(answered, token, events) == (
            (MAX_TOKEN_PROBES - answered) as nat,
            ProbeStep::Done(Err(Error::XcsrfToken)),
            token,
        ),
    decreases MAX_TOKEN_PROBES - answered,
{
    assert(absent_header(events[0]));
    if answered + 1 < MAX_TOKEN_PROBES {
        let rest = events.drop_first();
        assert forall|i: int| 0 <= i < MAX_TOKEN_PROBES - (answered + 1) implies #[trigger] absent_header(
            rest[i],
        ) by {
            assert(absent_header(events[i + 1]));
        }
        lemma_run_absent((answered + 1) as u8, token, rest);
    }
}

/// From `answered` probes, a header on the `i`-th next answer after
/// answers without one ends the fetch successfully and stores that header.
proof fn lemma_run_found(
    answered: u8,
    token: Option<String>,
    events: Seq<ProbeEvent>,
    i: nat,
    value: String,
)
    requires
        answered + i < MAX_TOKEN_PROBES,
        i < events.len(),
        forall|j: int| 0 <= j < i ==> #[trigger] absent_header(events[j]),
        events[i as int] == (ProbeEvent::Response { token_header: Some(value) }),
    ensures
        probe_run(answered, token, events) == (i + 1, ProbeStep::Done(Ok(())), Some(value)),
    decreases i,
{
    if i > 0 {
        assert(absent_header(events[0]));
        let rest = events.drop_first();
        assert forall|j: int| 0 <= j < i - 1 implies #[trigger] absent_header(rest[j]) by {
            assert(absent_header(events[j + 1]));
        }
        lemma_run_found((answered + 1) as u8, token, rest, (i - 1) as nat, value);
    }
}

/// A fetch that has just started fails with `XcsrfToken` once four probes
/// in a row have come back without the token header, and leaves the stored
/// token as it was.
pub proof fn lemma_token_probes_exhausted(token: Option<String>, events: Seq<ProbeEvent>)
    requires
        events.len() >= MAX_TOKEN_PROBES,
        forall|i: int| 0 <= i < MAX_TOKEN_PROBES ==> #[trigger] absent_header(events[i]),
    ensures
        probe_run(0, token, events) == (
            MAX_TOKEN_PROBES as nat,
            ProbeStep::Done(Err(Error::XcsrfToken)),
            token,
        ),
{
    lemma_run_absent(0, token, events);
}

/// A fetch that has just started succeeds on the first probe answered with
/// the token header, within the four allowed, and stores that header's
/// value; no further probe is sent.
pub proof fn lemma_token_found(token: Option<String>, events: Seq<ProbeEvent>, i: nat, value: String)
    requires
        i < MAX_TOKEN_PROBES,
        i < events.len(),
        forall|j: int| 0 <= j < i ==> #[trigger] absent_header(events[j]),
        events[i as int] == (ProbeEvent::Response { token_header: Some(value) }),
    ensures
        probe_run(0, token, events) == (i + 1, ProbeStep::Done(Ok(())), Some(value)),
{
    lemma_run_found(0, token, events, i, value);
}

/// However the probes are answered, a fetch that has just started sends at
/// most four of them: once four are answered it is over.
pub proof fn lemma_token_fetch_bounded(token: Option<String>, events: Seq<ProbeEvent>)
    ensures
        probe_run(0, token, events).0 <= MAX_TOKEN_PROBES,
        events.len() >= MAX_TOKEN_PROBES ==> probe_run(0, token, events).1 is Done,
{
    lemma_run_bounded(0, token, events);
}

proof fn lemma_run_bounded(answered: u8, token: Option<String>, events: Seq<ProbeEvent>)
    requires
        answered < MAX_TOKEN_PROBES,
    ensures
        probe_run(answered, token, events).0 <= MAX_TOKEN_PROBES - answered,
        events.len() >= MAX_TOKEN_PROBES - answered ==> probe_run(answered, token, events).1 is Done,
    decreases events.len(),
{
    if events.len() > 0 {
        let (n, step) = probe_next(answered, events[0]);
        let t = probe_token(token, events[0]);
        if step is Probe {
            lemma_run_bounded(n, t, events.drop_first());
        }
    }
}

} // verus!
