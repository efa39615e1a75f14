use roblox_groups::error::Error;
use roblox_groups::jar::RequestJar;
use roblox_groups::token::{ProbeEvent, ProbeStep, MAX_TOKEN_PROBES};

fn absent() -> ProbeEvent {
    ProbeEvent::Response { token_header: None }
}

#[test]
fn token_fetch_without_credential_fails_with_authentication() {
    let jar = RequestJar::new();
    assert!(matches!(jar.get_xcsrf_token(), Err(Error::Authentication)));
}

#[test]
fn token_is_empty_before_any_fetch() {
    let jar = RequestJar::new();
    assert_eq!(jar.get_xcsrf(), "");
}

#[test]
fn second_probe_with_header_stores_token() {
    let mut jar = RequestJar::new();
    let mut fetch = jar.set_roblosecurity("secret".to_string());
    assert_eq!(jar.roblosecurity.as_deref(), Some("secret"));
    assert!(matches!(jar.on_token_probe(&mut fetch, absent()), ProbeStep::Probe));
    let step = jar.on_token_probe(
        &mut fetch,
        ProbeEvent::Response { token_header: Some("abc123".to_string()) },
    );
    assert!(matches!(step, ProbeStep::Done(Ok(()))));
    assert_eq!(jar.get_xcsrf(), "abc123");
    assert_eq!(fetch.answered, 2);
}

#[test]
fn four_probes_without_header_give_up() {
    let mut jar = RequestJar::new();
    let mut fetch = jar.set_roblosecurity("secret".to_string());
    let mut probes: u8 = 1;
    loop {
        match jar.on_token_probe(&mut fetch, absent()) {
            ProbeStep::Probe => probes += 1,
            ProbeStep::Done(r) => {
                assert!(matches!(r, Err(Error::XcsrfToken)));
                break;
            }
        }
    }
    assert_eq!(probes, MAX_TOKEN_PROBES);
    assert_eq!(probes, 4);
    assert_eq!(jar.get_xcsrf(), "");
}

#[test]
fn first_probe_with_header_succeeds_at_once() {
    let mut jar = RequestJar::new();
    jar.xcsrf_token = Some("old".to_string());
    jar.roblosecurity = Some("secret".to_string());
    let mut fetch = match jar.get_xcsrf_token() {
        Ok(f) => f,
        Err(_) => panic!("a credential is set"),
    };
    assert_eq!(fetch.answered, 0);
    let step = jar.on_token_probe(
        &mut fetch,
        ProbeEvent::Response { token_header: Some("fresh".to_string()) },
    );
    assert!(matches!(step, ProbeStep::Done(Ok(()))));
    assert_eq!(jar.get_xcsrf(), "fresh");
    assert_eq!(fetch.answered, 1);
}

#[test]
fn probe_transport_failure_is_network_error() {
    let mut jar = RequestJar::new();
    let mut fetch = jar.set_roblosecurity("secret".to_string());
    let step = jar.on_token_probe(&mut fetch, ProbeEvent::TransportFailure);
    assert!(matches!(step, ProbeStep::Done(Err(Error::Network))));
}
