use roblox_groups::classify::{classify, classify_outcome, classify_status, envelope_to_error, Outcome, ResponseBody, ResponseClass};
use roblox_groups::error::{Error, FailedRobloxResponse, RobloxError};

fn entry(code: i64, message: &str) -> RobloxError {
    RobloxError { code, message: message.to_string(), user_facing_message: None }
}

#[test]
fn status_200_yields_decoded_value() {
    assert_eq!(classify_status(200), ResponseClass::Success);
    let r: Result<u32, Error> = classify(200, ResponseBody::Json(Some(7)));
    assert!(matches!(r, Ok(7)));
}

#[test]
fn status_200_with_nonconforming_body_is_json_error() {
    let r: Result<u32, Error> = classify(200, ResponseBody::Json(None));
    assert!(matches!(r, Err(Error::JSON)));
    let r: Result<u32, Error> = classify(200, ResponseBody::Unread);
    assert!(matches!(r, Err(Error::JSON)));
}

#[test]
fn status_429_is_rate_limited_whatever_the_body() {
    assert_eq!(classify_status(429), ResponseClass::RateLimited);
    let env = FailedRobloxResponse { errors: vec![entry(3, "nope")] };
    let r: Result<u32, Error> = classify(429, ResponseBody::Envelope(Some(env)));
    assert!(matches!(r, Err(Error::RateLimited)));
    let r: Result<u32, Error> = classify(429, ResponseBody::Unread);
    assert!(matches!(r, Err(Error::RateLimited)));
}

#[test]
fn failing_status_surfaces_first_envelope_entry() {
    assert_eq!(classify_status(403), ResponseClass::Failure);
    assert_eq!(classify_status(500), ResponseClass::Failure);
    let env = FailedRobloxResponse { errors: vec![entry(1, "first"), entry(2, "second")] };
    let r: Result<u32, Error> = classify(400, ResponseBody::Envelope(Some(env)));
    match r {
        Err(Error::RobloxError(e)) => {
            assert_eq!(e.code, 1);
            assert_eq!(e.message, "first");
        }
        _ => panic!("expected a domain error"),
    }
}

#[test]
fn failing_status_without_envelope_is_an_error_not_a_panic() {
    let r: Result<u32, Error> = classify(500, ResponseBody::Envelope(None));
    assert!(matches!(r, Err(Error::JSON)));
    let empty = FailedRobloxResponse { errors: vec![] };
    let r: Result<u32, Error> = classify(500, ResponseBody::Envelope(Some(empty)));
    assert!(matches!(r, Err(Error::JSON)));
    assert!(matches!(envelope_to_error(None), Error::JSON));
}

#[test]
fn transport_failure_is_network_error() {
    let r: Result<u32, Error> = classify_outcome(Outcome::TransportFailure);
    assert!(matches!(r, Err(Error::Network)));
    let r: Result<u32, Error> = classify_outcome(Outcome::Received {
        status: 200,
        token_header: None,
        body: ResponseBody::Json(Some(5)),
    });
    assert!(matches!(r, Ok(5)));
}
