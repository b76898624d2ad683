//! Classification of provider response bodies.

use mailgun_sdk::classify_response;
use mailgun_sdk::Error;
use mailgun_sdk::SendMessageResponse;

#[test]
fn success_envelope_round_trips() {
    let body = "{\"message\":\"Queued. Thank you.\",\"id\":\"<20111114174239.25659.5817@samples.test>\"}";
    match classify_response(body) {
        Ok(SendMessageResponse::Success { message, id }) => {
            assert_eq!("Queued. Thank you.", message);
            assert_eq!("<20111114174239.25659.5817@samples.test>", id);
        },
        other => panic!("expected a success, got {:?}", other),
    }
}

#[test]
fn failure_envelope_is_rejected() {
    match classify_response("{\"message\":\"bad\"}") {
        Err(Error::SendRejected(message)) => assert_eq!("bad", message),
        other => panic!("expected a rejection, got {:?}", other),
    }
}

#[test]
fn forbidden_sentinel_wins() {
    assert!(matches!(classify_response("Forbidden"), Err(Error::ApiForbiddenError)));
}

#[test]
fn near_forbidden_bodies_are_not_the_sentinel() {
    assert!(matches!(classify_response("forbidden"), Err(Error::DecodeError(_))));
    assert!(matches!(classify_response("\"Forbidden\""), Err(Error::DecodeError(_))));
}

#[test]
fn unparsable_body_is_a_decode_error() {
    assert!(matches!(classify_response("not json at all"), Err(Error::DecodeError(_))));
    assert!(matches!(classify_response(""), Err(Error::DecodeError(_))));
    assert!(matches!(classify_response("{\"message\":5}"), Err(Error::DecodeError(_))));
}

#[test]
fn envelope_without_message_is_a_decode_error() {
    assert!(matches!(classify_response("{\"id\":\"x\"}"), Err(Error::DecodeError(_))));
    assert!(matches!(classify_response("{}"), Err(Error::DecodeError(_))));
}
