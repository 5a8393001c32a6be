//! Tests for the fetch dispatcher: status mapping, decode failures, and the
//! error taxonomy.
use wmata::dispatch::interpret_outcome;
use wmata::rail::responses::RailPredictions;
use wmata::{Client, Error, FailingResponder, FixedResponder, Outcome, Station};

const KEY: &str = "9e38c3eab34c4e6c990828002828f5ed";

#[test]
fn success_status_with_well_formed_body_yields_ok() {
    let body = "{\"Trains\":[{\"Car\":\"8\",\"Destination\":\"Shady Gr\",\
                 \"DestinationCode\":\"A15\",\"DestinationName\":\"Shady Grove\",\
                 \"Group\":\"2\",\"Line\":\"RD\",\"LocationCode\":\"A01\",\
                 \"LocationName\":\"Metro Center\",\"Min\":\"3\"}]}";
    let outcome = Outcome::Reply(200, body.to_string());
    let decoded: RailPredictions = interpret_outcome(outcome).unwrap();
    assert_eq!(decoded.trains.len(), 1);
    assert_eq!(decoded.trains[0].minutes, "3");
    assert_eq!(decoded.trains[0].car.as_deref(), Some("8"));
}

#[test]
fn not_found_status_yields_http_status_error() {
    let outcome = Outcome::Reply(404, "not here".to_string());
    let r: Result<RailPredictions, Error> = interpret_outcome(outcome);
    match r {
        Err(Error::HttpStatus(status, body)) => {
            assert_eq!(status, 404);
            assert_eq!(body, "not here");
        }
        _ => panic!("expected an http status error"),
    }
}

#[test]
fn malformed_body_on_success_status_yields_decode_error() {
    let outcome = Outcome::Reply(200, "{\"Trains\":".to_string());
    let r: Result<RailPredictions, Error> = interpret_outcome(outcome);
    assert!(matches!(r, Err(Error::Decode(_))));
}

#[test]
fn wrong_shape_on_success_status_yields_decode_error() {
    let outcome = Outcome::Reply(200, "{\"Lines\":[]}".to_string());
    let r: Result<RailPredictions, Error> = interpret_outcome(outcome);
    assert!(matches!(r, Err(Error::Decode(_))));
}

#[test]
fn transport_failure_yields_network_error() {
    let outcome = Outcome::Failure("connection refused".to_string());
    let r: Result<RailPredictions, Error> = interpret_outcome(outcome);
    match r {
        Err(Error::Network(message)) => assert_eq!(message, "connection refused"),
        _ => panic!("expected a network error"),
    }
}

#[test]
fn failing_responder_surfaces_network_error() {
    let client = Client::new(KEY);
    let transport = FailingResponder::new("timed out");
    let r = client.next_trains(Station::A01, &transport);
    match r {
        Err(Error::Network(message)) => assert_eq!(message, "timed out"),
        _ => panic!("expected a network error"),
    }
}

#[test]
fn error_status_carries_body_verbatim() {
    let client = Client::new(KEY);
    let transport = FixedResponder::new(500, "server fell over");
    let r = client.next_trains(Station::A01, &transport);
    match r {
        Err(Error::HttpStatus(status, body)) => {
            assert_eq!(status, 500);
            assert_eq!(body, "server fell over");
        }
        _ => panic!("expected an http status error"),
    }
}

#[test]
fn required_field_missing_yields_decode_error() {
    let client = Client::new(KEY);
    // the record requires "Min"; leave it out
    let body = "{\"Trains\":[{\"Car\":null,\"Destination\":\"Shady Gr\",\
                 \"DestinationCode\":null,\"DestinationName\":\"Shady Grove\",\
                 \"Group\":\"2\",\"Line\":\"RD\",\"LocationCode\":\"A01\",\
                 \"LocationName\":\"Metro Center\"}]}";
    let transport = FixedResponder::new(200, body);
    let r = client.next_trains(Station::A01, &transport);
    assert!(matches!(r, Err(Error::Decode(_))));
}

#[test]
fn unknown_fields_are_ignored() {
    let client = Client::new(KEY);
    let body = "{\"Trains\":[],\"SomethingNew\":123}";
    let transport = FixedResponder::new(200, body);
    assert!(client.next_trains(Station::A01, &transport).is_ok());
}

#[test]
fn error_kinds_name_their_variant() {
    assert_eq!(Error::Network("x".to_string()).kind(), "network");
    assert_eq!(Error::HttpStatus(404, "x".to_string()).kind(), "http status");
    assert_eq!(Error::Decode("x".to_string()).kind(), "decode");
    assert_eq!(Error::InvalidCode("ZZZ".to_string()).kind(), "invalid code");
}
