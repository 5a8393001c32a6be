//! Tests for the query builder and the capability-reuse law: absent filters
//! contribute nothing, and every invocation path builds the identical
//! request.
use wmata::requests::{
    next_trains_request, station_to_station_request, stations_on_request,
};
use wmata::station::Station as StationEntity;
use wmata::{Client, Line, MatchingResponder, NeedsStation, Station};

const KEY: &str = "9e38c3eab34c4e6c990828002828f5ed";

#[test]
fn all_filters_absent_yields_no_query() {
    let request = station_to_station_request(KEY, None, None);
    assert!(request.query.is_none());
    let request = stations_on_request(KEY, None);
    assert!(request.query.is_none());
}

#[test]
fn second_filter_alone_yields_single_parameter() {
    let request = station_to_station_request(KEY, None, Some(Station::B02));
    let query = request.query.unwrap();
    assert_eq!(query.len(), 1);
    assert_eq!(query[0].0, "ToStation");
    assert_eq!(query[0].1, "B02");
}

#[test]
fn both_filters_yield_two_parameters_in_declared_order() {
    let request = station_to_station_request(KEY, Some(Station::A01), Some(Station::A02));
    let query = request.query.unwrap();
    assert_eq!(query.len(), 2);
    assert_eq!(query[0].0, "FromStation");
    assert_eq!(query[0].1, "A01");
    assert_eq!(query[1].0, "ToStation");
    assert_eq!(query[1].1, "A02");
}

#[test]
fn line_filter_carries_declared_name() {
    let request = stations_on_request(KEY, Some(Line::Red));
    let query = request.query.unwrap();
    assert_eq!(query.len(), 1);
    assert_eq!(query[0].0, "Line");
    assert_eq!(query[0].1, "RD");
}

#[test]
fn next_trains_appends_code_to_path() {
    let request = next_trains_request(KEY, Station::A01);
    assert!(request.path.ends_with("/A01"));
    assert!(request.query.is_none());
    assert_eq!(request.api_key, KEY);
}

#[test]
fn capability_reuse_builds_identical_requests() {
    // a responder that answers only the exact request the shared builder
    // produces; every invocation path must therefore build that request
    let expected = next_trains_request(KEY, Station::A01);
    let transport = MatchingResponder::new(expected, 200, "{\"Trains\":[]}");

    // the capability default on a bare code value
    assert!(transport.next_trains(Station::A01, KEY).is_ok());

    // the standalone entity wrapper
    let entity = StationEntity::new(KEY, Station::A01);
    assert!(entity.next_trains(&transport).is_ok());

    // the enum's own wrapper method
    assert!(Station::A01.next_trains(KEY.to_string(), &transport).is_ok());

    // the top-level client
    let client = Client::new(KEY);
    assert!(client.next_trains(Station::A01, &transport).is_ok());

    // a different station is a different request, and is refused
    assert!(transport.next_trains(Station::A02, KEY).is_err());
}

#[test]
fn matching_responder_checks_query_parameters() {
    let expected = station_to_station_request(KEY, Some(Station::A01), None);
    let transport = MatchingResponder::new(expected, 200, "{\"StationToStationInfos\":[]}");

    assert!(transport
        .station_to_station(Some(Station::A01), None, KEY)
        .is_ok());
    assert!(transport
        .station_to_station(Some(Station::A02), None, KEY)
        .is_err());
    assert!(transport.station_to_station(None, None, KEY).is_err());
}
