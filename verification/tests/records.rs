//! Tests for record decoding details: optional fields, integer fields, and
//! the verified decimal integer parser.
use wmata::dispatch::interpret_outcome;
use wmata::numbers::parse_i32;
use wmata::rail::responses::{TrackCircuits, TrainPositions};
use wmata::{Error, Outcome};

#[test]
fn optional_fields_read_null_and_absent_as_none() {
    // DestinationStationCode is null, LineCode is absent: both decode to None
    let body = "{\"TrainPositions\":[{\"TrainId\":\"100\",\"TrainNumber\":\"301\",\
                 \"CarCount\":6,\"DirectionNum\":1,\"CircuitId\":1234,\
                 \"DestinationStationCode\":null,\"SecondsAtLocation\":0,\
                 \"ServiceType\":\"Normal\"}]}";
    let outcome = Outcome::Reply(200, body.to_string());
    let decoded: TrainPositions = interpret_outcome(outcome).unwrap();
    let position = &decoded.train_positions[0];
    assert_eq!(position.destination_station_code, None);
    assert_eq!(position.line_code, None);
    assert_eq!(position.car_count, 6);
}

#[test]
fn integer_fields_decode_exactly() {
    let body = "{\"TrackCircuits\":[{\"Track\":-3,\"CircuitId\":2145,\
                 \"Neighbors\":[{\"NeighborType\":\"Left\",\"CircuitIds\":[2144,0,-7]}]}]}";
    let outcome = Outcome::Reply(200, body.to_string());
    let decoded: TrackCircuits = interpret_outcome(outcome).unwrap();
    let circuit = &decoded.track_circuits[0];
    assert_eq!(circuit.track, -3);
    assert_eq!(circuit.circuit_id, 2145);
    assert_eq!(circuit.neighbors[0].circuit_ids, vec![2144, 0, -7]);
}

#[test]
fn fractional_number_in_integer_field_fails_decode() {
    let body = "{\"TrackCircuits\":[{\"Track\":1.5,\"CircuitId\":1,\"Neighbors\":[]}]}";
    let outcome = Outcome::Reply(200, body.to_string());
    let r: Result<TrackCircuits, Error> = interpret_outcome(outcome);
    assert!(matches!(r, Err(Error::Decode(_))));
}

#[test]
fn parse_i32_accepts_the_full_range() {
    assert_eq!(parse_i32("0"), Some(0));
    assert_eq!(parse_i32("4178"), Some(4178));
    assert_eq!(parse_i32("-0"), Some(0));
    assert_eq!(parse_i32("2147483647"), Some(i32::MAX));
    assert_eq!(parse_i32("-2147483648"), Some(i32::MIN));
}

#[test]
fn parse_i32_rejects_overflow_and_malformed_text() {
    assert_eq!(parse_i32("2147483648"), None);
    assert_eq!(parse_i32("-2147483649"), None);
    assert_eq!(parse_i32("99999999999999999999"), None);
    assert_eq!(parse_i32(""), None);
    assert_eq!(parse_i32("-"), None);
    assert_eq!(parse_i32("1.5"), None);
    assert_eq!(parse_i32("12a"), None);
    assert_eq!(parse_i32(" 1"), None);
}

#[test]
fn radius_query_renders_decimal_text() {
    let point = wmata::RadiusAtLatLong::new(1000, "38.8817596".to_string(), "-77.0166426".to_string());
    let query = point.to_query();
    assert_eq!(query[0], ("Radius".to_string(), "1000".to_string()));
    assert_eq!(query[1], ("Lat".to_string(), "38.8817596".to_string()));
    assert_eq!(query[2], ("Lon".to_string(), "-77.0166426".to_string()));
    assert_eq!(point.radius, 1000);
}
