//! Tests for bus stop identifiers: the empty-identifier decode rejection and
//! the stop operations.
use wmata::json::Json;
use wmata::{Date, FixedResponder, FromJson, Stop};

const KEY: &str = "9e38c3eab34c4e6c990828002828f5ed";

#[test]
fn empty_stop_identifier_fails_decode() {
    let r = Stop::from_json(&Json::Str(String::new()));
    assert!(r.is_err());
}

#[test]
fn stop_identifier_decodes_and_formats_exactly() {
    let stop = Stop::from_json(&Json::Str("1001195".to_string())).unwrap();
    assert_eq!(stop.to_string(), "1001195");
}

#[test]
fn non_string_stop_identifier_fails_decode() {
    assert!(Stop::from_json(&Json::Number("1001195".to_string())).is_err());
    assert!(Stop::from_json(&Json::Null).is_err());
}

#[test]
fn stop_equality_is_by_identifier() {
    assert_eq!(Stop::new("1001195"), Stop::new("1001195"));
    assert!(Stop::new("1001195") != Stop::new("1001196"));
}

#[test]
fn next_buses_at_stop() {
    let body = "{\"Predictions\":[{\"DirectionNum\":\"0\",\
                 \"DirectionText\":\"North to Silver Spring\",\"Minutes\":4,\
                 \"RouteID\":\"70\",\"TripID\":\"t1\",\"VehicleID\":\"7201\"}]}";
    let transport = FixedResponder::new(200, body);
    let stop = Stop::new("1001195");
    let predictions = stop.next_buses(KEY, &transport).unwrap();
    assert_eq!(predictions.predictions.len(), 1);
    assert_eq!(predictions.predictions[0].minutes, 4);
    assert_eq!(predictions.predictions[0].route_id, "70");
}

#[test]
fn schedule_at_stop_with_and_without_date() {
    let body = "{\"ScheduleArrivals\":[],\"Stop\":{\"StopID\":\"1001195\",\
                 \"Name\":\"GEORGIA AVE + PINEY BRANCH RD\",\"Lat\":38.9543,\
                 \"Lon\":-77.0271,\"Routes\":[\"70\",\"79\"]}}";
    let transport = FixedResponder::new(200, body);
    let stop = Stop::new("1001195");

    assert!(stop.schedule(None, KEY, &transport).is_ok());

    let with_date = stop
        .schedule(Some(Date::new(2019, 10, 2)), KEY, &transport)
        .unwrap();
    assert_eq!(with_date.stop.stop.to_string(), "1001195");
    assert_eq!(with_date.stop.routes, vec!["70", "79"]);
}

#[test]
fn schedule_with_empty_stop_identifier_in_body_fails() {
    let body = "{\"ScheduleArrivals\":[],\"Stop\":{\"StopID\":\"\",\
                 \"Name\":\"nowhere\",\"Lat\":0,\"Lon\":0,\"Routes\":[]}}";
    let transport = FixedResponder::new(200, body);
    let stop = Stop::new("1001195");
    assert!(stop.schedule(None, KEY, &transport).is_err());
}

#[test]
fn date_renders_zero_padded() {
    assert_eq!(Date::new(2019, 10, 2).to_string(), "2019-10-02");
    assert_eq!(Date::new(987, 1, 31).to_string(), "0987-01-31");
}
