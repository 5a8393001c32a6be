//! Tests for the rail client, run against canned responders.
use wmata::{Client, FixedResponder, Line, RadiusAtLatLong, Station};

const KEY: &str = "9e38c3eab34c4e6c990828002828f5ed";

fn line_json(code: &str, name: &str) -> String {
    format!(
        "{{\"LineCode\":\"{}\",\"DisplayName\":\"{}\",\"StartStationCode\":\"A01\",\
         \"EndStationCode\":\"A15\",\"InternalDestination1\":\"\",\"InternalDestination2\":\"\"}}",
        code, name
    )
}

fn station_json(code: &str) -> String {
    format!(
        "{{\"Address\":{{\"City\":\"Washington\",\"State\":\"DC\",\"Street\":\"607 13th St. NW\",\
         \"Zip\":\"20005\"}},\"Code\":\"{}\",\"Lat\":38.8983,\"Lon\":-77.0281,\
         \"LineCode1\":\"RD\",\"Name\":\"Metro Center\",\"StationTogether1\":\"\",\
         \"StationTogether2\":\"\"}}",
        code
    )
}

fn station_to_station_json(from: &str, to: &str) -> String {
    format!(
        "{{\"CompositeMiles\":0.76,\"DestinationStation\":\"{}\",\
         \"RailFare\":{{\"OffPeakTime\":2.0,\"PeakTime\":2.25,\"SeniorDisabled\":1.0}},\
         \"RailTime\":2,\"SourceStation\":\"{}\"}}",
        to, from
    )
}

#[test]
fn test_constructor() {
    let client = Client::new("9e38c3eab34c4e6c990828002828f5ed");

    assert_eq!(client.key, "9e38c3eab34c4e6c990828002828f5ed");
}

#[test]
fn test_lines() {
    let client: Client = "9e38c3eab34c4e6c990828002828f5ed".parse().unwrap();
    let lines = [
        ("RD", "Red"),
        ("BL", "Blue"),
        ("YL", "Yellow"),
        ("OR", "Orange"),
        ("GR", "Green"),
        ("SV", "Silver"),
    ];
    let entries: Vec<String> = lines.iter().map(|(c, n)| line_json(c, n)).collect();
    let body = format!("{{\"Lines\":[{}]}}", entries.join(","));
    let transport = FixedResponder::new(200, &body);

    assert_eq!(client.lines(&transport).unwrap().lines.len(), 6);
}

#[test]
fn test_entrances() {
    let client: Client = "9e38c3eab34c4e6c990828002828f5ed".parse().unwrap();
    let transport = FixedResponder::new(200, "{\"Entrances\":[]}");

    assert_eq!(
        client
            .entrances(
                RadiusAtLatLong::new(1, "1".to_string(), "1".to_string()),
                &transport
            )
            .unwrap()
            .entrances
            .len(),
        0
    );
}

#[test]
fn test_stations() {
    let client: Client = "9e38c3eab34c4e6c990828002828f5ed".parse().unwrap();
    let entries: Vec<String> = (0..27).map(|i| station_json(&format!("A{:02}", i))).collect();
    let body = format!("{{\"Stations\":[{}]}}", entries.join(","));
    let transport = FixedResponder::new(200, &body);

    assert_eq!(
        client
            .stations_on(Some(Line::Red), &transport)
            .unwrap()
            .stations
            .len(),
        27
    );
}

#[test]
fn test_all_stations() {
    let client: Client = "9e38c3eab34c4e6c990828002828f5ed".parse().unwrap();
    let entries: Vec<String> = (0..95).map(|i| station_json(&format!("S{:03}", i))).collect();
    let body = format!("{{\"Stations\":[{}]}}", entries.join(","));
    let transport = FixedResponder::new(200, &body);

    assert_eq!(
        client.stations_on(None, &transport).unwrap().stations.len(),
        95
    );
}

#[test]
fn test_station() {
    let client: Client = "9e38c3eab34c4e6c990828002828f5ed".parse().unwrap();
    let body = format!(
        "{{\"StationToStationInfos\":[{}]}}",
        station_to_station_json("A01", "A02")
    );
    let transport = FixedResponder::new(200, &body);

    assert_eq!(
        client
            .station_to_station(Some(Station::A01), Some(Station::A02), &transport)
            .unwrap()
            .station_to_station_infos
            .len(),
        1
    );
}

#[test]
fn test_station_one_station() {
    let client: Client = "9e38c3eab34c4e6c990828002828f5ed".parse().unwrap();
    let entries: Vec<String> = (0..93)
        .map(|i| station_to_station_json("A01", &format!("S{:03}", i)))
        .collect();
    let body = format!("{{\"StationToStationInfos\":[{}]}}", entries.join(","));
    let transport = FixedResponder::new(200, &body);

    assert_eq!(
        client
            .station_to_station(Some(Station::A01), None, &transport)
            .unwrap()
            .station_to_station_infos
            .len(),
        93
    );
}

#[test]
fn test_station_no_stations() {
    let client: Client = "9e38c3eab34c4e6c990828002828f5ed".parse().unwrap();
    let entries: Vec<String> = (0..8922)
        .map(|i| station_to_station_json(&format!("F{:04}", i), &format!("T{:04}", i)))
        .collect();
    let body = format!("{{\"StationToStationInfos\":[{}]}}", entries.join(","));
    let transport = FixedResponder::new(200, &body);

    assert_eq!(
        client
            .station_to_station(None, None, &transport)
            .unwrap()
            .station_to_station_infos
            .len(),
        8922
    );
}

#[test]
fn test_positions() {
    let client: Client = "9e38c3eab34c4e6c990828002828f5ed".parse().unwrap();
    let transport = FixedResponder::new(200, "{\"TrainPositions\":[]}");

    assert!(client.positions(&transport).is_ok());
}

#[test]
fn test_routes() {
    let client: Client = "9e38c3eab34c4e6c990828002828f5ed".parse().unwrap();
    let entries: Vec<String> = (0..14)
        .map(|i| {
            format!(
                "{{\"LineCode\":\"RD\",\"TrackNum\":{},\"TrackCircuits\":[]}}",
                1 + i % 2
            )
        })
        .collect();
    let body = format!("{{\"StandardRoutes\":[{}]}}", entries.join(","));
    let transport = FixedResponder::new(200, &body);

    assert_eq!(
        client.routes(&transport).unwrap().standard_routes.len(),
        14
    );
}

#[test]
fn test_circuits() {
    let client: Client = "9e38c3eab34c4e6c990828002828f5ed".parse().unwrap();
    let entries: Vec<String> = (0..3486)
        .map(|i| format!("{{\"Track\":1,\"CircuitId\":{},\"Neighbors\":[]}}", i))
        .collect();
    let body = format!("{{\"TrackCircuits\":[{}]}}", entries.join(","));
    let transport = FixedResponder::new(200, &body);

    assert_eq!(
        client.circuits(&transport).unwrap().track_circuits.len(),
        3486
    );
}

#[test]
fn test_elevator_and_escalator_incidents() {
    let client: Client = "9e38c3eab34c4e6c990828002828f5ed".parse().unwrap();
    let transport = FixedResponder::new(200, "{\"ElevatorIncidents\":[]}");

    assert!(client
        .elevator_and_escalator_incidents_at(Some(Station::A01), &transport)
        .is_ok());
}

#[test]
fn test_all_elevator_and_escalator_incidents() {
    let client: Client = "9e38c3eab34c4e6c990828002828f5ed".parse().unwrap();
    let transport = FixedResponder::new(200, "{\"ElevatorIncidents\":[]}");

    assert!(client
        .elevator_and_escalator_incidents_at(None, &transport)
        .is_ok());
}

#[test]
fn test_incident() {
    let client: Client = "9e38c3eab34c4e6c990828002828f5ed".parse().unwrap();
    let transport = FixedResponder::new(200, "{\"Incidents\":[]}");

    assert!(client.incidents_at(Some(Station::A01), &transport).is_ok());
}

#[test]
fn test_all_incidents() {
    let client: Client = "9e38c3eab34c4e6c990828002828f5ed".parse().unwrap();
    let transport = FixedResponder::new(200, "{\"Incidents\":[]}");

    assert!(client.incidents_at(None, &transport).is_ok());
}

#[test]
fn test_next_trains() {
    let client: Client = "9e38c3eab34c4e6c990828002828f5ed".parse().unwrap();
    let transport = FixedResponder::new(200, "{\"Trains\":[]}");

    assert!(client.next_trains(Station::A01, &transport).is_ok());
}

#[test]
fn test_information() {
    let client: Client = "9e38c3eab34c4e6c990828002828f5ed".parse().unwrap();
    let transport = FixedResponder::new(200, &station_json("A01"));

    assert_eq!(
        client
            .station_information(Station::A01, &transport)
            .unwrap()
            .code,
        "A01"
    );
}

#[test]
fn test_parking_information() {
    let client: Client = "9e38c3eab34c4e6c990828002828f5ed".parse().unwrap();
    let transport = FixedResponder::new(200, "{\"StationsParking\":[]}");

    assert_eq!(
        client
            .parking_information(Station::A01, &transport)
            .unwrap()
            .stations_parking
            .len(),
        0
    );
}

#[test]
fn test_path_to_station() {
    let client: Client = "9e38c3eab34c4e6c990828002828f5ed".parse().unwrap();
    let body = "{\"Path\":[\
        {\"DistanceToPrev\":0,\"LineCode\":\"RD\",\"SeqNum\":1,\
         \"StationCode\":\"A01\",\"StationName\":\"Metro Center\"},\
        {\"DistanceToPrev\":4178,\"LineCode\":\"RD\",\"SeqNum\":2,\
         \"StationCode\":\"A02\",\"StationName\":\"Farragut North\"}]}";
    let transport = FixedResponder::new(200, body);

    assert_eq!(
        client
            .path_from(Station::A01, Station::A02, &transport)
            .unwrap()
            .path[1]
            .distance_to_previous_station,
        4178
    );
}

#[test]
fn test_timings() {
    let client: Client = "9e38c3eab34c4e6c990828002828f5ed".parse().unwrap();
    let day = "{\"OpeningTime\":\"05:14\",\"FirstTrains\":[],\"LastTrains\":[]}";
    let body = format!(
        "{{\"StationTimes\":[{{\"Code\":\"A01\",\"StationName\":\"Metro Center\",\
         \"Monday\":{d},\"Tuesday\":{d},\"Wednesday\":{d},\"Thursday\":{d},\
         \"Friday\":{d},\"Saturday\":{d},\"Sunday\":{d}}}]}}",
        d = day
    );
    let transport = FixedResponder::new(200, &body);

    assert_eq!(
        client.timings(Station::A01, &transport).unwrap().station_times[0].code,
        "A01"
    );
}

#[test]
fn key_is_shared_read_only() {
    let client = Client::new(KEY);
    let transport = FixedResponder::new(200, "{\"Trains\":[]}");
    assert!(client.next_trains(Station::A01, &transport).is_ok());
    assert!(client.next_trains(Station::B35, &transport).is_ok());
    assert_eq!(client.key, KEY);
}
