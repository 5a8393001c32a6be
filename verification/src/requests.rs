//! Request builders: one per operation, shared by every path that can invoke
//! the operation, so that a standalone entity wrapper and a capability-trait
//! default build identical requests. Each builder's contract pins the key,
//! the endpoint path and the ordered query parameters exactly.
use vstd::prelude::*;

use vstd::string::StringExecFns;
use crate::bus::stop::Stop;
use crate::date::spec_date_text;
use crate::date::Date;
use crate::line::spec_line_code;
use crate::line::Line;
use crate::rail::station::spec_station_code;
use crate::rail::station::Station;
use crate::types::RadiusAtLatLong;
use crate::types::ReqModel;
use crate::types::Request;
use crate::urls::spec_url;
use crate::urls::URLs;

verus! {

/// The request for the rail line list: no query parameters.
pub open spec fn spec_lines_request(key: Seq<char>) -> ReqModel {
    ReqModel { api_key: key, path: spec_url(URLs::Lines), query: None }
}

/// Builds the rail line list request.
pub fn lines_request(api_key: &str) -> (r: Request)
    ensures
        r.model() == spec_lines_request(api_key@),
{
    Request::new(api_key.to_owned(), URLs::Lines.to_string(), None)
}

/// The request for entrances near a point: `Radius`, `Lat`, `Lon`.
pub open spec fn spec_entrances_request(key: Seq<char>, radius: RadiusAtLatLong) -> ReqModel {
    ReqModel { api_key: key, path: spec_url(URLs::Entrances), query: Some(radius.spec_query()) }
}

/// Builds the entrance search request.
pub fn entrances_request(api_key: &str, radius: &RadiusAtLatLong) -> (r: Request)
    ensures
        r.model() == spec_entrances_request(api_key@, *radius),
{
    Request::new(api_key.to_owned(), URLs::Entrances.to_string(), Some(radius.to_query()))
}

/// The request for live train positions: no query parameters.
pub open spec fn spec_positions_request(key: Seq<char>) -> ReqModel {
    ReqModel { api_key: key, path: spec_url(URLs::Positions), query: None }
}

/// Builds the train position request.
pub fn positions_request(api_key: &str) -> (r: Request)
    ensures
        r.model() == spec_positions_request(api_key@),
{
    Request::new(api_key.to_owned(), URLs::Positions.to_string(), None)
}

/// The request for standard routes: no query parameters.
pub open spec fn spec_routes_request(key: Seq<char>) -> ReqModel {
    ReqModel { api_key: key, path: spec_url(URLs::Routes), query: None }
}

/// Builds the standard route request.
pub fn routes_request(api_key: &str) -> (r: Request)
    ensures
        r.model() == spec_routes_request(api_key@),
{
    Request::new(api_key.to_owned(), URLs::Routes.to_string(), None)
}

/// The request for track circuits: no query parameters.
pub open spec fn spec_circuits_request(key: Seq<char>) -> ReqModel {
    ReqModel { api_key: key, path: spec_url(URLs::Circuits), query: None }
}

/// Builds the track circuit request.
pub fn circuits_request(api_key: &str) -> (r: Request)
    ensures
        r.model() == spec_circuits_request(api_key@),
{
    Request::new(api_key.to_owned(), URLs::Circuits.to_string(), None)
}

/// The query for the station list: `Line` when a filter is supplied; with no
/// filter the request carries no query at all and every station is listed.
pub open spec fn spec_stations_on_query(line: Option<Line>) -> Option<
    Seq<(Seq<char>, Seq<char>)>,
> {
    match line {
        Some(l) => Some(seq![("Line"@, spec_line_code(l))]),
        None => None,
    }
}

/// The request for the station list, optionally filtered to one line.
pub open spec fn spec_stations_on_request(key: Seq<char>, line: Option<Line>) -> ReqModel {
    ReqModel { api_key: key, path: spec_url(URLs::Stations), query: spec_stations_on_query(line) }
}

/// Builds the station list request.
pub fn stations_on_request(api_key: &str, line: Option<Line>) -> (r: Request)
    ensures
        r.model() == spec_stations_on_request(api_key@, line),
{
    match line {
        Some(l) => {
            let mut query: Vec<(String, String)> = Vec::new();
            query.push(("Line".to_owned(), l.to_string()));
            let r = Request::new(api_key.to_owned(), URLs::Stations.to_string(), Some(query));
            proof {
                assert(r.model().query->Some_0 =~= spec_stations_on_query(line)->Some_0);
            }
            r
        },
        None => Request::new(api_key.to_owned(), URLs::Stations.to_string(), None),
    }
}

/// The query for station-to-station information: `FromStation` and
/// `ToStation`, each only when supplied; with neither the request carries no
/// query at all and every pair is listed.
pub open spec fn spec_station_to_station_query(from: Option<Station>, to: Option<Station>) -> Seq<
    (Seq<char>, Seq<char>),
> {
    let q = Seq::<(Seq<char>, Seq<char>)>::empty();
    let q = if from is Some {
        q.push(("FromStation"@, spec_station_code(from->0)))
    } else {
        q
    };
    if to is Some {
        q.push(("ToStation"@, spec_station_code(to->0)))
    } else {
        q
    }
}

/// The request for station-to-station information.
pub open spec fn spec_station_to_station_request(
    key: Seq<char>,
    from: Option<Station>,
    to: Option<Station>,
) -> ReqModel {
    ReqModel {
        api_key: key,
        path: spec_url(URLs::StationToStation),
        query: if from is None && to is None {
            None
        } else {
            Some(spec_station_to_station_query(from, to))
        },
    }
}

/// Builds the station-to-station request.
pub fn station_to_station_request(
    api_key: &str,
    from_station: Option<Station>,
    to_destination_station: Option<Station>,
) -> (r: Request)
    ensures
        r.model() == spec_station_to_station_request(
            api_key@,
            from_station,
            to_destination_station,
        ),
{
    let mut query: Vec<(String, String)> = Vec::new();
    if let Some(from) = from_station {
        query.push(("FromStation".to_owned(), from.to_string()));
    }
    if let Some(to) = to_destination_station {
        query.push(("ToStation".to_owned(), to.to_string()));
    }
    if query.len() > 0 {
        let r = Request::new(api_key.to_owned(), URLs::StationToStation.to_string(), Some(query));
        proof {
            assert(r.model().query->Some_0 =~= spec_station_to_station_query(
                from_station,
                to_destination_station,
            ));
        }
        r
    } else {
        Request::new(api_key.to_owned(), URLs::StationToStation.to_string(), None)
    }
}

/// The query for an optional station filter: `Station` only when supplied.
pub open spec fn spec_station_filter_query(station: Option<Station>) -> Seq<
    (Seq<char>, Seq<char>),
> {
    match station {
        Some(s) => seq![("Station"@, spec_station_code(s))],
        None => Seq::empty(),
    }
}

/// The request for elevator and escalator incidents, optionally at one
/// station; with no filter the request carries no query at all.
pub open spec fn spec_elevator_and_escalator_incidents_request(
    key: Seq<char>,
    station: Option<Station>,
) -> ReqModel {
    ReqModel {
        api_key: key,
        path: spec_url(URLs::ElevatorAndEscalatorIncidents),
        query: if station is None {
            None
        } else {
            Some(spec_station_filter_query(station))
        },
    }
}

/// Builds the elevator and escalator incident request.
pub fn elevator_and_escalator_incidents_request(api_key: &str, station: Option<Station>) -> (r:
    Request)
    ensures
        r.model() == spec_elevator_and_escalator_incidents_request(api_key@, station),
{
    match station {
        Some(s) => {
            let mut query: Vec<(String, String)> = Vec::new();
            query.push(("Station".to_owned(), s.to_string()));
            let r = Request::new(
                api_key.to_owned(),
                URLs::ElevatorAndEscalatorIncidents.to_string(),
                Some(query),
            );
            proof {
                assert(r.model().query->Some_0 =~= spec_station_filter_query(station));
            }
            r
        },
        None => Request::new(
            api_key.to_owned(),
            URLs::ElevatorAndEscalatorIncidents.to_string(),
            None,
        ),
    }
}

/// The request for rail incidents, optionally at one station; the query list
/// is always sent, empty when no filter is supplied.
pub open spec fn spec_incidents_request(key: Seq<char>, station: Option<Station>) -> ReqModel {
    ReqModel {
        api_key: key,
        path: spec_url(URLs::Incidents),
        query: Some(spec_station_filter_query(station)),
    }
}

/// Builds the rail incident request.
pub fn incidents_request(api_key: &str, station: Option<Station>) -> (r: Request)
    ensures
        r.model() == spec_incidents_request(api_key@, station),
{
    let mut query: Vec<(String, String)> = Vec::new();
    if let Some(s) = station {
        query.push(("Station".to_owned(), s.to_string()));
    }
    let r = Request::new(api_key.to_owned(), URLs::Incidents.to_string(), Some(query));
    proof {
        assert(r.model().query->Some_0 =~= spec_station_filter_query(station));
    }
    r
}

/// The request for next trains at a station: the code is appended to the
/// path, and there are no query parameters.
pub open spec fn spec_next_trains_request(key: Seq<char>, station: Station) -> ReqModel {
    ReqModel {
        api_key: key,
        path: spec_url(URLs::NextTrains) + "/"@ + spec_station_code(station),
        query: None,
    }
}

/// Builds the next train request.
pub fn next_trains_request(api_key: &str, station_code: Station) -> (r: Request)
    ensures
        r.model() == spec_next_trains_request(api_key@, station_code),
{
    let mut path = URLs::NextTrains.to_string();
    path.append("/");
    let code = station_code.to_string();
    path.append(code.as_str());
    Request::new(api_key.to_owned(), path, None)
}

/// The request for one station's metadata: `Station` names the station.
pub open spec fn spec_station_information_request(key: Seq<char>, station: Station) -> ReqModel {
    ReqModel {
        api_key: key,
        path: spec_url(URLs::Information),
        query: Some(seq![("Station"@, spec_station_code(station))]),
    }
}

/// Builds the station metadata request.
pub fn station_information_request(api_key: &str, station_code: Station) -> (r: Request)
    ensures
        r.model() == spec_station_information_request(api_key@, station_code),
{
    let mut query: Vec<(String, String)> = Vec::new();
    query.push(("Station".to_owned(), station_code.to_string()));
    let r = Request::new(api_key.to_owned(), URLs::Information.to_string(), Some(query));
    proof {
        assert(r.model().query->Some_0 =~= seq![("Station"@, spec_station_code(station_code))]);
    }
    r
}

/// The request for one station's parking information: `Station` names the
/// station.
pub open spec fn spec_parking_information_request(key: Seq<char>, station: Station) -> ReqModel {
    ReqModel {
        api_key: key,
        path: spec_url(URLs::ParkingInformation),
        query: Some(seq![("Station"@, spec_station_code(station))]),
    }
}

/// Builds the parking information request.
pub fn parking_information_request(api_key: &str, station_code: Station) -> (r: Request)
    ensures
        r.model() == spec_parking_information_request(api_key@, station_code),
{
    let mut query: Vec<(String, String)> = Vec::new();
    query.push(("Station".to_owned(), station_code.to_string()));
    let r = Request::new(api_key.to_owned(), URLs::ParkingInformation.to_string(), Some(query));
    proof {
        assert(r.model().query->Some_0 =~= seq![("Station"@, spec_station_code(station_code))]);
    }
    r
}

/// The request for the path between two stations: `FromStation`, `ToStation`.
pub open spec fn spec_path_request(key: Seq<char>, from: Station, to: Station) -> ReqModel {
    ReqModel {
        api_key: key,
        path: spec_url(URLs::Path),
        query: Some(
            seq![("FromStation"@, spec_station_code(from)), ("ToStation"@, spec_station_code(to))],
        ),
    }
}

/// Builds the path request.
pub fn path_request(api_key: &str, from_station: Station, to_station: Station) -> (r: Request)
    ensures
        r.model() == spec_path_request(api_key@, from_station, to_station),
{
    let mut query: Vec<(String, String)> = Vec::new();
    query.push(("FromStation".to_owned(), from_station.to_string()));
    query.push(("ToStation".to_owned(), to_station.to_string()));
    let r = Request::new(api_key.to_owned(), URLs::Path.to_string(), Some(query));
    proof {
        assert(r.model().query->Some_0 =~= spec_path_request(
            api_key@,
            from_station,
            to_station,
        ).query->Some_0);
    }
    r
}

/// The request for one station's timings: `Station` names the station.
pub open spec fn spec_timings_request(key: Seq<char>, station: Station) -> ReqModel {
    ReqModel {
        api_key: key,
        path: spec_url(URLs::Timings),
        query: Some(seq![("Station"@, spec_station_code(station))]),
    }
}

/// Builds the timing request.
pub fn timings_request(api_key: &str, station_code: Station) -> (r: Request)
    ensures
        r.model() == spec_timings_request(api_key@, station_code),
{
    let mut query: Vec<(String, String)> = Vec::new();
    query.push(("Station".to_owned(), station_code.to_string()));
    let r = Request::new(api_key.to_owned(), URLs::Timings.to_string(), Some(query));
    proof {
        assert(r.model().query->Some_0 =~= seq![("Station"@, spec_station_code(station_code))]);
    }
    r
}

/// The request for next buses at a stop: `StopID` names the stop.
pub open spec fn spec_next_buses_request(key: Seq<char>, stop: Seq<char>) -> ReqModel {
    ReqModel {
        api_key: key,
        path: spec_url(URLs::NextBuses),
        query: Some(seq![("StopID"@, stop)]),
    }
}

/// Builds the next bus request.
pub fn next_buses_request(api_key: &str, stop: &Stop) -> (r: Request)
    ensures
        r.model() == spec_next_buses_request(api_key@, stop.0@),
{
    let mut query: Vec<(String, String)> = Vec::new();
    query.push(("StopID".to_owned(), stop.to_string()));
    let r = Request::new(api_key.to_owned(), URLs::NextBuses.to_string(), Some(query));
    proof {
        assert(r.model().query->Some_0 =~= seq![("StopID"@, stop.0@)]);
    }
    r
}

/// The query for a stop schedule: `StopID`, then `Date` only when a date is
/// supplied (omitting the date means the current date).
pub open spec fn spec_stop_schedule_query(stop: Seq<char>, date: Option<Date>) -> Seq<
    (Seq<char>, Seq<char>),
> {
    match date {
        Some(d) => seq![("StopID"@, stop), ("Date"@, spec_date_text(d))],
        None => seq![("StopID"@, stop)],
    }
}

/// The request for the buses scheduled at a stop.
pub open spec fn spec_stop_schedule_request(
    key: Seq<char>,
    stop: Seq<char>,
    date: Option<Date>,
) -> ReqModel {
    ReqModel {
        api_key: key,
        path: spec_url(URLs::StopSchedule),
        query: Some(spec_stop_schedule_query(stop, date)),
    }
}

/// Builds the stop schedule request.
pub fn stop_schedule_request(api_key: &str, stop: &Stop, date: Option<Date>) -> (r: Request)
    ensures
        r.model() == spec_stop_schedule_request(api_key@, stop.0@, date),
{
    let mut query: Vec<(String, String)> = Vec::new();
    query.push(("StopID".to_owned(), stop.to_string()));
    if let Some(d) = date {
        query.push(("Date".to_owned(), d.to_string()));
    }
    let r = Request::new(api_key.to_owned(), URLs::StopSchedule.to_string(), Some(query));
    proof {
        assert(r.model().query->Some_0 =~= spec_stop_schedule_query(stop.0@, date));
    }
    r
}

} // verus!
