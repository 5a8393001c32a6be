//! Rail capability traits: fixed menus of operations that any type able to
//! perform `Fetch` gains as default behavior. Every operation is one
//! composition: build the request through the shared builder, dispatch it,
//! decode the reply.
use vstd::prelude::*;

use crate::dispatch::Fetch;
use crate::dispatch::FromJson;
use crate::error::Error;
use crate::json::Json;
use crate::line::Line;
use crate::rail::responses;
use crate::rail::station::Station;
use crate::requests::elevator_and_escalator_incidents_request;
use crate::requests::incidents_request;
use crate::requests::next_trains_request;
use crate::requests::parking_information_request;
use crate::requests::path_request;
use crate::requests::station_information_request;
use crate::requests::station_to_station_request;
use crate::requests::stations_on_request;
use crate::requests::timings_request;

verus! {

/// Operations around line codes, gained by any fetch-capable type.
pub trait NeedsLine: Fetch {
    /// Stations, optionally filtered to one line. With no filter the request
    /// carries no query and every station is listed — a deliberate policy,
    /// not an error.
    fn stations_on(&self, line: Option<Line>, api_key: &str) -> (r: Result<
        responses::Stations,
        Error,
    >)
        ensures
            r matches Ok(v) ==> exists|j: Json|
                responses::Stations::json_wf(j) && (#[trigger] v.of_json(j)),
    {
        self.fetch::<responses::Stations>(stations_on_request(api_key, line))
    }
}

/// Operations around station codes, gained by any fetch-capable type.
pub trait NeedsStation: Fetch {
    /// Distance, fare and travel time between stations; either end may be
    /// left open, and with both open every pair is listed.
    fn station_to_station(
        &self,
        from_station: Option<Station>,
        to_destination_station: Option<Station>,
        api_key: &str,
    ) -> (r: Result<responses::StationToStationInfos, Error>)
        ensures
            r matches Ok(v) ==> exists|j: Json|
                responses::StationToStationInfos::json_wf(j) && (#[trigger] v.of_json(j)),
    {
        self.fetch::<responses::StationToStationInfos>(
            station_to_station_request(api_key, from_station, to_destination_station),
        )
    }

    /// Elevator and escalator incidents, optionally at one station.
    fn elevator_and_escalator_incidents_at(&self, station: Option<Station>, api_key: &str) -> (r:
        Result<responses::ElevatorAndEscalatorIncidents, Error>)
        ensures
            r matches Ok(v) ==> exists|j: Json|
                responses::ElevatorAndEscalatorIncidents::json_wf(j) && (#[trigger] v.of_json(j)),
    {
        self.fetch::<responses::ElevatorAndEscalatorIncidents>(
            elevator_and_escalator_incidents_request(api_key, station),
        )
    }

    /// Rail incidents, optionally at one station.
    fn incidents_at(&self, station: Option<Station>, api_key: &str) -> (r: Result<
        responses::RailIncidents,
        Error,
    >)
        ensures
            r matches Ok(v) ==> exists|j: Json|
                responses::RailIncidents::json_wf(j) && (#[trigger] v.of_json(j)),
    {
        self.fetch::<responses::RailIncidents>(incidents_request(api_key, station))
    }

    /// Next train arrivals at one station.
    fn next_trains(&self, station_code: Station, api_key: &str) -> (r: Result<
        responses::RailPredictions,
        Error,
    >)
        ensures
            r matches Ok(v) ==> exists|j: Json|
                responses::RailPredictions::json_wf(j) && (#[trigger] v.of_json(j)),
    {
        self.fetch::<responses::RailPredictions>(next_trains_request(api_key, station_code))
    }

    /// Metadata of one station.
    fn station_information(&self, station_code: Station, api_key: &str) -> (r: Result<
        responses::StationInformation,
        Error,
    >)
        ensures
            r matches Ok(v) ==> exists|j: Json|
                responses::StationInformation::json_wf(j) && (#[trigger] v.of_json(j)),
    {
        self.fetch::<responses::StationInformation>(
            station_information_request(api_key, station_code),
        )
    }

    /// Parking information at one station.
    fn parking_information(&self, station_code: Station, api_key: &str) -> (r: Result<
        responses::StationsParking,
        Error,
    >)
        ensures
            r matches Ok(v) ==> exists|j: Json|
                responses::StationsParking::json_wf(j) && (#[trigger] v.of_json(j)),
    {
        self.fetch::<responses::StationsParking>(
            parking_information_request(api_key, station_code),
        )
    }

    /// The stations along the path from one station to another.
    fn path_from(&self, from_station: Station, to_station: Station, api_key: &str) -> (r: Result<
        responses::PathBetweenStations,
        Error,
    >)
        ensures
            r matches Ok(v) ==> exists|j: Json|
                responses::PathBetweenStations::json_wf(j) && (#[trigger] v.of_json(j)),
    {
        self.fetch::<responses::PathBetweenStations>(
            path_request(api_key, from_station, to_station),
        )
    }

    /// Opening and first/last train times of one station.
    fn timings(&self, station_code: Station, api_key: &str) -> (r: Result<
        responses::StationTimings,
        Error,
    >)
        ensures
            r matches Ok(v) ==> exists|j: Json|
                responses::StationTimings::json_wf(j) && (#[trigger] v.of_json(j)),
    {
        self.fetch::<responses::StationTimings>(timings_request(api_key, station_code))
    }
}

} // verus!
