//! The top-level rail client: holds the API key and exposes the full rail
//! menu. Each operation routes through the shared builders and the capability
//! traits of the supplied transport, so the client adds no request logic of
//! its own.
use vstd::prelude::*;

use core::str::FromStr;
use crate::dispatch::Fetch;
use crate::dispatch::FromJson;
use crate::error::Error;
use crate::json::Json;
use crate::line::Line;
use crate::rail::responses;
use crate::rail::station::Station;
use crate::rail::traits::NeedsLine;
use crate::rail::traits::NeedsStation;
use crate::requests::circuits_request;
use crate::requests::entrances_request;
use crate::requests::lines_request;
use crate::requests::positions_request;
use crate::requests::routes_request;
use crate::types::RadiusAtLatLong;

verus! {

/// A rail client holding the API key it authenticates with.
#[derive(Debug)]
pub struct Client {
    /// The API key, an opaque pre-shared credential.
    pub key: String,
}

impl Client {
    /// A client from its API key.
    pub fn new(key: &str) -> (r: Client)
        ensures
            r.key@ == key@,
    {
        Client { key: key.to_owned() }
    }

    /// The rail lines.
    pub fn lines(&self, transport: &impl Fetch) -> (r: Result<responses::Lines, Error>)
        ensures
            r matches Ok(v) ==> exists|j: Json|
                responses::Lines::json_wf(j) && (#[trigger] v.of_json(j)),
    {
        transport.fetch::<responses::Lines>(lines_request(self.key.as_str()))
    }

    /// Station entrances near a point.
    pub fn entrances(&self, radius: RadiusAtLatLong, transport: &impl Fetch) -> (r: Result<
        responses::StationEntrances,
        Error,
    >)
        ensures
            r matches Ok(v) ==> exists|j: Json|
                responses::StationEntrances::json_wf(j) && (#[trigger] v.of_json(j)),
    {
        transport.fetch::<responses::StationEntrances>(
            entrances_request(self.key.as_str(), &radius),
        )
    }

    /// Live train positions.
    pub fn positions(&self, transport: &impl Fetch) -> (r: Result<
        responses::TrainPositions,
        Error,
    >)
        ensures
            r matches Ok(v) ==> exists|j: Json|
                responses::TrainPositions::json_wf(j) && (#[trigger] v.of_json(j)),
    {
        transport.fetch::<responses::TrainPositions>(positions_request(self.key.as_str()))
    }

    /// Standard routes.
    pub fn routes(&self, transport: &impl Fetch) -> (r: Result<responses::StandardRoutes, Error>)
        ensures
            r matches Ok(v) ==> exists|j: Json|
                responses::StandardRoutes::json_wf(j) && (#[trigger] v.of_json(j)),
    {
        transport.fetch::<responses::StandardRoutes>(routes_request(self.key.as_str()))
    }

    /// Track circuits.
    pub fn circuits(&self, transport: &impl Fetch) -> (r: Result<responses::TrackCircuits, Error>)
        ensures
            r matches Ok(v) ==> exists|j: Json|
                responses::TrackCircuits::json_wf(j) && (#[trigger] v.of_json(j)),
    {
        transport.fetch::<responses::TrackCircuits>(circuits_request(self.key.as_str()))
    }

    /// Stations, optionally filtered to one line; with no filter every
    /// station is listed.
    pub fn stations_on(&self, line: Option<Line>, transport: &impl NeedsLine) -> (r: Result<
        responses::Stations,
        Error,
    >)
        ensures
            r matches Ok(v) ==> exists|j: Json|
                responses::Stations::json_wf(j) && (#[trigger] v.of_json(j)),
    {
        transport.stations_on(line, self.key.as_str())
    }

    /// Distance, fare and travel time between stations; either end may be
    /// left open.
    pub fn station_to_station(
        &self,
        from_station: Option<Station>,
        to_destination_station: Option<Station>,
        transport: &impl NeedsStation,
    ) -> (r: Result<responses::StationToStationInfos, Error>)
        ensures
            r matches Ok(v) ==> exists|j: Json|
                responses::StationToStationInfos::json_wf(j) && (#[trigger] v.of_json(j)),
    {
        transport.station_to_station(from_station, to_destination_station, self.key.as_str())
    }

    /// Elevator and escalator incidents, optionally at one station.
    pub fn elevator_and_escalator_incidents_at(
        &self,
        station: Option<Station>,
        transport: &impl NeedsStation,
    ) -> (r: Result<responses::ElevatorAndEscalatorIncidents, Error>)
        ensures
            r matches Ok(v) ==> exists|j: Json|
                responses::ElevatorAndEscalatorIncidents::json_wf(j) && (#[trigger] v.of_json(j)),
    {
        transport.elevator_and_escalator_incidents_at(station, self.key.as_str())
    }

    /// Rail incidents, optionally at one station.
    pub fn incidents_at(&self, station: Option<Station>, transport: &impl NeedsStation) -> (r:
        Result<responses::RailIncidents, Error>)
        ensures
            r matches Ok(v) ==> exists|j: Json|
                responses::RailIncidents::json_wf(j) && (#[trigger] v.of_json(j)),
    {
        transport.incidents_at(station, self.key.as_str())
    }

    /// Next train arrivals at one station.
    pub fn next_trains(&self, station: Station, transport: &impl NeedsStation) -> (r: Result<
        responses::RailPredictions,
        Error,
    >)
        ensures
            r matches Ok(v) ==> exists|j: Json|
                responses::RailPredictions::json_wf(j) && (#[trigger] v.of_json(j)),
    {
        transport.next_trains(station, self.key.as_str())
    }

    /// Metadata of one station.
    pub fn station_information(&self, station: Station, transport: &impl NeedsStation) -> (r:
        Result<responses::StationInformation, Error>)
        ensures
            r matches Ok(v) ==> exists|j: Json|
                responses::StationInformation::json_wf(j) && (#[trigger] v.of_json(j)),
    {
        transport.station_information(station, self.key.as_str())
    }

    /// Parking information at one station.
    pub fn parking_information(&self, station: Station, transport: &impl NeedsStation) -> (r:
        Result<responses::StationsParking, Error>)
        ensures
            r matches Ok(v) ==> exists|j: Json|
                responses::StationsParking::json_wf(j) && (#[trigger] v.of_json(j)),
    {
        transport.parking_information(station, self.key.as_str())
    }

    /// The stations along the path from one station to another.
    pub fn path_from(&self, from: Station, to: Station, transport: &impl NeedsStation) -> (r:
        Result<responses::PathBetweenStations, Error>)
        ensures
            r matches Ok(v) ==> exists|j: Json|
                responses::PathBetweenStations::json_wf(j) && (#[trigger] v.of_json(j)),
    {
        transport.path_from(from, to, self.key.as_str())
    }

    /// Opening and first/last train times of one station.
    pub fn timings(&self, station: Station, transport: &impl NeedsStation) -> (r: Result<
        responses::StationTimings,
        Error,
    >)
        ensures
            r matches Ok(v) ==> exists|j: Json|
                responses::StationTimings::json_wf(j) && (#[trigger] v.of_json(j)),
    {
        transport.timings(station, self.key.as_str())
    }
}

impl FromStr for Client {
    type Err = Error;

    /// Every string is accepted as an API key; the service rejects bad keys.
    fn from_str(s: &str) -> Result<Client, Error> {
        Ok(Client::new(s))
    }
}

} // verus!
