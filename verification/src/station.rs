//! A standalone station entity: one station code paired with an API key, so
//! a caller holding a single station can invoke its menu directly. Every
//! operation routes through the same builders as the capability traits, so
//! both paths build identical requests.
use vstd::prelude::*;

use crate::dispatch::FromJson;
use crate::error::Error;
use crate::json::Json;
use crate::rail::responses;
use crate::rail::traits::NeedsStation;

verus! {

/// The canonical station code type; kept under its older name as well.
pub type StationCode = crate::rail::station::Station;

/// The parse error of the canonical station code type, under its older name.
pub type StringIsNotStationCodeError = crate::rail::station::StringIsNotStationError;

/// One station, bound to the API key that queries about it will use.
#[derive(Debug)]
pub struct Station {
    /// The API key, an opaque pre-shared credential.
    pub api_key: String,
    /// The station this entity addresses.
    pub station_code: StationCode,
}

impl Station {
    /// A station entity from an API key and a station code.
    pub fn new(api_key: &str, station_code: StationCode) -> (r: Station)
        ensures
            r.api_key@ == api_key@,
            r.station_code == station_code,
    {
        Station { api_key: api_key.to_owned(), station_code }
    }

    /// Next train arrivals at this station.
    pub fn next_trains(&self, transport: &impl NeedsStation) -> (r: Result<
        responses::RailPredictions,
        Error,
    >)
        ensures
            r matches Ok(v) ==> exists|j: Json|
                responses::RailPredictions::json_wf(j) && (#[trigger] v.of_json(j)),
    {
        transport.next_trains(self.station_code, self.api_key.as_str())
    }

    /// Metadata of this station.
    pub fn information(&self, transport: &impl NeedsStation) -> (r: Result<
        responses::StationInformation,
        Error,
    >)
        ensures
            r matches Ok(v) ==> exists|j: Json|
                responses::StationInformation::json_wf(j) && (#[trigger] v.of_json(j)),
    {
        transport.station_information(self.station_code, self.api_key.as_str())
    }

    /// Parking information at this station.
    pub fn parking_information(&self, transport: &impl NeedsStation) -> (r: Result<
        responses::StationsParking,
        Error,
    >)
        ensures
            r matches Ok(v) ==> exists|j: Json|
                responses::StationsParking::json_wf(j) && (#[trigger] v.of_json(j)),
    {
        transport.parking_information(self.station_code, self.api_key.as_str())
    }

    /// The stations along the path from this station to another.
    pub fn path(&self, to_station: StationCode, transport: &impl NeedsStation) -> (r: Result<
        responses::PathBetweenStations,
        Error,
    >)
        ensures
            r matches Ok(v) ==> exists|j: Json|
                responses::PathBetweenStations::json_wf(j) && (#[trigger] v.of_json(j)),
    {
        transport.path_from(self.station_code, to_station, self.api_key.as_str())
    }

    /// Opening and first/last train times of this station.
    pub fn timings(&self, transport: &impl NeedsStation) -> (r: Result<
        responses::StationTimings,
        Error,
    >)
        ensures
            r matches Ok(v) ==> exists|j: Json|
                responses::StationTimings::json_wf(j) && (#[trigger] v.of_json(j)),
    {
        transport.timings(self.station_code, self.api_key.as_str())
    }

    /// Distance, fare and travel time from this station to another.
    pub fn to_station(&self, station: StationCode, transport: &impl NeedsStation) -> (r: Result<
        responses::StationToStationInfos,
        Error,
    >)
        ensures
            r matches Ok(v) ==> exists|j: Json|
                responses::StationToStationInfos::json_wf(j) && (#[trigger] v.of_json(j)),
    {
        transport.station_to_station(
            Some(self.station_code),
            Some(station),
            self.api_key.as_str(),
        )
    }
}

} // verus!
