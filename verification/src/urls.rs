//! The fixed endpoint URLs of the upstream service, one per operation.
use vstd::prelude::*;

verus! {

/// Every endpoint the library can call.
#[derive(Debug, Copy, Clone, PartialEq, Eq, Structural)]
pub enum URLs {
    /// Rail line list.
    Lines,
    /// Rail station entrances near a point.
    Entrances,
    /// Live train positions.
    Positions,
    /// Standard routes.
    Routes,
    /// Track circuits.
    Circuits,
    /// Elevator and escalator incidents.
    ElevatorAndEscalatorIncidents,
    /// Rail incidents.
    Incidents,
    /// Next train arrivals at a station.
    NextTrains,
    /// Station metadata.
    Information,
    /// Station parking information.
    ParkingInformation,
    /// Path between two stations.
    Path,
    /// Station opening and first/last train times.
    Timings,
    /// Distance, fare and time between two stations.
    StationToStation,
    /// Stations, optionally filtered by line.
    Stations,
    /// Next bus arrivals at a stop.
    NextBuses,
    /// Buses scheduled at a stop.
    StopSchedule,
}

/// The fixed URL text of each endpoint.
pub open spec fn spec_url(u: URLs) -> Seq<char> {
    match u {
        URLs::Lines => "https://api.wmata.com/Rail.svc/json/jLines"@,
        URLs::Entrances => "https://api.wmata.com/Rail.svc/json/jStationEntrances"@,
        URLs::Positions => "https://api.wmata.com/TrainPositions/TrainPositions?contentType=json"@,
        URLs::Routes => "https://api.wmata.com/TrainPositions/StandardRoutes?contentType=json"@,
        URLs::Circuits => "https://api.wmata.com/TrainPositions/TrackCircuits?contentType=json"@,
        URLs::ElevatorAndEscalatorIncidents
            => "https://api.wmata.com/Incidents.svc/json/ElevatorIncidents"@,
        URLs::Incidents => "https://api.wmata.com/Incidents.svc/json/Incidents"@,
        URLs::NextTrains => "https://api.wmata.com/StationPrediction.svc/json/GetPrediction"@,
        URLs::Information => "https://api.wmata.com/Rail.svc/json/jStationInfo"@,
        URLs::ParkingInformation => "https://api.wmata.com/Rail.svc/json/jStationParking"@,
        URLs::Path => "https://api.wmata.com/Rail.svc/json/jPath"@,
        URLs::Timings => "https://api.wmata.com/Rail.svc/json/jStationTimes"@,
        URLs::StationToStation => "https://api.wmata.com/Rail.svc/json/jSrcStationToDstStationInfo"@,
        URLs::Stations => "https://api.wmata.com/Rail.svc/json/jStations"@,
        URLs::NextBuses => "https://api.wmata.com/NextBusService.svc/json/jPredictions"@,
        URLs::StopSchedule => "https://api.wmata.com/Bus.svc/json/jStopSchedule"@,
    }
}

impl URLs {
    /// The URL text of this endpoint.
    pub fn to_string(&self) -> (r: String)
        ensures
            r@ == spec_url(*self),
    {
        match self {
            URLs::Lines => "https://api.wmata.com/Rail.svc/json/jLines".to_owned(),
            URLs::Entrances => "https://api.wmata.com/Rail.svc/json/jStationEntrances".to_owned(),
            URLs::Positions
                => "https://api.wmata.com/TrainPositions/TrainPositions?contentType=json".to_owned(),
            URLs::Routes
                => "https://api.wmata.com/TrainPositions/StandardRoutes?contentType=json".to_owned(),
            URLs::Circuits
                => "https://api.wmata.com/TrainPositions/TrackCircuits?contentType=json".to_owned(),
            URLs::ElevatorAndEscalatorIncidents
                => "https://api.wmata.com/Incidents.svc/json/ElevatorIncidents".to_owned(),
            URLs::Incidents => "https://api.wmata.com/Incidents.svc/json/Incidents".to_owned(),
            URLs::NextTrains
                => "https://api.wmata.com/StationPrediction.svc/json/GetPrediction".to_owned(),
            URLs::Information => "https://api.wmata.com/Rail.svc/json/jStationInfo".to_owned(),
            URLs::ParkingInformation
                => "https://api.wmata.com/Rail.svc/json/jStationParking".to_owned(),
            URLs::Path => "https://api.wmata.com/Rail.svc/json/jPath".to_owned(),
            URLs::Timings => "https://api.wmata.com/Rail.svc/json/jStationTimes".to_owned(),
            URLs::StationToStation
                => "https://api.wmata.com/Rail.svc/json/jSrcStationToDstStationInfo".to_owned(),
            URLs::Stations => "https://api.wmata.com/Rail.svc/json/jStations".to_owned(),
            URLs::NextBuses
                => "https://api.wmata.com/NextBusService.svc/json/jPredictions".to_owned(),
            URLs::StopSchedule => "https://api.wmata.com/Bus.svc/json/jStopSchedule".to_owned(),
        }
    }
}

} // verus!
