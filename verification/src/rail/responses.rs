//! Rail response records: flat mirrors of the upstream schema. Every decode
//! is verified field by field against the upstream names, renames included;
//! numeric fields that the library does not interpret keep their decimal
//! text.
use vstd::prelude::*;

use crate::dispatch::decode_array;
use crate::dispatch::decode_i32_array;
use crate::dispatch::decode_string_array;
use crate::dispatch::spec_i32_array_of;
use crate::dispatch::spec_i32_array_wf;
use crate::dispatch::spec_string_array_of;
use crate::dispatch::spec_string_array_wf;
use crate::dispatch::spec_array_of;
use crate::dispatch::spec_array_wf;
use crate::dispatch::FromJson;
use crate::error::Error;
use crate::json::array_field;
use crate::json::field;
use crate::json::field_error;
use crate::json::i32_field;
use crate::json::number_field;
use crate::json::opt_number_field;
use crate::json::opt_string_field;
use crate::json::spec_field;
use crate::json::spec_array_field;
use crate::json::spec_i32_field;
use crate::json::spec_number_field;
use crate::json::spec_opt_number_field;
use crate::json::spec_opt_string_field;
use crate::json::spec_string_field;
use crate::json::string_field;
use crate::json::Json;

verus! {

/// One rail line, as listed by the line endpoint.
#[derive(Debug)]
pub struct Line {
    /// Two-letter abbreviation of the line.
    pub line_code: String,
    /// Full name of the line.
    pub display_name: String,
    /// Station code for the start of the line.
    pub start_station_code: String,
    /// Station code for the end of the line.
    pub end_station_code: String,
    /// Intermediate terminal station, when the line has one.
    pub first_internal_destination: String,
    /// Second intermediate terminal station, when the line has one.
    pub second_internal_destination: String,
}

impl FromJson for Line {
    open spec fn json_wf(j: Json) -> bool {
        match j {
            Json::Object(f) => {
                &&& spec_string_field(f@, "LineCode"@) is Some
                &&& spec_string_field(f@, "DisplayName"@) is Some
                &&& spec_string_field(f@, "StartStationCode"@) is Some
                &&& spec_string_field(f@, "EndStationCode"@) is Some
                &&& spec_string_field(f@, "InternalDestination1"@) is Some
                &&& spec_string_field(f@, "InternalDestination2"@) is Some
            },
            _ => false,
        }
    }

    open spec fn of_json(self, j: Json) -> bool {
        match j {
            Json::Object(f) => {
                &&& spec_string_field(f@, "LineCode"@) == Some(self.line_code@)
                &&& spec_string_field(f@, "DisplayName"@) == Some(self.display_name@)
                &&& spec_string_field(f@, "StartStationCode"@) == Some(self.start_station_code@)
                &&& spec_string_field(f@, "EndStationCode"@) == Some(self.end_station_code@)
                &&& spec_string_field(f@, "InternalDestination1"@) == Some(self.first_internal_destination@)
                &&& spec_string_field(f@, "InternalDestination2"@) == Some(self.second_internal_destination@)
            },
            _ => false,
        }
    }

    fn from_json(j: &Json) -> (r: Result<Self, Error>) {
        let f = match j {
            Json::Object(f) => f,
            _ => {
                return Err(Error::Decode("expected an object".to_owned()));
            },
        };
        let line_code = match string_field(f, "LineCode") {
            Ok(v) => v,
            Err(e) => {
                return Err(e);
            },
        };
        let display_name = match string_field(f, "DisplayName") {
            Ok(v) => v,
            Err(e) => {
                return Err(e);
            },
        };
        let start_station_code = match string_field(f, "StartStationCode") {
            Ok(v) => v,
            Err(e) => {
                return Err(e);
            },
        };
        let end_station_code = match string_field(f, "EndStationCode") {
            Ok(v) => v,
            Err(e) => {
                return Err(e);
            },
        };
        let first_internal_destination = match string_field(f, "InternalDestination1") {
            Ok(v) => v,
            Err(e) => {
                return Err(e);
            },
        };
        let second_internal_destination = match string_field(f, "InternalDestination2") {
            Ok(v) => v,
            Err(e) => {
                return Err(e);
            },
        };
        Ok(Line { line_code, display_name, start_station_code, end_station_code, first_internal_destination, second_internal_destination })
    }
}

/// The rail lines.
#[derive(Debug)]
pub struct Lines {
    /// See [`Line`].
    pub lines: Vec<Line>,
}

impl FromJson for Lines {
    open spec fn json_wf(j: Json) -> bool {
        match j {
            Json::Object(f) => {
                &&& (spec_array_field(f@, "Lines"@) matches Some(a)
                    && spec_array_wf::<Line>(a))
            },
            _ => false,
        }
    }

    open spec fn of_json(self, j: Json) -> bool {
        match j {
            Json::Object(f) => {
                &&& (spec_array_field(f@, "Lines"@) matches Some(a)
                    && spec_array_of::<Line>(self.lines@, a))
            },
            _ => false,
        }
    }

    fn from_json(j: &Json) -> (r: Result<Self, Error>) {
        let f = match j {
            Json::Object(f) => f,
            _ => {
                return Err(Error::Decode("expected an object".to_owned()));
            },
        };
        let lines = match array_field(f, "Lines") {
            Ok(arr) => match decode_array::<Line>(arr) {
                Ok(v) => v,
                Err(e) => {
                    return Err(e);
                },
            },
            Err(e) => {
                return Err(e);
            },
        };
        Ok(Lines { lines })
    }
}

/// Address of a station.
#[derive(Debug)]
pub struct Address {
    /// City of this station.
    pub city: String,
    /// State of this station.
    pub state: String,
    /// Street address (for GPS use) of this station.
    pub street: String,
    /// Zip code of this station.
    pub zip: String,
}

impl FromJson for Address {
    open spec fn json_wf(j: Json) -> bool {
        match j {
            Json::Object(f) => {
                &&& spec_string_field(f@, "City"@) is Some
                &&& spec_string_field(f@, "State"@) is Some
                &&& spec_string_field(f@, "Street"@) is Some
                &&& spec_string_field(f@, "Zip"@) is Some
            },
            _ => false,
        }
    }

    open spec fn of_json(self, j: Json) -> bool {
        match j {
            Json::Object(f) => {
                &&& spec_string_field(f@, "City"@) == Some(self.city@)
                &&& spec_string_field(f@, "State"@) == Some(self.state@)
                &&& spec_string_field(f@, "Street"@) == Some(self.street@)
                &&& spec_string_field(f@, "Zip"@) == Some(self.zip@)
            },
            _ => false,
        }
    }

    fn from_json(j: &Json) -> (r: Result<Self, Error>) {
        let f = match j {
            Json::Object(f) => f,
            _ => {
                return Err(Error::Decode("expected an object".to_owned()));
            },
        };
        let city = match string_field(f, "City") {
            Ok(v) => v,
            Err(e) => {
                return Err(e);
            },
        };
        let state = match string_field(f, "State") {
            Ok(v) => v,
            Err(e) => {
                return Err(e);
            },
        };
        let street = match string_field(f, "Street") {
            Ok(v) => v,
            Err(e) => {
                return Err(e);
            },
        };
        let zip = match string_field(f, "Zip") {
            Ok(v) => v,
            Err(e) => {
                return Err(e);
            },
        };
        Ok(Address { city, state, street, zip })
    }
}

/// One station, as listed by the station list endpoint; coordinates stay decimal text.
#[derive(Debug)]
pub struct Station {
    /// See [`Address`].
    pub address: Address,
    /// Station code of this station.
    pub code: String,
    /// Latitude of this station, as decimal text.
    pub latitude: String,
    /// Longitude of this station, as decimal text.
    pub longitude: String,
    /// First line of this station.
    pub first_line_code: String,
    /// Second line of this station.
    pub second_line_code: Option<String>,
    /// Third line of this station.
    pub third_line_code: Option<String>,
    /// Fourth line of this station.
    pub fourth_line_code: Option<String>,
    /// Station name.
    pub name: String,
    /// For stations with multiple platforms, the additional station code.
    pub first_station_together: String,
    /// Similar in function to the first; currently not in use.
    pub second_station_together: String,
}

impl FromJson for Station {
    open spec fn json_wf(j: Json) -> bool {
        match j {
            Json::Object(f) => {
                &&& (spec_field(f@, "Address"@) matches Some(x)
                    && Address::json_wf(x))
                &&& spec_string_field(f@, "Code"@) is Some
                &&& spec_number_field(f@, "Lat"@) is Some
                &&& spec_number_field(f@, "Lon"@) is Some
                &&& spec_string_field(f@, "LineCode1"@) is Some
                &&& spec_opt_string_field(f@, "LineCode2"@) is Some
                &&& spec_opt_string_field(f@, "LineCode3"@) is Some
                &&& spec_opt_string_field(f@, "LineCode4"@) is Some
                &&& spec_string_field(f@, "Name"@) is Some
                &&& spec_string_field(f@, "StationTogether1"@) is Some
                &&& spec_string_field(f@, "StationTogether2"@) is Some
            },
            _ => false,
        }
    }

    open spec fn of_json(self, j: Json) -> bool {
        match j {
            Json::Object(f) => {
                &&& (spec_field(f@, "Address"@) matches Some(x)
                    && self.address.of_json(x))
                &&& spec_string_field(f@, "Code"@) == Some(self.code@)
                &&& spec_number_field(f@, "Lat"@) == Some(self.latitude@)
                &&& spec_number_field(f@, "Lon"@) == Some(self.longitude@)
                &&& spec_string_field(f@, "LineCode1"@) == Some(self.first_line_code@)
                &&& spec_opt_string_field(f@, "LineCode2"@) == Some(
                    match self.second_line_code {
                        Some(s) => Some(s@),
                        None => None::<Seq<char>>,
                    },
                )
                &&& spec_opt_string_field(f@, "LineCode3"@) == Some(
                    match self.third_line_code {
                        Some(s) => Some(s@),
                        None => None::<Seq<char>>,
                    },
                )
                &&& spec_opt_string_field(f@, "LineCode4"@) == Some(
                    match self.fourth_line_code {
                        Some(s) => Some(s@),
                        None => None::<Seq<char>>,
                    },
                )
                &&& spec_string_field(f@, "Name"@) == Some(self.name@)
                &&& spec_string_field(f@, "StationTogether1"@) == Some(self.first_station_together@)
                &&& spec_string_field(f@, "StationTogether2"@) == Some(self.second_station_together@)
            },
            _ => false,
        }
    }

    fn from_json(j: &Json) -> (r: Result<Self, Error>) {
        let f = match j {
            Json::Object(f) => f,
            _ => {
                return Err(Error::Decode("expected an object".to_owned()));
            },
        };
        let address = match field(f, "Address") {
            Some(x) => match Address::from_json(x) {
                Ok(v) => v,
                Err(e) => {
                    return Err(e);
                },
            },
            None => {
                return Err(field_error("Address"));
            },
        };
        let code = match string_field(f, "Code") {
            Ok(v) => v,
            Err(e) => {
                return Err(e);
            },
        };
        let latitude = match number_field(f, "Lat") {
            Ok(v) => v,
            Err(e) => {
                return Err(e);
            },
        };
        let longitude = match number_field(f, "Lon") {
            Ok(v) => v,
            Err(e) => {
                return Err(e);
            },
        };
        let first_line_code = match string_field(f, "LineCode1") {
            Ok(v) => v,
            Err(e) => {
                return Err(e);
            },
        };
        let second_line_code = match opt_string_field(f, "LineCode2") {
            Ok(v) => v,
            Err(e) => {
                return Err(e);
            },
        };
        let third_line_code = match opt_string_field(f, "LineCode3") {
            Ok(v) => v,
            Err(e) => {
                return Err(e);
            },
        };
        let fourth_line_code = match opt_string_field(f, "LineCode4") {
            Ok(v) => v,
            Err(e) => {
                return Err(e);
            },
        };
        let name = match string_field(f, "Name") {
            Ok(v) => v,
            Err(e) => {
                return Err(e);
            },
        };
        let first_station_together = match string_field(f, "StationTogether1") {
            Ok(v) => v,
            Err(e) => {
                return Err(e);
            },
        };
        let second_station_together = match string_field(f, "StationTogether2") {
            Ok(v) => v,
            Err(e) => {
                return Err(e);
            },
        };
        Ok(Station { address, code, latitude, longitude, first_line_code, second_line_code, third_line_code, fourth_line_code, name, first_station_together, second_station_together })
    }
}

/// The stations a line query matched.
#[derive(Debug)]
pub struct Stations {
    /// See [`Station`].
    pub stations: Vec<Station>,
}

impl FromJson for Stations {
    open spec fn json_wf(j: Json) -> bool {
        match j {
            Json::Object(f) => {
                &&& (spec_array_field(f@, "Stations"@) matches Some(a)
                    && spec_array_wf::<Station>(a))
            },
            _ => false,
        }
    }

    open spec fn of_json(self, j: Json) -> bool {
        match j {
            Json::Object(f) => {
                &&& (spec_array_field(f@, "Stations"@) matches Some(a)
                    && spec_array_of::<Station>(self.stations@, a))
            },
            _ => false,
        }
    }

    fn from_json(j: &Json) -> (r: Result<Self, Error>) {
        let f = match j {
            Json::Object(f) => f,
            _ => {
                return Err(Error::Decode("expected an object".to_owned()));
            },
        };
        let stations = match array_field(f, "Stations") {
            Ok(arr) => match decode_array::<Station>(arr) {
                Ok(v) => v,
                Err(e) => {
                    return Err(e);
                },
            },
            Err(e) => {
                return Err(e);
            },
        };
        Ok(Stations { stations })
    }
}

/// One station entrance; coordinates stay decimal text.
#[derive(Debug)]
pub struct StationEntrance {
    /// Additional information for the entrance.
    pub description: String,
    /// Warning: deprecated upstream.
    pub id: String,
    /// Latitude of the entrance, as decimal text.
    pub latitude: String,
    /// Longitude of the entrance, as decimal text.
    pub longitude: String,
    /// Name of the entrance.
    pub name: String,
    /// Station code of this entrance.
    pub first_station_code: String,
    /// Second station code of this entrance.
    pub second_station_code: String,
}

impl FromJson for StationEntrance {
    open spec fn json_wf(j: Json) -> bool {
        match j {
            Json::Object(f) => {
                &&& spec_string_field(f@, "Description"@) is Some
                &&& spec_string_field(f@, "ID"@) is Some
                &&& spec_number_field(f@, "Lat"@) is Some
                &&& spec_number_field(f@, "Lon"@) is Some
                &&& spec_string_field(f@, "Name"@) is Some
                &&& spec_string_field(f@, "StationCode1"@) is Some
                &&& spec_string_field(f@, "StationCode2"@) is Some
            },
            _ => false,
        }
    }

    open spec fn of_json(self, j: Json) -> bool {
        match j {
            Json::Object(f) => {
                &&& spec_string_field(f@, "Description"@) == Some(self.description@)
                &&& spec_string_field(f@, "ID"@) == Some(self.id@)
                &&& spec_number_field(f@, "Lat"@) == Some(self.latitude@)
                &&& spec_number_field(f@, "Lon"@) == Some(self.longitude@)
                &&& spec_string_field(f@, "Name"@) == Some(self.name@)
                &&& spec_string_field(f@, "StationCode1"@) == Some(self.first_station_code@)
                &&& spec_string_field(f@, "StationCode2"@) == Some(self.second_station_code@)
            },
            _ => false,
        }
    }

    fn from_json(j: &Json) -> (r: Result<Self, Error>) {
        let f = match j {
            Json::Object(f) => f,
            _ => {
                return Err(Error::Decode("expected an object".to_owned()));
            },
        };
        let description = match string_field(f, "Description") {
            Ok(v) => v,
            Err(e) => {
                return Err(e);
            },
        };
        let id = match string_field(f, "ID") {
            Ok(v) => v,
            Err(e) => {
                return Err(e);
            },
        };
        let latitude = match number_field(f, "Lat") {
            Ok(v) => v,
            Err(e) => {
                return Err(e);
            },
        };
        let longitude = match number_field(f, "Lon") {
            Ok(v) => v,
            Err(e) => {
                return Err(e);
            },
        };
        let name = match string_field(f, "Name") {
            Ok(v) => v,
            Err(e) => {
                return Err(e);
            },
        };
        let first_station_code = match string_field(f, "StationCode1") {
            Ok(v) => v,
            Err(e) => {
                return Err(e);
            },
        };
        let second_station_code = match string_field(f, "StationCode2") {
            Ok(v) => v,
            Err(e) => {
                return Err(e);
            },
        };
        Ok(StationEntrance { description, id, latitude, longitude, name, first_station_code, second_station_code })
    }
}

/// The entrances near a point.
#[derive(Debug)]
pub struct StationEntrances {
    /// See [`StationEntrance`].
    pub entrances: Vec<StationEntrance>,
}

impl FromJson for StationEntrances {
    open spec fn json_wf(j: Json) -> bool {
        match j {
            Json::Object(f) => {
                &&& (spec_array_field(f@, "Entrances"@) matches Some(a)
                    && spec_array_wf::<StationEntrance>(a))
            },
            _ => false,
        }
    }

    open spec fn of_json(self, j: Json) -> bool {
        match j {
            Json::Object(f) => {
                &&& (spec_array_field(f@, "Entrances"@) matches Some(a)
                    && spec_array_of::<StationEntrance>(self.entrances@, a))
            },
            _ => false,
        }
    }

    fn from_json(j: &Json) -> (r: Result<Self, Error>) {
        let f = match j {
            Json::Object(f) => f,
            _ => {
                return Err(Error::Decode("expected an object".to_owned()));
            },
        };
        let entrances = match array_field(f, "Entrances") {
            Ok(arr) => match decode_array::<StationEntrance>(arr) {
                Ok(v) => v,
                Err(e) => {
                    return Err(e);
                },
            },
            Err(e) => {
                return Err(e);
            },
        };
        Ok(StationEntrances { entrances })
    }
}

/// One live train position.
#[derive(Debug)]
pub struct TrainPosition {
    /// Uniquely identifiable internal train identifier.
    pub train_id: String,
    /// Non-unique train identifier, used over open radio communication.
    pub train_number: String,
    /// Number of cars; can be 0.
    pub car_count: i32,
    /// The direction of movement regardless of which track the train is on.
    pub direction_number: i32,
    /// The circuit identifier the train is currently on.
    pub circuit_id: i32,
    /// Destination station code.
    pub destination_station_code: Option<String>,
    /// Line of this train.
    pub line_code: Option<String>,
    /// Approximate dwell time at the current circuit.
    pub seconds_at_location: i32,
    /// Service type of the train.
    pub service_type: String,
}

impl FromJson for TrainPosition {
    open spec fn json_wf(j: Json) -> bool {
        match j {
            Json::Object(f) => {
                &&& spec_string_field(f@, "TrainId"@) is Some
                &&& spec_string_field(f@, "TrainNumber"@) is Some
                &&& spec_i32_field(f@, "CarCount"@) is Some
                &&& spec_i32_field(f@, "DirectionNum"@) is Some
                &&& spec_i32_field(f@, "CircuitId"@) is Some
                &&& spec_opt_string_field(f@, "DestinationStationCode"@) is Some
                &&& spec_opt_string_field(f@, "LineCode"@) is Some
                &&& spec_i32_field(f@, "SecondsAtLocation"@) is Some
                &&& spec_string_field(f@, "ServiceType"@) is Some
            },
            _ => false,
        }
    }

    open spec fn of_json(self, j: Json) -> bool {
        match j {
            Json::Object(f) => {
                &&& spec_string_field(f@, "TrainId"@) == Some(self.train_id@)
                &&& spec_string_field(f@, "TrainNumber"@) == Some(self.train_number@)
                &&& spec_i32_field(f@, "CarCount"@) == Some(self.car_count)
                &&& spec_i32_field(f@, "DirectionNum"@) == Some(self.direction_number)
                &&& spec_i32_field(f@, "CircuitId"@) == Some(self.circuit_id)
                &&& spec_opt_string_field(f@, "DestinationStationCode"@) == Some(
                    match self.destination_station_code {
                        Some(s) => Some(s@),
                        None => None::<Seq<char>>,
                    },
                )
                &&& spec_opt_string_field(f@, "LineCode"@) == Some(
                    match self.line_code {
                        Some(s) => Some(s@),
                        None => None::<Seq<char>>,
                    },
                )
                &&& spec_i32_field(f@, "SecondsAtLocation"@) == Some(self.seconds_at_location)
                &&& spec_string_field(f@, "ServiceType"@) == Some(self.service_type@)
            },
            _ => false,
        }
    }

    fn from_json(j: &Json) -> (r: Result<Self, Error>) {
        let f = match j {
            Json::Object(f) => f,
            _ => {
                return Err(Error::Decode("expected an object".to_owned()));
            },
        };
        let train_id = match string_field(f, "TrainId") {
            Ok(v) => v,
            Err(e) => {
                return Err(e);
            },
        };
        let train_number = match string_field(f, "TrainNumber") {
            Ok(v) => v,
            Err(e) => {
                return Err(e);
            },
        };
        let car_count = match i32_field(f, "CarCount") {
            Ok(v) => v,
            Err(e) => {
                return Err(e);
            },
        };
        let direction_number = match i32_field(f, "DirectionNum") {
            Ok(v) => v,
            Err(e) => {
                return Err(e);
            },
        };
        let circuit_id = match i32_field(f, "CircuitId") {
            Ok(v) => v,
            Err(e) => {
                return Err(e);
            },
        };
        let destination_station_code = match opt_string_field(f, "DestinationStationCode") {
            Ok(v) => v,
            Err(e) => {
                return Err(e);
            },
        };
        let line_code = match opt_string_field(f, "LineCode") {
            Ok(v) => v,
            Err(e) => {
                return Err(e);
            },
        };
        let seconds_at_location = match i32_field(f, "SecondsAtLocation") {
            Ok(v) => v,
            Err(e) => {
                return Err(e);
            },
        };
        let service_type = match string_field(f, "ServiceType") {
            Ok(v) => v,
            Err(e) => {
                return Err(e);
            },
        };
        Ok(TrainPosition { train_id, train_number, car_count, direction_number, circuit_id, destination_station_code, line_code, seconds_at_location, service_type })
    }
}

/// The live train positions.
#[derive(Debug)]
pub struct TrainPositions {
    /// See [`TrainPosition`].
    pub train_positions: Vec<TrainPosition>,
}

impl FromJson for TrainPositions {
    open spec fn json_wf(j: Json) -> bool {
        match j {
            Json::Object(f) => {
                &&& (spec_array_field(f@, "TrainPositions"@) matches Some(a)
                    && spec_array_wf::<TrainPosition>(a))
            },
            _ => false,
        }
    }

    open spec fn of_json(self, j: Json) -> bool {
        match j {
            Json::Object(f) => {
                &&& (spec_array_field(f@, "TrainPositions"@) matches Some(a)
                    && spec_array_of::<TrainPosition>(self.train_positions@, a))
            },
            _ => false,
        }
    }

    fn from_json(j: &Json) -> (r: Result<Self, Error>) {
        let f = match j {
            Json::Object(f) => f,
            _ => {
                return Err(Error::Decode("expected an object".to_owned()));
            },
        };
        let train_positions = match array_field(f, "TrainPositions") {
            Ok(arr) => match decode_array::<TrainPosition>(arr) {
                Ok(v) => v,
                Err(e) => {
                    return Err(e);
                },
            },
            Err(e) => {
                return Err(e);
            },
        };
        Ok(TrainPositions { train_positions })
    }
}

/// One circuit of a standard route.
#[derive(Debug)]
pub struct TrackCircuitWithStation {
    /// Order in which the circuit appears for the given line and track.
    pub sequence_number: i32,
    /// An internal system-wide uniquely identifiable circuit number.
    pub circuit_id: i32,
    /// Station code, if this circuit is at a station.
    pub station_code: Option<String>,
}

impl FromJson for TrackCircuitWithStation {
    open spec fn json_wf(j: Json) -> bool {
        match j {
            Json::Object(f) => {
                &&& spec_i32_field(f@, "SeqNum"@) is Some
                &&& spec_i32_field(f@, "CircuitId"@) is Some
                &&& spec_opt_string_field(f@, "StationCode"@) is Some
            },
            _ => false,
        }
    }

    open spec fn of_json(self, j: Json) -> bool {
        match j {
            Json::Object(f) => {
                &&& spec_i32_field(f@, "SeqNum"@) == Some(self.sequence_number)
                &&& spec_i32_field(f@, "CircuitId"@) == Some(self.circuit_id)
                &&& spec_opt_string_field(f@, "StationCode"@) == Some(
                    match self.station_code {
                        Some(s) => Some(s@),
                        None => None::<Seq<char>>,
                    },
                )
            },
            _ => false,
        }
    }

    fn from_json(j: &Json) -> (r: Result<Self, Error>) {
        let f = match j {
            Json::Object(f) => f,
            _ => {
                return Err(Error::Decode("expected an object".to_owned()));
            },
        };
        let sequence_number = match i32_field(f, "SeqNum") {
            Ok(v) => v,
            Err(e) => {
                return Err(e);
            },
        };
        let circuit_id = match i32_field(f, "CircuitId") {
            Ok(v) => v,
            Err(e) => {
                return Err(e);
            },
        };
        let station_code = match opt_string_field(f, "StationCode") {
            Ok(v) => v,
            Err(e) => {
                return Err(e);
            },
        };
        Ok(TrackCircuitWithStation { sequence_number, circuit_id, station_code })
    }
}

/// One standard route.
#[derive(Debug)]
pub struct StandardRoute {
    /// Line of this route.
    pub line_code: String,
    /// Track number, 1 or 2.
    pub track_number: i32,
    /// See [`TrackCircuitWithStation`].
    pub track_circuits: Vec<TrackCircuitWithStation>,
}

impl FromJson for StandardRoute {
    open spec fn json_wf(j: Json) -> bool {
        match j {
            Json::Object(f) => {
                &&& spec_string_field(f@, "LineCode"@) is Some
                &&& spec_i32_field(f@, "TrackNum"@) is Some
                &&& (spec_array_field(f@, "TrackCircuits"@) matches Some(a)
                    && spec_array_wf::<TrackCircuitWithStation>(a))
            },
            _ => false,
        }
    }

    open spec fn of_json(self, j: Json) -> bool {
        match j {
            Json::Object(f) => {
                &&& spec_string_field(f@, "LineCode"@) == Some(self.line_code@)
                &&& spec_i32_field(f@, "TrackNum"@) == Some(self.track_number)
                &&& (spec_array_field(f@, "TrackCircuits"@) matches Some(a)
                    && spec_array_of::<TrackCircuitWithStation>(self.track_circuits@, a))
            },
            _ => false,
        }
    }

    fn from_json(j: &Json) -> (r: Result<Self, Error>) {
        let f = match j {
            Json::Object(f) => f,
            _ => {
                return Err(Error::Decode("expected an object".to_owned()));
            },
        };
        let line_code = match string_field(f, "LineCode") {
            Ok(v) => v,
            Err(e) => {
                return Err(e);
            },
        };
        let track_number = match i32_field(f, "TrackNum") {
            Ok(v) => v,
            Err(e) => {
                return Err(e);
            },
        };
        let track_circuits = match array_field(f, "TrackCircuits") {
            Ok(arr) => match decode_array::<TrackCircuitWithStation>(arr) {
                Ok(v) => v,
                Err(e) => {
                    return Err(e);
                },
            },
            Err(e) => {
                return Err(e);
            },
        };
        Ok(StandardRoute { line_code, track_number, track_circuits })
    }
}

/// The standard routes.
#[derive(Debug)]
pub struct StandardRoutes {
    /// See [`StandardRoute`].
    pub standard_routes: Vec<StandardRoute>,
}

impl FromJson for StandardRoutes {
    open spec fn json_wf(j: Json) -> bool {
        match j {
            Json::Object(f) => {
                &&& (spec_array_field(f@, "StandardRoutes"@) matches Some(a)
                    && spec_array_wf::<StandardRoute>(a))
            },
            _ => false,
        }
    }

    open spec fn of_json(self, j: Json) -> bool {
        match j {
            Json::Object(f) => {
                &&& (spec_array_field(f@, "StandardRoutes"@) matches Some(a)
                    && spec_array_of::<StandardRoute>(self.standard_routes@, a))
            },
            _ => false,
        }
    }

    fn from_json(j: &Json) -> (r: Result<Self, Error>) {
        let f = match j {
            Json::Object(f) => f,
            _ => {
                return Err(Error::Decode("expected an object".to_owned()));
            },
        };
        let standard_routes = match array_field(f, "StandardRoutes") {
            Ok(arr) => match decode_array::<StandardRoute>(arr) {
                Ok(v) => v,
                Err(e) => {
                    return Err(e);
                },
            },
            Err(e) => {
                return Err(e);
            },
        };
        Ok(StandardRoutes { standard_routes })
    }
}

/// The neighbors of a track circuit on one side.
#[derive(Debug)]
pub struct TrackNeighbor {
    /// Left or right neighbor group; left is generally west or south, right east or north.
    pub neighbor_type: String,
    /// Neighboring circuit identifiers.
    pub circuit_ids: Vec<i32>,
}

impl FromJson for TrackNeighbor {
    open spec fn json_wf(j: Json) -> bool {
        match j {
            Json::Object(f) => {
                &&& spec_string_field(f@, "NeighborType"@) is Some
                &&& (spec_array_field(f@, "CircuitIds"@) matches Some(a)
                    && spec_i32_array_wf(a))
            },
            _ => false,
        }
    }

    open spec fn of_json(self, j: Json) -> bool {
        match j {
            Json::Object(f) => {
                &&& spec_string_field(f@, "NeighborType"@) == Some(self.neighbor_type@)
                &&& (spec_array_field(f@, "CircuitIds"@) matches Some(a)
                    && spec_i32_array_of(self.circuit_ids@, a))
            },
            _ => false,
        }
    }

    fn from_json(j: &Json) -> (r: Result<Self, Error>) {
        let f = match j {
            Json::Object(f) => f,
            _ => {
                return Err(Error::Decode("expected an object".to_owned()));
            },
        };
        let neighbor_type = match string_field(f, "NeighborType") {
            Ok(v) => v,
            Err(e) => {
                return Err(e);
            },
        };
        let circuit_ids = match array_field(f, "CircuitIds") {
            Ok(arr) => match decode_i32_array(arr) {
                Ok(v) => v,
                Err(e) => {
                    return Err(e);
                },
            },
            Err(e) => {
                return Err(e);
            },
        };
        Ok(TrackNeighbor { neighbor_type, circuit_ids })
    }
}

/// One track circuit.
#[derive(Debug)]
pub struct TrackCircuit {
    /// Track number; 1 and 2 are main lines, 0 and 3 connectors and pocket tracks.
    pub track: i32,
    /// An internal system-wide uniquely identifiable circuit number.
    pub circuit_id: i32,
    /// See [`TrackNeighbor`].
    pub neighbors: Vec<TrackNeighbor>,
}

impl FromJson for TrackCircuit {
    open spec fn json_wf(j: Json) -> bool {
        match j {
            Json::Object(f) => {
                &&& spec_i32_field(f@, "Track"@) is Some
                &&& spec_i32_field(f@, "CircuitId"@) is Some
                &&& (spec_array_field(f@, "Neighbors"@) matches Some(a)
                    && spec_array_wf::<TrackNeighbor>(a))
            },
            _ => false,
        }
    }

    open spec fn of_json(self, j: Json) -> bool {
        match j {
            Json::Object(f) => {
                &&& spec_i32_field(f@, "Track"@) == Some(self.track)
                &&& spec_i32_field(f@, "CircuitId"@) == Some(self.circuit_id)
                &&& (spec_array_field(f@, "Neighbors"@) matches Some(a)
                    && spec_array_of::<TrackNeighbor>(self.neighbors@, a))
            },
            _ => false,
        }
    }

    fn from_json(j: &Json) -> (r: Result<Self, Error>) {
        let f = match j {
            Json::Object(f) => f,
            _ => {
                return Err(Error::Decode("expected an object".to_owned()));
            },
        };
        let track = match i32_field(f, "Track") {
            Ok(v) => v,
            Err(e) => {
                return Err(e);
            },
        };
        let circuit_id = match i32_field(f, "CircuitId") {
            Ok(v) => v,
            Err(e) => {
                return Err(e);
            },
        };
        let neighbors = match array_field(f, "Neighbors") {
            Ok(arr) => match decode_array::<TrackNeighbor>(arr) {
                Ok(v) => v,
                Err(e) => {
                    return Err(e);
                },
            },
            Err(e) => {
                return Err(e);
            },
        };
        Ok(TrackCircuit { track, circuit_id, neighbors })
    }
}

/// The track circuits.
#[derive(Debug)]
pub struct TrackCircuits {
    /// See [`TrackCircuit`].
    pub track_circuits: Vec<TrackCircuit>,
}

impl FromJson for TrackCircuits {
    open spec fn json_wf(j: Json) -> bool {
        match j {
            Json::Object(f) => {
                &&& (spec_array_field(f@, "TrackCircuits"@) matches Some(a)
                    && spec_array_wf::<TrackCircuit>(a))
            },
            _ => false,
        }
    }

    open spec fn of_json(self, j: Json) -> bool {
        match j {
            Json::Object(f) => {
                &&& (spec_array_field(f@, "TrackCircuits"@) matches Some(a)
                    && spec_array_of::<TrackCircuit>(self.track_circuits@, a))
            },
            _ => false,
        }
    }

    fn from_json(j: &Json) -> (r: Result<Self, Error>) {
        let f = match j {
            Json::Object(f) => f,
            _ => {
                return Err(Error::Decode("expected an object".to_owned()));
            },
        };
        let track_circuits = match array_field(f, "TrackCircuits") {
            Ok(arr) => match decode_array::<TrackCircuit>(arr) {
                Ok(v) => v,
                Err(e) => {
                    return Err(e);
                },
            },
            Err(e) => {
                return Err(e);
            },
        };
        Ok(TrackCircuits { track_circuits })
    }
}

/// One elevator or escalator incident; the deprecated display order stays decimal text.
#[derive(Debug)]
pub struct ElevatorAndEscalatorIncident {
    /// Unique identifier for the unit, by type.
    pub unit_name: String,
    /// Type of unit: ELEVATOR or ESCALATOR.
    pub unit_type: String,
    /// Warning: deprecated upstream.
    pub unit_status: Option<String>,
    /// Station code of the incident.
    pub station_code: String,
    /// Full station name; may include entrance information.
    pub station_name: String,
    /// Free-text description of the unit location within the station.
    pub location_description: String,
    /// Warning: deprecated upstream.
    pub symptom_code: Option<String>,
    /// Warning: deprecated upstream; use the time portion of the out-of-service date.
    pub time_out_of_service: String,
    /// Description of why the unit is out of service.
    pub symptom_description: String,
    /// Warning: deprecated upstream; kept as decimal text.
    pub display_order: String,
    /// Date and time the unit was reported out of service.
    pub date_out_of_service: String,
    /// Date and time the outage details were last updated.
    pub date_updated: String,
    /// Estimated date and time the unit returns to normal service.
    pub estimated_return_to_service: Option<String>,
}

impl FromJson for ElevatorAndEscalatorIncident {
    open spec fn json_wf(j: Json) -> bool {
        match j {
            Json::Object(f) => {
                &&& spec_string_field(f@, "UnitName"@) is Some
                &&& spec_string_field(f@, "UnitType"@) is Some
                &&& spec_opt_string_field(f@, "UnitStatus"@) is Some
                &&& spec_string_field(f@, "StationCode"@) is Some
                &&& spec_string_field(f@, "StationName"@) is Some
                &&& spec_string_field(f@, "LocationDescription"@) is Some
                &&& spec_opt_string_field(f@, "SymptomCode"@) is Some
                &&& spec_string_field(f@, "TimeOutOfService"@) is Some
                &&& spec_string_field(f@, "SymptomDescription"@) is Some
                &&& spec_number_field(f@, "DisplayOrder"@) is Some
                &&& spec_string_field(f@, "DateOutOfServ"@) is Some
                &&& spec_string_field(f@, "DateUpdated"@) is Some
                &&& spec_opt_string_field(f@, "EstimatedReturnToService"@) is Some
            },
            _ => false,
        }
    }

    open spec fn of_json(self, j: Json) -> bool {
        match j {
            Json::Object(f) => {
                &&& spec_string_field(f@, "UnitName"@) == Some(self.unit_name@)
                &&& spec_string_field(f@, "UnitType"@) == Some(self.unit_type@)
                &&& spec_opt_string_field(f@, "UnitStatus"@) == Some(
                    match self.unit_status {
                        Some(s) => Some(s@),
                        None => None::<Seq<char>>,
                    },
                )
                &&& spec_string_field(f@, "StationCode"@) == Some(self.station_code@)
                &&& spec_string_field(f@, "StationName"@) == Some(self.station_name@)
                &&& spec_string_field(f@, "LocationDescription"@) == Some(self.location_description@)
                &&& spec_opt_string_field(f@, "SymptomCode"@) == Some(
                    match self.symptom_code {
                        Some(s) => Some(s@),
                        None => None::<Seq<char>>,
                    },
                )
                &&& spec_string_field(f@, "TimeOutOfService"@) == Some(self.time_out_of_service@)
                &&& spec_string_field(f@, "SymptomDescription"@) == Some(self.symptom_description@)
                &&& spec_number_field(f@, "DisplayOrder"@) == Some(self.display_order@)
                &&& spec_string_field(f@, "DateOutOfServ"@) == Some(self.date_out_of_service@)
                &&& spec_string_field(f@, "DateUpdated"@) == Some(self.date_updated@)
                &&& spec_opt_string_field(f@, "EstimatedReturnToService"@) == Some(
                    match self.estimated_return_to_service {
                        Some(s) => Some(s@),
                        None => None::<Seq<char>>,
                    },
                )
            },
            _ => false,
        }
    }

    fn from_json(j: &Json) -> (r: Result<Self, Error>) {
        let f = match j {
            Json::Object(f) => f,
            _ => {
                return Err(Error::Decode("expected an object".to_owned()));
            },
        };
        let unit_name = match string_field(f, "UnitName") {
            Ok(v) => v,
            Err(e) => {
                return Err(e);
            },
        };
        let unit_type = match string_field(f, "UnitType") {
            Ok(v) => v,
            Err(e) => {
                return Err(e);
            },
        };
        let unit_status = match opt_string_field(f, "UnitStatus") {
            Ok(v) => v,
            Err(e) => {
                return Err(e);
            },
        };
        let station_code = match string_field(f, "StationCode") {
            Ok(v) => v,
            Err(e) => {
                return Err(e);
            },
        };
        let station_name = match string_field(f, "StationName") {
            Ok(v) => v,
            Err(e) => {
                return Err(e);
            },
        };
        let location_description = match string_field(f, "LocationDescription") {
            Ok(v) => v,
            Err(e) => {
                return Err(e);
            },
        };
        let symptom_code = match opt_string_field(f, "SymptomCode") {
            Ok(v) => v,
            Err(e) => {
                return Err(e);
            },
        };
        let time_out_of_service = match string_field(f, "TimeOutOfService") {
            Ok(v) => v,
            Err(e) => {
                return Err(e);
            },
        };
        let symptom_description = match string_field(f, "SymptomDescription") {
            Ok(v) => v,
            Err(e) => {
                return Err(e);
            },
        };
        let display_order = match number_field(f, "DisplayOrder") {
            Ok(v) => v,
            Err(e) => {
                return Err(e);
            },
        };
        let date_out_of_service = match string_field(f, "DateOutOfServ") {
            Ok(v) => v,
            Err(e) => {
                return Err(e);
            },
        };
        let date_updated = match string_field(f, "DateUpdated") {
            Ok(v) => v,
            Err(e) => {
                return Err(e);
            },
        };
        let estimated_return_to_service = match opt_string_field(f, "EstimatedReturnToService") {
            Ok(v) => v,
            Err(e) => {
                return Err(e);
            },
        };
        Ok(ElevatorAndEscalatorIncident { unit_name, unit_type, unit_status, station_code, station_name, location_description, symptom_code, time_out_of_service, symptom_description, display_order, date_out_of_service, date_updated, estimated_return_to_service })
    }
}

/// The elevator and escalator incidents.
#[derive(Debug)]
pub struct ElevatorAndEscalatorIncidents {
    /// See [`ElevatorAndEscalatorIncident`].
    pub incidents: Vec<ElevatorAndEscalatorIncident>,
}

impl FromJson for ElevatorAndEscalatorIncidents {
    open spec fn json_wf(j: Json) -> bool {
        match j {
            Json::Object(f) => {
                &&& (spec_array_field(f@, "ElevatorIncidents"@) matches Some(a)
                    && spec_array_wf::<ElevatorAndEscalatorIncident>(a))
            },
            _ => false,
        }
    }

    open spec fn of_json(self, j: Json) -> bool {
        match j {
            Json::Object(f) => {
                &&& (spec_array_field(f@, "ElevatorIncidents"@) matches Some(a)
                    && spec_array_of::<ElevatorAndEscalatorIncident>(self.incidents@, a))
            },
            _ => false,
        }
    }

    fn from_json(j: &Json) -> (r: Result<Self, Error>) {
        let f = match j {
            Json::Object(f) => f,
            _ => {
                return Err(Error::Decode("expected an object".to_owned()));
            },
        };
        let incidents = match array_field(f, "ElevatorIncidents") {
            Ok(arr) => match decode_array::<ElevatorAndEscalatorIncident>(arr) {
                Ok(v) => v,
                Err(e) => {
                    return Err(e);
                },
            },
            Err(e) => {
                return Err(e);
            },
        };
        Ok(ElevatorAndEscalatorIncidents { incidents })
    }
}

/// One rail incident; the deprecated passenger delay stays decimal text.
#[derive(Debug)]
pub struct RailIncident {
    /// Unique identifier for an incident.
    pub incident_id: String,
    /// Free-text description of the incident.
    pub description: String,
    /// Warning: deprecated upstream.
    pub start_location_full_name: Option<String>,
    /// Warning: deprecated upstream.
    pub end_location_full_name: Option<String>,
    /// Warning: deprecated upstream; kept as decimal text.
    pub passenger_delay: String,
    /// Warning: deprecated upstream.
    pub delay_severity: Option<String>,
    /// Free-text description of the incident type, usually Delay or Alert.
    pub incident_type: String,
    /// Warning: deprecated upstream.
    pub emergency_text: Option<String>,
    /// Semicolon and space separated list of line codes.
    pub lines_affected: String,
    /// Date and time of the last update.
    pub date_updated: String,
}

impl FromJson for RailIncident {
    open spec fn json_wf(j: Json) -> bool {
        match j {
            Json::Object(f) => {
                &&& spec_string_field(f@, "IncidentID"@) is Some
                &&& spec_string_field(f@, "Description"@) is Some
                &&& spec_opt_string_field(f@, "StartLocationFullName"@) is Some
                &&& spec_opt_string_field(f@, "EndLocationFullName"@) is Some
                &&& spec_number_field(f@, "PassengerDelay"@) is Some
                &&& spec_opt_string_field(f@, "DelaySeverity"@) is Some
                &&& spec_string_field(f@, "IncidentType"@) is Some
                &&& spec_opt_string_field(f@, "EmergencyText"@) is Some
                &&& spec_string_field(f@, "LinesAffected"@) is Some
                &&& spec_string_field(f@, "DateUpdated"@) is Some
            },
            _ => false,
        }
    }

    open spec fn of_json(self, j: Json) -> bool {
        match j {
            Json::Object(f) => {
                &&& spec_string_field(f@, "IncidentID"@) == Some(self.incident_id@)
                &&& spec_string_field(f@, "Description"@) == Some(self.description@)
                &&& spec_opt_string_field(f@, "StartLocationFullName"@) == Some(
                    match self.start_location_full_name {
                        Some(s) => Some(s@),
                        None => None::<Seq<char>>,
                    },
                )
                &&& spec_opt_string_field(f@, "EndLocationFullName"@) == Some(
                    match self.end_location_full_name {
                        Some(s) => Some(s@),
                        None => None::<Seq<char>>,
                    },
                )
                &&& spec_number_field(f@, "PassengerDelay"@) == Some(self.passenger_delay@)
                &&& spec_opt_string_field(f@, "DelaySeverity"@) == Some(
                    match self.delay_severity {
                        Some(s) => Some(s@),
                        None => None::<Seq<char>>,
                    },
                )
                &&& spec_string_field(f@, "IncidentType"@) == Some(self.incident_type@)
                &&& spec_opt_string_field(f@, "EmergencyText"@) == Some(
                    match self.emergency_text {
                        Some(s) => Some(s@),
                        None => None::<Seq<char>>,
                    },
                )
                &&& spec_string_field(f@, "LinesAffected"@) == Some(self.lines_affected@)
                &&& spec_string_field(f@, "DateUpdated"@) == Some(self.date_updated@)
            },
            _ => false,
        }
    }

    fn from_json(j: &Json) -> (r: Result<Self, Error>) {
        let f = match j {
            Json::Object(f) => f,
            _ => {
                return Err(Error::Decode("expected an object".to_owned()));
            },
        };
        let incident_id = match string_field(f, "IncidentID") {
            Ok(v) => v,
            Err(e) => {
                return Err(e);
            },
        };
        let description = match string_field(f, "Description") {
            Ok(v) => v,
            Err(e) => {
                return Err(e);
            },
        };
        let start_location_full_name = match opt_string_field(f, "StartLocationFullName") {
            Ok(v) => v,
            Err(e) => {
                return Err(e);
            },
        };
        let end_location_full_name = match opt_string_field(f, "EndLocationFullName") {
            Ok(v) => v,
            Err(e) => {
                return Err(e);
            },
        };
        let passenger_delay = match number_field(f, "PassengerDelay") {
            Ok(v) => v,
            Err(e) => {
                return Err(e);
            },
        };
        let delay_severity = match opt_string_field(f, "DelaySeverity") {
            Ok(v) => v,
            Err(e) => {
                return Err(e);
            },
        };
        let incident_type = match string_field(f, "IncidentType") {
            Ok(v) => v,
            Err(e) => {
                return Err(e);
            },
        };
        let emergency_text = match opt_string_field(f, "EmergencyText") {
            Ok(v) => v,
            Err(e) => {
                return Err(e);
            },
        };
        let lines_affected = match string_field(f, "LinesAffected") {
            Ok(v) => v,
            Err(e) => {
                return Err(e);
            },
        };
        let date_updated = match string_field(f, "DateUpdated") {
            Ok(v) => v,
            Err(e) => {
                return Err(e);
            },
        };
        Ok(RailIncident { incident_id, description, start_location_full_name, end_location_full_name, passenger_delay, delay_severity, incident_type, emergency_text, lines_affected, date_updated })
    }
}

/// The rail incidents.
#[derive(Debug)]
pub struct RailIncidents {
    /// See [`RailIncident`].
    pub incidents: Vec<RailIncident>,
}

impl FromJson for RailIncidents {
    open spec fn json_wf(j: Json) -> bool {
        match j {
            Json::Object(f) => {
                &&& (spec_array_field(f@, "Incidents"@) matches Some(a)
                    && spec_array_wf::<RailIncident>(a))
            },
            _ => false,
        }
    }

    open spec fn of_json(self, j: Json) -> bool {
        match j {
            Json::Object(f) => {
                &&& (spec_array_field(f@, "Incidents"@) matches Some(a)
                    && spec_array_of::<RailIncident>(self.incidents@, a))
            },
            _ => false,
        }
    }

    fn from_json(j: &Json) -> (r: Result<Self, Error>) {
        let f = match j {
            Json::Object(f) => f,
            _ => {
                return Err(Error::Decode("expected an object".to_owned()));
            },
        };
        let incidents = match array_field(f, "Incidents") {
            Ok(arr) => match decode_array::<RailIncident>(arr) {
                Ok(v) => v,
                Err(e) => {
                    return Err(e);
                },
            },
            Err(e) => {
                return Err(e);
            },
        };
        Ok(RailIncidents { incidents })
    }
}

/// Fares between two stations, kept as decimal text.
#[derive(Debug)]
pub struct RailFare {
    /// Fare during off-peak times, as decimal text.
    pub off_peak_time: String,
    /// Fare during peak times, as decimal text.
    pub peak_time: String,
    /// Reduced fare for senior citizens or people with disabilities, as decimal text.
    pub senior_disabled: String,
}

impl FromJson for RailFare {
    open spec fn json_wf(j: Json) -> bool {
        match j {
            Json::Object(f) => {
                &&& spec_number_field(f@, "OffPeakTime"@) is Some
                &&& spec_number_field(f@, "PeakTime"@) is Some
                &&& spec_number_field(f@, "SeniorDisabled"@) is Some
            },
            _ => false,
        }
    }

    open spec fn of_json(self, j: Json) -> bool {
        match j {
            Json::Object(f) => {
                &&& spec_number_field(f@, "OffPeakTime"@) == Some(self.off_peak_time@)
                &&& spec_number_field(f@, "PeakTime"@) == Some(self.peak_time@)
                &&& spec_number_field(f@, "SeniorDisabled"@) == Some(self.senior_disabled@)
            },
            _ => false,
        }
    }

    fn from_json(j: &Json) -> (r: Result<Self, Error>) {
        let f = match j {
            Json::Object(f) => f,
            _ => {
                return Err(Error::Decode("expected an object".to_owned()));
            },
        };
        let off_peak_time = match number_field(f, "OffPeakTime") {
            Ok(v) => v,
            Err(e) => {
                return Err(e);
            },
        };
        let peak_time = match number_field(f, "PeakTime") {
            Ok(v) => v,
            Err(e) => {
                return Err(e);
            },
        };
        let senior_disabled = match number_field(f, "SeniorDisabled") {
            Ok(v) => v,
            Err(e) => {
                return Err(e);
            },
        };
        Ok(RailFare { off_peak_time, peak_time, senior_disabled })
    }
}

/// Distance, fare and time between two stations; miles stay decimal text.
#[derive(Debug)]
pub struct StationToStationInfo {
    /// Average of distance traveled between two stations and straight-line distance, as decimal text.
    pub composite_miles: String,
    /// Destination station code.
    pub destination_station: String,
    /// Structure containing fare information.
    pub rail_fare: RailFare,
    /// Estimated travel time in minutes between the source and destination station.
    pub rail_time: i32,
    /// Origin station code.
    pub source_station: String,
}

impl FromJson for StationToStationInfo {
    open spec fn json_wf(j: Json) -> bool {
        match j {
            Json::Object(f) => {
                &&& spec_number_field(f@, "CompositeMiles"@) is Some
                &&& spec_string_field(f@, "DestinationStation"@) is Some
                &&& (spec_field(f@, "RailFare"@) matches Some(x)
                    && RailFare::json_wf(x))
                &&& spec_i32_field(f@, "RailTime"@) is Some
                &&& spec_string_field(f@, "SourceStation"@) is Some
            },
            _ => false,
        }
    }

    open spec fn of_json(self, j: Json) -> bool {
        match j {
            Json::Object(f) => {
                &&& spec_number_field(f@, "CompositeMiles"@) == Some(self.composite_miles@)
                &&& spec_string_field(f@, "DestinationStation"@) == Some(self.destination_station@)
                &&& (spec_field(f@, "RailFare"@) matches Some(x)
                    && self.rail_fare.of_json(x))
                &&& spec_i32_field(f@, "RailTime"@) == Some(self.rail_time)
                &&& spec_string_field(f@, "SourceStation"@) == Some(self.source_station@)
            },
            _ => false,
        }
    }

    fn from_json(j: &Json) -> (r: Result<Self, Error>) {
        let f = match j {
            Json::Object(f) => f,
            _ => {
                return Err(Error::Decode("expected an object".to_owned()));
            },
        };
        let composite_miles = match number_field(f, "CompositeMiles") {
            Ok(v) => v,
            Err(e) => {
                return Err(e);
            },
        };
        let destination_station = match string_field(f, "DestinationStation") {
            Ok(v) => v,
            Err(e) => {
                return Err(e);
            },
        };
        let rail_fare = match field(f, "RailFare") {
            Some(x) => match RailFare::from_json(x) {
                Ok(v) => v,
                Err(e) => {
                    return Err(e);
                },
            },
            None => {
                return Err(field_error("RailFare"));
            },
        };
        let rail_time = match i32_field(f, "RailTime") {
            Ok(v) => v,
            Err(e) => {
                return Err(e);
            },
        };
        let source_station = match string_field(f, "SourceStation") {
            Ok(v) => v,
            Err(e) => {
                return Err(e);
            },
        };
        Ok(StationToStationInfo { composite_miles, destination_station, rail_fare, rail_time, source_station })
    }
}

/// The matched station-to-station records.
#[derive(Debug)]
pub struct StationToStationInfos {
    /// See [`StationToStationInfo`].
    pub station_to_station_infos: Vec<StationToStationInfo>,
}

impl FromJson for StationToStationInfos {
    open spec fn json_wf(j: Json) -> bool {
        match j {
            Json::Object(f) => {
                &&& (spec_array_field(f@, "StationToStationInfos"@) matches Some(a)
                    && spec_array_wf::<StationToStationInfo>(a))
            },
            _ => false,
        }
    }

    open spec fn of_json(self, j: Json) -> bool {
        match j {
            Json::Object(f) => {
                &&& (spec_array_field(f@, "StationToStationInfos"@) matches Some(a)
                    && spec_array_of::<StationToStationInfo>(self.station_to_station_infos@, a))
            },
            _ => false,
        }
    }

    fn from_json(j: &Json) -> (r: Result<Self, Error>) {
        let f = match j {
            Json::Object(f) => f,
            _ => {
                return Err(Error::Decode("expected an object".to_owned()));
            },
        };
        let station_to_station_infos = match array_field(f, "StationToStationInfos") {
            Ok(arr) => match decode_array::<StationToStationInfo>(arr) {
                Ok(v) => v,
                Err(e) => {
                    return Err(e);
                },
            },
            Err(e) => {
                return Err(e);
            },
        };
        Ok(StationToStationInfos { station_to_station_infos })
    }
}

/// One next-train arrival prediction.
#[derive(Debug)]
pub struct RailPrediction {
    /// Number of cars on the train, usually 6 or 8.
    pub car: Option<String>,
    /// Abbreviated version of the final destination of the train.
    pub destination: String,
    /// Destination station code.
    pub destination_code: Option<String>,
    /// Full name of the destination station, when the code is populated.
    pub destination_name: String,
    /// Denotes the track this train is on.
    pub group: String,
    /// Two-letter abbreviation for the line; may be blank or No for trains with no passengers.
    pub line: String,
    /// Station code where the train is arriving.
    pub location_code: String,
    /// Full name of the station where the train is arriving.
    pub location_name: String,
    /// Minutes until arrival: a numeric value, ARR, BRD, ---, or empty.
    pub minutes: String,
}

impl FromJson for RailPrediction {
    open spec fn json_wf(j: Json) -> bool {
        match j {
            Json::Object(f) => {
                &&& spec_opt_string_field(f@, "Car"@) is Some
                &&& spec_string_field(f@, "Destination"@) is Some
                &&& spec_opt_string_field(f@, "DestinationCode"@) is Some
                &&& spec_string_field(f@, "DestinationName"@) is Some
                &&& spec_string_field(f@, "Group"@) is Some
                &&& spec_string_field(f@, "Line"@) is Some
                &&& spec_string_field(f@, "LocationCode"@) is Some
                &&& spec_string_field(f@, "LocationName"@) is Some
                &&& spec_string_field(f@, "Min"@) is Some
            },
            _ => false,
        }
    }

    open spec fn of_json(self, j: Json) -> bool {
        match j {
            Json::Object(f) => {
                &&& spec_opt_string_field(f@, "Car"@) == Some(
                    match self.car {
                        Some(s) => Some(s@),
                        None => None::<Seq<char>>,
                    },
                )
                &&& spec_string_field(f@, "Destination"@) == Some(self.destination@)
                &&& spec_opt_string_field(f@, "DestinationCode"@) == Some(
                    match self.destination_code {
                        Some(s) => Some(s@),
                        None => None::<Seq<char>>,
                    },
                )
                &&& spec_string_field(f@, "DestinationName"@) == Some(self.destination_name@)
                &&& spec_string_field(f@, "Group"@) == Some(self.group@)
                &&& spec_string_field(f@, "Line"@) == Some(self.line@)
                &&& spec_string_field(f@, "LocationCode"@) == Some(self.location_code@)
                &&& spec_string_field(f@, "LocationName"@) == Some(self.location_name@)
                &&& spec_string_field(f@, "Min"@) == Some(self.minutes@)
            },
            _ => false,
        }
    }

    fn from_json(j: &Json) -> (r: Result<Self, Error>) {
        let f = match j {
            Json::Object(f) => f,
            _ => {
                return Err(Error::Decode("expected an object".to_owned()));
            },
        };
        let car = match opt_string_field(f, "Car") {
            Ok(v) => v,
            Err(e) => {
                return Err(e);
            },
        };
        let destination = match string_field(f, "Destination") {
            Ok(v) => v,
            Err(e) => {
                return Err(e);
            },
        };
        let destination_code = match opt_string_field(f, "DestinationCode") {
            Ok(v) => v,
            Err(e) => {
                return Err(e);
            },
        };
        let destination_name = match string_field(f, "DestinationName") {
            Ok(v) => v,
            Err(e) => {
                return Err(e);
            },
        };
        let group = match string_field(f, "Group") {
            Ok(v) => v,
            Err(e) => {
                return Err(e);
            },
        };
        let line = match string_field(f, "Line") {
            Ok(v) => v,
            Err(e) => {
                return Err(e);
            },
        };
        let location_code = match string_field(f, "LocationCode") {
            Ok(v) => v,
            Err(e) => {
                return Err(e);
            },
        };
        let location_name = match string_field(f, "LocationName") {
            Ok(v) => v,
            Err(e) => {
                return Err(e);
            },
        };
        let minutes = match string_field(f, "Min") {
            Ok(v) => v,
            Err(e) => {
                return Err(e);
            },
        };
        Ok(RailPrediction { car, destination, destination_code, destination_name, group, line, location_code, location_name, minutes })
    }
}

/// The next trains at a station.
#[derive(Debug)]
pub struct RailPredictions {
    /// See [`RailPrediction`].
    pub trains: Vec<RailPrediction>,
}

impl FromJson for RailPredictions {
    open spec fn json_wf(j: Json) -> bool {
        match j {
            Json::Object(f) => {
                &&& (spec_array_field(f@, "Trains"@) matches Some(a)
                    && spec_array_wf::<RailPrediction>(a))
            },
            _ => false,
        }
    }

    open spec fn of_json(self, j: Json) -> bool {
        match j {
            Json::Object(f) => {
                &&& (spec_array_field(f@, "Trains"@) matches Some(a)
                    && spec_array_of::<RailPrediction>(self.trains@, a))
            },
            _ => false,
        }
    }

    fn from_json(j: &Json) -> (r: Result<Self, Error>) {
        let f = match j {
            Json::Object(f) => f,
            _ => {
                return Err(Error::Decode("expected an object".to_owned()));
            },
        };
        let trains = match array_field(f, "Trains") {
            Ok(arr) => match decode_array::<RailPrediction>(arr) {
                Ok(v) => v,
                Err(e) => {
                    return Err(e);
                },
            },
            Err(e) => {
                return Err(e);
            },
        };
        Ok(RailPredictions { trains })
    }
}

/// Address of a station, from the station metadata endpoint.
#[derive(Debug)]
pub struct StationAddress {
    /// City of this station.
    pub city: String,
    /// State of this station.
    pub state: String,
    /// Street address (for GPS use) of this station.
    pub street: String,
    /// Zip code of this station.
    pub zip: String,
}

impl FromJson for StationAddress {
    open spec fn json_wf(j: Json) -> bool {
        match j {
            Json::Object(f) => {
                &&& spec_string_field(f@, "City"@) is Some
                &&& spec_string_field(f@, "State"@) is Some
                &&& spec_string_field(f@, "Street"@) is Some
                &&& spec_string_field(f@, "Zip"@) is Some
            },
            _ => false,
        }
    }

    open spec fn of_json(self, j: Json) -> bool {
        match j {
            Json::Object(f) => {
                &&& spec_string_field(f@, "City"@) == Some(self.city@)
                &&& spec_string_field(f@, "State"@) == Some(self.state@)
                &&& spec_string_field(f@, "Street"@) == Some(self.street@)
                &&& spec_string_field(f@, "Zip"@) == Some(self.zip@)
            },
            _ => false,
        }
    }

    fn from_json(j: &Json) -> (r: Result<Self, Error>) {
        let f = match j {
            Json::Object(f) => f,
            _ => {
                return Err(Error::Decode("expected an object".to_owned()));
            },
        };
        let city = match string_field(f, "City") {
            Ok(v) => v,
            Err(e) => {
                return Err(e);
            },
        };
        let state = match string_field(f, "State") {
            Ok(v) => v,
            Err(e) => {
                return Err(e);
            },
        };
        let street = match string_field(f, "Street") {
            Ok(v) => v,
            Err(e) => {
                return Err(e);
            },
        };
        let zip = match string_field(f, "Zip") {
            Ok(v) => v,
            Err(e) => {
                return Err(e);
            },
        };
        Ok(StationAddress { city, state, street, zip })
    }
}

/// Metadata of one station; coordinates stay decimal text.
#[derive(Debug)]
pub struct StationInformation {
    /// Structure describing address information.
    pub address: StationAddress,
    /// Station code of this station.
    pub code: String,
    /// Latitude of this station, as decimal text.
    pub latitude: String,
    /// Longitude of this station, as decimal text.
    pub longitude: String,
    /// First line of this station.
    pub first_line_code: String,
    /// Second line of this station.
    pub second_line_code: Option<String>,
    /// Third line of this station.
    pub third_line_code: Option<String>,
    /// Fourth line of this station.
    pub fourth_line_code: Option<String>,
    /// Station name.
    pub name: String,
    /// For stations with multiple platforms, the additional station code.
    pub first_station_together: String,
    /// Similar in function to the first; currently not in use.
    pub second_station_together: String,
}

impl FromJson for StationInformation {
    open spec fn json_wf(j: Json) -> bool {
        match j {
            Json::Object(f) => {
                &&& (spec_field(f@, "Address"@) matches Some(x)
                    && StationAddress::json_wf(x))
                &&& spec_string_field(f@, "Code"@) is Some
                &&& spec_number_field(f@, "Lat"@) is Some
                &&& spec_number_field(f@, "Lon"@) is Some
                &&& spec_string_field(f@, "LineCode1"@) is Some
                &&& spec_opt_string_field(f@, "LineCode2"@) is Some
                &&& spec_opt_string_field(f@, "LineCode3"@) is Some
                &&& spec_opt_string_field(f@, "LineCode4"@) is Some
                &&& spec_string_field(f@, "Name"@) is Some
                &&& spec_string_field(f@, "StationTogether1"@) is Some
                &&& spec_string_field(f@, "StationTogether2"@) is Some
            },
            _ => false,
        }
    }

    open spec fn of_json(self, j: Json) -> bool {
        match j {
            Json::Object(f) => {
                &&& (spec_field(f@, "Address"@) matches Some(x)
                    && self.address.of_json(x))
                &&& spec_string_field(f@, "Code"@) == Some(self.code@)
                &&& spec_number_field(f@, "Lat"@) == Some(self.latitude@)
                &&& spec_number_field(f@, "Lon"@) == Some(self.longitude@)
                &&& spec_string_field(f@, "LineCode1"@) == Some(self.first_line_code@)
                &&& spec_opt_string_field(f@, "LineCode2"@) == Some(
                    match self.second_line_code {
                        Some(s) => Some(s@),
                        None => None::<Seq<char>>,
                    },
                )
                &&& spec_opt_string_field(f@, "LineCode3"@) == Some(
                    match self.third_line_code {
                        Some(s) => Some(s@),
                        None => None::<Seq<char>>,
                    },
                )
                &&& spec_opt_string_field(f@, "LineCode4"@) == Some(
                    match self.fourth_line_code {
                        Some(s) => Some(s@),
                        None => None::<Seq<char>>,
                    },
                )
                &&& spec_string_field(f@, "Name"@) == Some(self.name@)
                &&& spec_string_field(f@, "StationTogether1"@) == Some(self.first_station_together@)
                &&& spec_string_field(f@, "StationTogether2"@) == Some(self.second_station_together@)
            },
            _ => false,
        }
    }

    fn from_json(j: &Json) -> (r: Result<Self, Error>) {
        let f = match j {
            Json::Object(f) => f,
            _ => {
                return Err(Error::Decode("expected an object".to_owned()));
            },
        };
        let address = match field(f, "Address") {
            Some(x) => match StationAddress::from_json(x) {
                Ok(v) => v,
                Err(e) => {
                    return Err(e);
                },
            },
            None => {
                return Err(field_error("Address"));
            },
        };
        let code = match string_field(f, "Code") {
            Ok(v) => v,
            Err(e) => {
                return Err(e);
            },
        };
        let latitude = match number_field(f, "Lat") {
            Ok(v) => v,
            Err(e) => {
                return Err(e);
            },
        };
        let longitude = match number_field(f, "Lon") {
            Ok(v) => v,
            Err(e) => {
                return Err(e);
            },
        };
        let first_line_code = match string_field(f, "LineCode1") {
            Ok(v) => v,
            Err(e) => {
                return Err(e);
            },
        };
        let second_line_code = match opt_string_field(f, "LineCode2") {
            Ok(v) => v,
            Err(e) => {
                return Err(e);
            },
        };
        let third_line_code = match opt_string_field(f, "LineCode3") {
            Ok(v) => v,
            Err(e) => {
                return Err(e);
            },
        };
        let fourth_line_code = match opt_string_field(f, "LineCode4") {
            Ok(v) => v,
            Err(e) => {
                return Err(e);
            },
        };
        let name = match string_field(f, "Name") {
            Ok(v) => v,
            Err(e) => {
                return Err(e);
            },
        };
        let first_station_together = match string_field(f, "StationTogether1") {
            Ok(v) => v,
            Err(e) => {
                return Err(e);
            },
        };
        let second_station_together = match string_field(f, "StationTogether2") {
            Ok(v) => v,
            Err(e) => {
                return Err(e);
            },
        };
        Ok(StationInformation { address, code, latitude, longitude, first_line_code, second_line_code, third_line_code, fourth_line_code, name, first_station_together, second_station_together })
    }
}

/// One station along a path.
#[derive(Debug)]
pub struct Path {
    /// Distance in feet to the previous station in the list.
    pub distance_to_previous_station: i32,
    /// Line of this station.
    pub line_code: String,
    /// Ordered sequence number.
    pub sequence_number: i32,
    /// Station code of this station.
    pub station_code: String,
    /// Full name of this station.
    pub station_name: String,
}

impl FromJson for Path {
    open spec fn json_wf(j: Json) -> bool {
        match j {
            Json::Object(f) => {
                &&& spec_i32_field(f@, "DistanceToPrev"@) is Some
                &&& spec_string_field(f@, "LineCode"@) is Some
                &&& spec_i32_field(f@, "SeqNum"@) is Some
                &&& spec_string_field(f@, "StationCode"@) is Some
                &&& spec_string_field(f@, "StationName"@) is Some
            },
            _ => false,
        }
    }

    open spec fn of_json(self, j: Json) -> bool {
        match j {
            Json::Object(f) => {
                &&& spec_i32_field(f@, "DistanceToPrev"@) == Some(self.distance_to_previous_station)
                &&& spec_string_field(f@, "LineCode"@) == Some(self.line_code@)
                &&& spec_i32_field(f@, "SeqNum"@) == Some(self.sequence_number)
                &&& spec_string_field(f@, "StationCode"@) == Some(self.station_code@)
                &&& spec_string_field(f@, "StationName"@) == Some(self.station_name@)
            },
            _ => false,
        }
    }

    fn from_json(j: &Json) -> (r: Result<Self, Error>) {
        let f = match j {
            Json::Object(f) => f,
            _ => {
                return Err(Error::Decode("expected an object".to_owned()));
            },
        };
        let distance_to_previous_station = match i32_field(f, "DistanceToPrev") {
            Ok(v) => v,
            Err(e) => {
                return Err(e);
            },
        };
        let line_code = match string_field(f, "LineCode") {
            Ok(v) => v,
            Err(e) => {
                return Err(e);
            },
        };
        let sequence_number = match i32_field(f, "SeqNum") {
            Ok(v) => v,
            Err(e) => {
                return Err(e);
            },
        };
        let station_code = match string_field(f, "StationCode") {
            Ok(v) => v,
            Err(e) => {
                return Err(e);
            },
        };
        let station_name = match string_field(f, "StationName") {
            Ok(v) => v,
            Err(e) => {
                return Err(e);
            },
        };
        Ok(Path { distance_to_previous_station, line_code, sequence_number, station_code, station_name })
    }
}

/// The stations along a path, in order.
#[derive(Debug)]
pub struct PathBetweenStations {
    /// See [`Path`].
    pub path: Vec<Path>,
}

impl FromJson for PathBetweenStations {
    open spec fn json_wf(j: Json) -> bool {
        match j {
            Json::Object(f) => {
                &&& (spec_array_field(f@, "Path"@) matches Some(a)
                    && spec_array_wf::<Path>(a))
            },
            _ => false,
        }
    }

    open spec fn of_json(self, j: Json) -> bool {
        match j {
            Json::Object(f) => {
                &&& (spec_array_field(f@, "Path"@) matches Some(a)
                    && spec_array_of::<Path>(self.path@, a))
            },
            _ => false,
        }
    }

    fn from_json(j: &Json) -> (r: Result<Self, Error>) {
        let f = match j {
            Json::Object(f) => f,
            _ => {
                return Err(Error::Decode("expected an object".to_owned()));
            },
        };
        let path = match array_field(f, "Path") {
            Ok(arr) => match decode_array::<Path>(arr) {
                Ok(v) => v,
                Err(e) => {
                    return Err(e);
                },
            },
            Err(e) => {
                return Err(e);
            },
        };
        Ok(PathBetweenStations { path })
    }
}

/// One first or last train at a station.
#[derive(Debug)]
pub struct TrainTime {
    /// Time the train leaves the station.
    pub time: String,
    /// Destination station code.
    pub destination_station: String,
}

impl FromJson for TrainTime {
    open spec fn json_wf(j: Json) -> bool {
        match j {
            Json::Object(f) => {
                &&& spec_string_field(f@, "Time"@) is Some
                &&& spec_string_field(f@, "DestinationStation"@) is Some
            },
            _ => false,
        }
    }

    open spec fn of_json(self, j: Json) -> bool {
        match j {
            Json::Object(f) => {
                &&& spec_string_field(f@, "Time"@) == Some(self.time@)
                &&& spec_string_field(f@, "DestinationStation"@) == Some(self.destination_station@)
            },
            _ => false,
        }
    }

    fn from_json(j: &Json) -> (r: Result<Self, Error>) {
        let f = match j {
            Json::Object(f) => f,
            _ => {
                return Err(Error::Decode("expected an object".to_owned()));
            },
        };
        let time = match string_field(f, "Time") {
            Ok(v) => v,
            Err(e) => {
                return Err(e);
            },
        };
        let destination_station = match string_field(f, "DestinationStation") {
            Ok(v) => v,
            Err(e) => {
                return Err(e);
            },
        };
        Ok(TrainTime { time, destination_station })
    }
}

/// Opening and first/last train times for one day.
#[derive(Debug)]
pub struct StationFirstLastTrains {
    /// Station opening time.
    pub opening_time: String,
    /// See [`TrainTime`].
    pub first_trains: Vec<TrainTime>,
    /// See [`TrainTime`].
    pub last_trains: Vec<TrainTime>,
}

impl FromJson for StationFirstLastTrains {
    open spec fn json_wf(j: Json) -> bool {
        match j {
            Json::Object(f) => {
                &&& spec_string_field(f@, "OpeningTime"@) is Some
                &&& (spec_array_field(f@, "FirstTrains"@) matches Some(a)
                    && spec_array_wf::<TrainTime>(a))
                &&& (spec_array_field(f@, "LastTrains"@) matches Some(a)
                    && spec_array_wf::<TrainTime>(a))
            },
            _ => false,
        }
    }

    open spec fn of_json(self, j: Json) -> bool {
        match j {
            Json::Object(f) => {
                &&& spec_string_field(f@, "OpeningTime"@) == Some(self.opening_time@)
                &&& (spec_array_field(f@, "FirstTrains"@) matches Some(a)
                    && spec_array_of::<TrainTime>(self.first_trains@, a))
                &&& (spec_array_field(f@, "LastTrains"@) matches Some(a)
                    && spec_array_of::<TrainTime>(self.last_trains@, a))
            },
            _ => false,
        }
    }

    fn from_json(j: &Json) -> (r: Result<Self, Error>) {
        let f = match j {
            Json::Object(f) => f,
            _ => {
                return Err(Error::Decode("expected an object".to_owned()));
            },
        };
        let opening_time = match string_field(f, "OpeningTime") {
            Ok(v) => v,
            Err(e) => {
                return Err(e);
            },
        };
        let first_trains = match array_field(f, "FirstTrains") {
            Ok(arr) => match decode_array::<TrainTime>(arr) {
                Ok(v) => v,
                Err(e) => {
                    return Err(e);
                },
            },
            Err(e) => {
                return Err(e);
            },
        };
        let last_trains = match array_field(f, "LastTrains") {
            Ok(arr) => match decode_array::<TrainTime>(arr) {
                Ok(v) => v,
                Err(e) => {
                    return Err(e);
                },
            },
            Err(e) => {
                return Err(e);
            },
        };
        Ok(StationFirstLastTrains { opening_time, first_trains, last_trains })
    }
}

/// Timing information of one station, by day of the week.
#[derive(Debug)]
pub struct StationTime {
    /// Station code of this station.
    pub code: String,
    /// Full name of the station.
    pub station_name: String,
    /// See [`StationFirstLastTrains`].
    pub monday: StationFirstLastTrains,
    /// See [`StationFirstLastTrains`].
    pub tuesday: StationFirstLastTrains,
    /// See [`StationFirstLastTrains`].
    pub wednesday: StationFirstLastTrains,
    /// See [`StationFirstLastTrains`].
    pub thursday: StationFirstLastTrains,
    /// See [`StationFirstLastTrains`].
    pub friday: StationFirstLastTrains,
    /// See [`StationFirstLastTrains`].
    pub saturday: StationFirstLastTrains,
    /// See [`StationFirstLastTrains`].
    pub sunday: StationFirstLastTrains,
}

impl FromJson for StationTime {
    open spec fn json_wf(j: Json) -> bool {
        match j {
            Json::Object(f) => {
                &&& spec_string_field(f@, "Code"@) is Some
                &&& spec_string_field(f@, "StationName"@) is Some
                &&& (spec_field(f@, "Monday"@) matches Some(x)
                    && StationFirstLastTrains::json_wf(x))
                &&& (spec_field(f@, "Tuesday"@) matches Some(x)
                    && StationFirstLastTrains::json_wf(x))
                &&& (spec_field(f@, "Wednesday"@) matches Some(x)
                    && StationFirstLastTrains::json_wf(x))
                &&& (spec_field(f@, "Thursday"@) matches Some(x)
                    && StationFirstLastTrains::json_wf(x))
                &&& (spec_field(f@, "Friday"@) matches Some(x)
                    && StationFirstLastTrains::json_wf(x))
                &&& (spec_field(f@, "Saturday"@) matches Some(x)
                    && StationFirstLastTrains::json_wf(x))
                &&& (spec_field(f@, "Sunday"@) matches Some(x)
                    && StationFirstLastTrains::json_wf(x))
            },
            _ => false,
        }
    }

    open spec fn of_json(self, j: Json) -> bool {
        match j {
            Json::Object(f) => {
                &&& spec_string_field(f@, "Code"@) == Some(self.code@)
                &&& spec_string_field(f@, "StationName"@) == Some(self.station_name@)
                &&& (spec_field(f@, "Monday"@) matches Some(x)
                    && self.monday.of_json(x))
                &&& (spec_field(f@, "Tuesday"@) matches Some(x)
                    && self.tuesday.of_json(x))
                &&& (spec_field(f@, "Wednesday"@) matches Some(x)
                    && self.wednesday.of_json(x))
                &&& (spec_field(f@, "Thursday"@) matches Some(x)
                    && self.thursday.of_json(x))
                &&& (spec_field(f@, "Friday"@) matches Some(x)
                    && self.friday.of_json(x))
                &&& (spec_field(f@, "Saturday"@) matches Some(x)
                    && self.saturday.of_json(x))
                &&& (spec_field(f@, "Sunday"@) matches Some(x)
                    && self.sunday.of_json(x))
            },
            _ => false,
        }
    }

    fn from_json(j: &Json) -> (r: Result<Self, Error>) {
        let f = match j {
            Json::Object(f) => f,
            _ => {
                return Err(Error::Decode("expected an object".to_owned()));
            },
        };
        let code = match string_field(f, "Code") {
            Ok(v) => v,
            Err(e) => {
                return Err(e);
            },
        };
        let station_name = match string_field(f, "StationName") {
            Ok(v) => v,
            Err(e) => {
                return Err(e);
            },
        };
        let monday = match field(f, "Monday") {
            Some(x) => match StationFirstLastTrains::from_json(x) {
                Ok(v) => v,
                Err(e) => {
                    return Err(e);
                },
            },
            None => {
                return Err(field_error("Monday"));
            },
        };
        let tuesday = match field(f, "Tuesday") {
            Some(x) => match StationFirstLastTrains::from_json(x) {
                Ok(v) => v,
                Err(e) => {
                    return Err(e);
                },
            },
            None => {
                return Err(field_error("Tuesday"));
            },
        };
        let wednesday = match field(f, "Wednesday") {
            Some(x) => match StationFirstLastTrains::from_json(x) {
                Ok(v) => v,
                Err(e) => {
                    return Err(e);
                },
            },
            None => {
                return Err(field_error("Wednesday"));
            },
        };
        let thursday = match field(f, "Thursday") {
            Some(x) => match StationFirstLastTrains::from_json(x) {
                Ok(v) => v,
                Err(e) => {
                    return Err(e);
                },
            },
            None => {
                return Err(field_error("Thursday"));
            },
        };
        let friday = match field(f, "Friday") {
            Some(x) => match StationFirstLastTrains::from_json(x) {
                Ok(v) => v,
                Err(e) => {
                    return Err(e);
                },
            },
            None => {
                return Err(field_error("Friday"));
            },
        };
        let saturday = match field(f, "Saturday") {
            Some(x) => match StationFirstLastTrains::from_json(x) {
                Ok(v) => v,
                Err(e) => {
                    return Err(e);
                },
            },
            None => {
                return Err(field_error("Saturday"));
            },
        };
        let sunday = match field(f, "Sunday") {
            Some(x) => match StationFirstLastTrains::from_json(x) {
                Ok(v) => v,
                Err(e) => {
                    return Err(e);
                },
            },
            None => {
                return Err(field_error("Sunday"));
            },
        };
        Ok(StationTime { code, station_name, monday, tuesday, wednesday, thursday, friday, saturday, sunday })
    }
}

/// The station timings.
#[derive(Debug)]
pub struct StationTimings {
    /// See [`StationTime`].
    pub station_times: Vec<StationTime>,
}

impl FromJson for StationTimings {
    open spec fn json_wf(j: Json) -> bool {
        match j {
            Json::Object(f) => {
                &&& (spec_array_field(f@, "StationTimes"@) matches Some(a)
                    && spec_array_wf::<StationTime>(a))
            },
            _ => false,
        }
    }

    open spec fn of_json(self, j: Json) -> bool {
        match j {
            Json::Object(f) => {
                &&& (spec_array_field(f@, "StationTimes"@) matches Some(a)
                    && spec_array_of::<StationTime>(self.station_times@, a))
            },
            _ => false,
        }
    }

    fn from_json(j: &Json) -> (r: Result<Self, Error>) {
        let f = match j {
            Json::Object(f) => f,
            _ => {
                return Err(Error::Decode("expected an object".to_owned()));
            },
        };
        let station_times = match array_field(f, "StationTimes") {
            Ok(arr) => match decode_array::<StationTime>(arr) {
                Ok(v) => v,
                Err(e) => {
                    return Err(e);
                },
            },
            Err(e) => {
                return Err(e);
            },
        };
        Ok(StationTimings { station_times })
    }
}


/// Short-term (metered) parking at a station.
#[derive(Debug)]
pub struct ShortTermParking {
    /// Number of short-term parking spots available at a station.
    pub total_count: i32,
    /// Misc. information relating to short-term parking.
    pub notes: String,
}

impl FromJson for ShortTermParking {
    open spec fn json_wf(j: Json) -> bool {
        match j {
            Json::Object(f) => {
                &&& spec_i32_field(f@, "TotalCount"@) is Some
                &&& spec_string_field(f@, "Notes"@) is Some
            },
            _ => false,
        }
    }

    open spec fn of_json(self, j: Json) -> bool {
        match j {
            Json::Object(f) => {
                &&& spec_i32_field(f@, "TotalCount"@) == Some(self.total_count)
                &&& spec_string_field(f@, "Notes"@) == Some(self.notes@)
            },
            _ => false,
        }
    }

    fn from_json(j: &Json) -> (r: Result<Self, Error>) {
        let f = match j {
            Json::Object(f) => f,
            _ => {
                return Err(Error::Decode("expected an object".to_owned()));
            },
        };
        let total_count = match i32_field(f, "TotalCount") {
            Ok(v) => v,
            Err(e) => {
                return Err(e);
            },
        };
        let notes = match string_field(f, "Notes") {
            Ok(v) => v,
            Err(e) => {
                return Err(e);
            },
        };
        Ok(ShortTermParking { total_count, notes })
    }
}

/// All-day parking at a station; costs are decimal text the library does not
/// interpret.
#[derive(Debug)]
pub struct AllDayParking {
    /// Number of all-day parking spots available at a station.
    pub total_count: i32,
    /// All-day weekday cost for riders, as decimal text.
    pub rider_cost: Option<String>,
    /// All-day weekday cost for non-riders, as decimal text.
    pub non_rider_cost: Option<String>,
    /// Saturday rider cost, as decimal text.
    pub saturday_rider_cost: Option<String>,
    /// Saturday non-rider cost, as decimal text.
    pub saturday_non_rider_cost: Option<String>,
}

impl FromJson for AllDayParking {
    open spec fn json_wf(j: Json) -> bool {
        match j {
            Json::Object(f) => {
                &&& spec_i32_field(f@, "TotalCount"@) is Some
                &&& spec_opt_number_field(f@, "RiderCost"@) is Some
                &&& spec_opt_number_field(f@, "NonRiderCost"@) is Some
                &&& spec_opt_number_field(f@, "SaturdayRiderCost"@) is Some
                &&& spec_opt_number_field(f@, "SaturdayNonRiderCost"@) is Some
            },
            _ => false,
        }
    }

    open spec fn of_json(self, j: Json) -> bool {
        match j {
            Json::Object(f) => {
                &&& spec_i32_field(f@, "TotalCount"@) == Some(self.total_count)
                &&& spec_opt_number_field(f@, "RiderCost"@) == Some(
                    match self.rider_cost {
                        Some(s) => Some(s@),
                        None => None::<Seq<char>>,
                    },
                )
                &&& spec_opt_number_field(f@, "NonRiderCost"@) == Some(
                    match self.non_rider_cost {
                        Some(s) => Some(s@),
                        None => None::<Seq<char>>,
                    },
                )
                &&& spec_opt_number_field(f@, "SaturdayRiderCost"@) == Some(
                    match self.saturday_rider_cost {
                        Some(s) => Some(s@),
                        None => None::<Seq<char>>,
                    },
                )
                &&& spec_opt_number_field(f@, "SaturdayNonRiderCost"@) == Some(
                    match self.saturday_non_rider_cost {
                        Some(s) => Some(s@),
                        None => None::<Seq<char>>,
                    },
                )
            },
            _ => false,
        }
    }

    fn from_json(j: &Json) -> (r: Result<Self, Error>) {
        let f = match j {
            Json::Object(f) => f,
            _ => {
                return Err(Error::Decode("expected an object".to_owned()));
            },
        };
        let total_count = match i32_field(f, "TotalCount") {
            Ok(v) => v,
            Err(e) => {
                return Err(e);
            },
        };
        let rider_cost = match opt_number_field(f, "RiderCost") {
            Ok(v) => v,
            Err(e) => {
                return Err(e);
            },
        };
        let non_rider_cost = match opt_number_field(f, "NonRiderCost") {
            Ok(v) => v,
            Err(e) => {
                return Err(e);
            },
        };
        let saturday_rider_cost = match opt_number_field(f, "SaturdayRiderCost") {
            Ok(v) => v,
            Err(e) => {
                return Err(e);
            },
        };
        let saturday_non_rider_cost = match opt_number_field(f, "SaturdayNonRiderCost") {
            Ok(v) => v,
            Err(e) => {
                return Err(e);
            },
        };
        Ok(
            AllDayParking {
                total_count,
                rider_cost,
                non_rider_cost,
                saturday_rider_cost,
                saturday_non_rider_cost,
            },
        )
    }
}

/// Parking at one station.
#[derive(Debug)]
pub struct StationParking {
    /// Station code of this station.
    pub code: String,
    /// When present, additional parking resources such as nearby lots.
    pub notes: Option<String>,
    /// See [`AllDayParking`].
    pub all_day_parking: AllDayParking,
    /// See [`ShortTermParking`].
    pub short_term_parking: ShortTermParking,
}

impl FromJson for StationParking {
    open spec fn json_wf(j: Json) -> bool {
        match j {
            Json::Object(f) => {
                &&& spec_string_field(f@, "Code"@) is Some
                &&& spec_opt_string_field(f@, "Notes"@) is Some
                &&& (spec_field(f@, "AllDayParking"@) matches Some(x)
                    && AllDayParking::json_wf(x))
                &&& (spec_field(f@, "ShortTermParking"@) matches Some(x)
                    && ShortTermParking::json_wf(x))
            },
            _ => false,
        }
    }

    open spec fn of_json(self, j: Json) -> bool {
        match j {
            Json::Object(f) => {
                &&& spec_string_field(f@, "Code"@) == Some(self.code@)
                &&& spec_opt_string_field(f@, "Notes"@) == Some(
                    match self.notes {
                        Some(s) => Some(s@),
                        None => None::<Seq<char>>,
                    },
                )
                &&& (spec_field(f@, "AllDayParking"@) matches Some(x)
                    && self.all_day_parking.of_json(x))
                &&& (spec_field(f@, "ShortTermParking"@) matches Some(x)
                    && self.short_term_parking.of_json(x))
            },
            _ => false,
        }
    }

    fn from_json(j: &Json) -> (r: Result<Self, Error>) {
        let f = match j {
            Json::Object(f) => f,
            _ => {
                return Err(Error::Decode("expected an object".to_owned()));
            },
        };
        let code = match string_field(f, "Code") {
            Ok(v) => v,
            Err(e) => {
                return Err(e);
            },
        };
        let notes = match opt_string_field(f, "Notes") {
            Ok(v) => v,
            Err(e) => {
                return Err(e);
            },
        };
        let all_day_parking = match field(f, "AllDayParking") {
            Some(x) => match AllDayParking::from_json(x) {
                Ok(v) => v,
                Err(e) => {
                    return Err(e);
                },
            },
            None => {
                return Err(field_error("AllDayParking"));
            },
        };
        let short_term_parking = match field(f, "ShortTermParking") {
            Some(x) => match ShortTermParking::from_json(x) {
                Ok(v) => v,
                Err(e) => {
                    return Err(e);
                },
            },
            None => {
                return Err(field_error("ShortTermParking"));
            },
        };
        Ok(StationParking { code, notes, all_day_parking, short_term_parking })
    }
}

/// Parking for the queried stations.
#[derive(Debug)]
pub struct StationsParking {
    /// See [`StationParking`].
    pub stations_parking: Vec<StationParking>,
}

impl FromJson for StationsParking {
    open spec fn json_wf(j: Json) -> bool {
        match j {
            Json::Object(f) => {
                &&& (spec_array_field(f@, "StationsParking"@) matches Some(a)
                    && spec_array_wf::<StationParking>(a))
            },
            _ => false,
        }
    }

    open spec fn of_json(self, j: Json) -> bool {
        match j {
            Json::Object(f) => {
                &&& (spec_array_field(f@, "StationsParking"@) matches Some(a) && spec_array_of::<
                    StationParking,
                >(self.stations_parking@, a))
            },
            _ => false,
        }
    }

    fn from_json(j: &Json) -> (r: Result<Self, Error>) {
        let f = match j {
            Json::Object(f) => f,
            _ => {
                return Err(Error::Decode("expected an object".to_owned()));
            },
        };
        let arr = match array_field(f, "StationsParking") {
            Ok(a) => a,
            Err(e) => {
                return Err(e);
            },
        };
        let stations_parking = match decode_array::<StationParking>(arr) {
            Ok(v) => v,
            Err(e) => {
                return Err(e);
            },
        };
        Ok(StationsParking { stations_parking })
    }
}

} // verus!
