//! Bus response records: flat mirrors of the upstream schema, decoded with
//! verified field readers; numeric fields the library does not interpret keep
//! their decimal text.
use vstd::prelude::*;

use crate::bus::stop::Stop;
use crate::dispatch::decode_array;
use crate::dispatch::decode_string_array;
use crate::dispatch::spec_array_of;
use crate::dispatch::spec_array_wf;
use crate::dispatch::spec_string_array_of;
use crate::dispatch::spec_string_array_wf;
use crate::dispatch::FromJson;
use crate::error::Error;
use crate::json::array_field;
use crate::json::field;
use crate::json::field_error;
use crate::json::i32_field;
use crate::json::number_field;
use crate::json::spec_array_field;
use crate::json::spec_field;
use crate::json::spec_i32_field;
use crate::json::spec_number_field;
use crate::json::spec_string_field;
use crate::json::string_field;
use crate::json::Json;

verus! {

/// One next-bus arrival prediction.
#[derive(Debug)]
pub struct Prediction {
    /// Denotes a binary direction (0 or 1) of the bus.
    pub direction_number: String,
    /// Customer-friendly description of direction and destination.
    pub direction_text: String,
    /// Minutes until the bus arrives at this stop.
    pub minutes: i32,
    /// Route identifier of the bus.
    pub route_id: String,
    /// Trip identifier of the bus.
    pub trip_id: String,
    /// Bus identifier; can be matched with bus position queries.
    pub vehicle_id: String,
}

impl FromJson for Prediction {
    open spec fn json_wf(j: Json) -> bool {
        match j {
            Json::Object(f) => {
                &&& spec_string_field(f@, "DirectionNum"@) is Some
                &&& spec_string_field(f@, "DirectionText"@) is Some
                &&& spec_i32_field(f@, "Minutes"@) is Some
                &&& spec_string_field(f@, "RouteID"@) is Some
                &&& spec_string_field(f@, "TripID"@) is Some
                &&& spec_string_field(f@, "VehicleID"@) is Some
            },
            _ => false,
        }
    }

    open spec fn of_json(self, j: Json) -> bool {
        match j {
            Json::Object(f) => {
                &&& spec_string_field(f@, "DirectionNum"@) == Some(self.direction_number@)
                &&& spec_string_field(f@, "DirectionText"@) == Some(self.direction_text@)
                &&& spec_i32_field(f@, "Minutes"@) == Some(self.minutes)
                &&& spec_string_field(f@, "RouteID"@) == Some(self.route_id@)
                &&& spec_string_field(f@, "TripID"@) == Some(self.trip_id@)
                &&& spec_string_field(f@, "VehicleID"@) == Some(self.vehicle_id@)
            },
            _ => false,
        }
    }

    fn from_json(j: &Json) -> (r: Result<Self, Error>) {
        let f = match j {
            Json::Object(f) => f,
            _ => {
                return Err(Error::Decode("expected an object".to_owned()));
            },
        };
        let direction_number = match string_field(f, "DirectionNum") {
            Ok(v) => v,
            Err(e) => {
                return Err(e);
            },
        };
        let direction_text = match string_field(f, "DirectionText") {
            Ok(v) => v,
            Err(e) => {
                return Err(e);
            },
        };
        let minutes = match i32_field(f, "Minutes") {
            Ok(v) => v,
            Err(e) => {
                return Err(e);
            },
        };
        let route_id = match string_field(f, "RouteID") {
            Ok(v) => v,
            Err(e) => {
                return Err(e);
            },
        };
        let trip_id = match string_field(f, "TripID") {
            Ok(v) => v,
            Err(e) => {
                return Err(e);
            },
        };
        let vehicle_id = match string_field(f, "VehicleID") {
            Ok(v) => v,
            Err(e) => {
                return Err(e);
            },
        };
        Ok(Prediction { direction_number, direction_text, minutes, route_id, trip_id, vehicle_id })
    }
}

/// The next buses at a stop.
#[derive(Debug)]
pub struct Predictions {
    /// See [`Prediction`].
    pub predictions: Vec<Prediction>,
}

impl FromJson for Predictions {
    open spec fn json_wf(j: Json) -> bool {
        match j {
            Json::Object(f) => {
                &&& (spec_array_field(f@, "Predictions"@) matches Some(a)
                    && spec_array_wf::<Prediction>(a))
            },
            _ => false,
        }
    }

    open spec fn of_json(self, j: Json) -> bool {
        match j {
            Json::Object(f) => {
                &&& (spec_array_field(f@, "Predictions"@) matches Some(a)
                    && spec_array_of::<Prediction>(self.predictions@, a))
            },
            _ => false,
        }
    }

    fn from_json(j: &Json) -> (r: Result<Self, Error>) {
        let f = match j {
            Json::Object(f) => f,
            _ => {
                return Err(Error::Decode("expected an object".to_owned()));
            },
        };
        let predictions = match array_field(f, "Predictions") {
            Ok(arr) => match decode_array::<Prediction>(arr) {
                Ok(v) => v,
                Err(e) => {
                    return Err(e);
                },
            },
            Err(e) => {
                return Err(e);
            },
        };
        Ok(Predictions { predictions })
    }
}

/// One scheduled bus arrival at a stop.
#[derive(Debug)]
pub struct Arrival {
    /// Date and time the bus is scheduled at this stop.
    pub schedule_time: String,
    /// Denotes a binary direction (0 or 1) of the bus.
    pub direction_number: String,
    /// Scheduled start date and time of the bus's current trip.
    pub start_time: String,
    /// Scheduled end date and time of the bus's current trip.
    pub end_time: String,
    /// Route identifier of the bus.
    pub route_id: String,
    /// Customer-friendly description of direction and destination.
    pub trip_direction_text: String,
    /// Destination of the bus.
    pub trip_headsign: String,
    /// Trip identifier of the bus.
    pub trip_id: String,
}

impl FromJson for Arrival {
    open spec fn json_wf(j: Json) -> bool {
        match j {
            Json::Object(f) => {
                &&& spec_string_field(f@, "ScheduleTime"@) is Some
                &&& spec_string_field(f@, "DirectionNum"@) is Some
                &&& spec_string_field(f@, "StartTime"@) is Some
                &&& spec_string_field(f@, "EndTime"@) is Some
                &&& spec_string_field(f@, "RouteID"@) is Some
                &&& spec_string_field(f@, "TripDirectionText"@) is Some
                &&& spec_string_field(f@, "TripHeadsign"@) is Some
                &&& spec_string_field(f@, "TripID"@) is Some
            },
            _ => false,
        }
    }

    open spec fn of_json(self, j: Json) -> bool {
        match j {
            Json::Object(f) => {
                &&& spec_string_field(f@, "ScheduleTime"@) == Some(self.schedule_time@)
                &&& spec_string_field(f@, "DirectionNum"@) == Some(self.direction_number@)
                &&& spec_string_field(f@, "StartTime"@) == Some(self.start_time@)
                &&& spec_string_field(f@, "EndTime"@) == Some(self.end_time@)
                &&& spec_string_field(f@, "RouteID"@) == Some(self.route_id@)
                &&& spec_string_field(f@, "TripDirectionText"@) == Some(self.trip_direction_text@)
                &&& spec_string_field(f@, "TripHeadsign"@) == Some(self.trip_headsign@)
                &&& spec_string_field(f@, "TripID"@) == Some(self.trip_id@)
            },
            _ => false,
        }
    }

    fn from_json(j: &Json) -> (r: Result<Self, Error>) {
        let f = match j {
            Json::Object(f) => f,
            _ => {
                return Err(Error::Decode("expected an object".to_owned()));
            },
        };
        let schedule_time = match string_field(f, "ScheduleTime") {
            Ok(v) => v,
            Err(e) => {
                return Err(e);
            },
        };
        let direction_number = match string_field(f, "DirectionNum") {
            Ok(v) => v,
            Err(e) => {
                return Err(e);
            },
        };
        let start_time = match string_field(f, "StartTime") {
            Ok(v) => v,
            Err(e) => {
                return Err(e);
            },
        };
        let end_time = match string_field(f, "EndTime") {
            Ok(v) => v,
            Err(e) => {
                return Err(e);
            },
        };
        let route_id = match string_field(f, "RouteID") {
            Ok(v) => v,
            Err(e) => {
                return Err(e);
            },
        };
        let trip_direction_text = match string_field(f, "TripDirectionText") {
            Ok(v) => v,
            Err(e) => {
                return Err(e);
            },
        };
        let trip_headsign = match string_field(f, "TripHeadsign") {
            Ok(v) => v,
            Err(e) => {
                return Err(e);
            },
        };
        let trip_id = match string_field(f, "TripID") {
            Ok(v) => v,
            Err(e) => {
                return Err(e);
            },
        };
        Ok(Arrival { schedule_time, direction_number, start_time, end_time, route_id, trip_direction_text, trip_headsign, trip_id })
    }
}

/// The stop a schedule describes; coordinates stay decimal text.
#[derive(Debug)]
pub struct StopInfo {
    /// The stop identifier; an empty identifier fails the decode.
    pub stop: Stop,
    /// Name of the stop.
    pub name: String,
    /// Latitude of the stop, as decimal text.
    pub latitude: String,
    /// Longitude of the stop, as decimal text.
    pub longitude: String,
    /// Route identifiers serving this stop.
    pub routes: Vec<String>,
}

impl FromJson for StopInfo {
    open spec fn json_wf(j: Json) -> bool {
        match j {
            Json::Object(f) => {
                &&& (spec_field(f@, "StopID"@) matches Some(x)
                    && Stop::json_wf(x))
                &&& spec_string_field(f@, "Name"@) is Some
                &&& spec_number_field(f@, "Lat"@) is Some
                &&& spec_number_field(f@, "Lon"@) is Some
                &&& (spec_array_field(f@, "Routes"@) matches Some(a)
                    && spec_string_array_wf(a))
            },
            _ => false,
        }
    }

    open spec fn of_json(self, j: Json) -> bool {
        match j {
            Json::Object(f) => {
                &&& (spec_field(f@, "StopID"@) matches Some(x)
                    && self.stop.of_json(x))
                &&& spec_string_field(f@, "Name"@) == Some(self.name@)
                &&& spec_number_field(f@, "Lat"@) == Some(self.latitude@)
                &&& spec_number_field(f@, "Lon"@) == Some(self.longitude@)
                &&& (spec_array_field(f@, "Routes"@) matches Some(a)
                    && spec_string_array_of(self.routes@, a))
            },
            _ => false,
        }
    }

    fn from_json(j: &Json) -> (r: Result<Self, Error>) {
        let f = match j {
            Json::Object(f) => f,
            _ => {
                return Err(Error::Decode("expected an object".to_owned()));
            },
        };
        let stop = match field(f, "StopID") {
            Some(x) => match Stop::from_json(x) {
                Ok(v) => v,
                Err(e) => {
                    return Err(e);
                },
            },
            None => {
                return Err(field_error("StopID"));
            },
        };
        let name = match string_field(f, "Name") {
            Ok(v) => v,
            Err(e) => {
                return Err(e);
            },
        };
        let latitude = match number_field(f, "Lat") {
            Ok(v) => v,
            Err(e) => {
                return Err(e);
            },
        };
        let longitude = match number_field(f, "Lon") {
            Ok(v) => v,
            Err(e) => {
                return Err(e);
            },
        };
        let routes = match array_field(f, "Routes") {
            Ok(arr) => match decode_string_array(arr) {
                Ok(v) => v,
                Err(e) => {
                    return Err(e);
                },
            },
            Err(e) => {
                return Err(e);
            },
        };
        Ok(StopInfo { stop, name, latitude, longitude, routes })
    }
}

/// The buses scheduled at a stop.
#[derive(Debug)]
pub struct StopSchedule {
    /// See [`Arrival`].
    pub arrivals: Vec<Arrival>,
    /// See [`StopInfo`].
    pub stop: StopInfo,
}

impl FromJson for StopSchedule {
    open spec fn json_wf(j: Json) -> bool {
        match j {
            Json::Object(f) => {
                &&& (spec_array_field(f@, "ScheduleArrivals"@) matches Some(a)
                    && spec_array_wf::<Arrival>(a))
                &&& (spec_field(f@, "Stop"@) matches Some(x)
                    && StopInfo::json_wf(x))
            },
            _ => false,
        }
    }

    open spec fn of_json(self, j: Json) -> bool {
        match j {
            Json::Object(f) => {
                &&& (spec_array_field(f@, "ScheduleArrivals"@) matches Some(a)
                    && spec_array_of::<Arrival>(self.arrivals@, a))
                &&& (spec_field(f@, "Stop"@) matches Some(x)
                    && self.stop.of_json(x))
            },
            _ => false,
        }
    }

    fn from_json(j: &Json) -> (r: Result<Self, Error>) {
        let f = match j {
            Json::Object(f) => f,
            _ => {
                return Err(Error::Decode("expected an object".to_owned()));
            },
        };
        let arrivals = match array_field(f, "ScheduleArrivals") {
            Ok(arr) => match decode_array::<Arrival>(arr) {
                Ok(v) => v,
                Err(e) => {
                    return Err(e);
                },
            },
            Err(e) => {
                return Err(e);
            },
        };
        let stop = match field(f, "Stop") {
            Some(x) => match StopInfo::from_json(x) {
                Ok(v) => v,
                Err(e) => {
                    return Err(e);
                },
            },
            None => {
                return Err(field_error("Stop"));
            },
        };
        Ok(StopSchedule { arrivals, stop })
    }
}

} // verus!
