//! Bus stop identifiers and the operations a stop gains from the fetch
//! capability.
use vstd::prelude::*;

use crate::bus::responses::Predictions;
use crate::bus::responses::StopSchedule;
use crate::bus::traits::NeedsStop;
use crate::date::Date;
use crate::dispatch::FromJson;
use crate::error::Error;
use crate::json::Json;
use crate::text::str_eq;

verus! {

/// A bus stop identifier. Unlike the rail codes, the set of stop identifiers
/// is open: any non-empty caller-supplied string addresses a stop. An empty
/// identifier addresses nothing, so decoding one from upstream data fails.
#[derive(Debug)]
pub struct Stop(pub String);

impl Stop {
    /// A stop with the given identifier.
    pub fn new(stop: &str) -> (r: Stop)
        ensures
            r.0@ == stop@,
    {
        Stop(stop.to_owned())
    }

    /// The identifier of this stop.
    pub fn to_string(&self) -> (r: String)
        ensures
            r@ == self.0@,
    {
        self.0.clone()
    }

    /// Next bus arrivals at this stop: the stop capability's operation,
    /// invoked on this stop with the given transport.
    pub fn next_buses(&self, api_key: &str, transport: &impl NeedsStop) -> (r: Result<
        Predictions,
        Error,
    >)
        ensures
            r matches Ok(v) ==> exists|j: Json|
                Predictions::json_wf(j) && (#[trigger] v.of_json(j)),
    {
        transport.next_buses(self, api_key)
    }

    /// Buses scheduled at this stop, for an optional date (omit the date for
    /// the current date): the stop capability's operation, invoked on this
    /// stop with the given transport.
    pub fn schedule(&self, date: Option<Date>, api_key: &str, transport: &impl NeedsStop) -> (r:
        Result<StopSchedule, Error>)
        ensures
            r matches Ok(v) ==> exists|j: Json|
                StopSchedule::json_wf(j) && (#[trigger] v.of_json(j)),
    {
        transport.stop_schedule(self, date, api_key)
    }
}

impl FromJson for Stop {
    /// A stop decodes from a JSON string; the empty string is malformed
    /// upstream data, not a stop.
    open spec fn json_wf(j: Json) -> bool {
        match j {
            Json::Str(s) => s@.len() > 0,
            _ => false,
        }
    }

    open spec fn of_json(self, j: Json) -> bool {
        match j {
            Json::Str(s) => self.0@ == s@,
            _ => false,
        }
    }

    fn from_json(j: &Json) -> (r: Result<Self, Error>) {
        match j {
            Json::Str(s) => {
                if s.as_str().is_empty() {
                    Err(Error::Decode("stop identifier is empty".to_owned()))
                } else {
                    Ok(Stop(s.clone()))
                }
            },
            _ => Err(Error::Decode("expected a stop identifier string".to_owned())),
        }
    }
}

impl PartialEq for Stop {
    /// Two stops are equal when their identifiers are.
    fn eq(&self, other: &Stop) -> (r: bool) {
        str_eq(self.0.as_str(), other.0.as_str())
    }
}

impl vstd::std_specs::cmp::PartialEqSpecImpl for Stop {
    open spec fn obeys_eq_spec() -> bool {
        true
    }

    open spec fn eq_spec(&self, other: &Stop) -> bool {
        self.0@ == other.0@
    }
}

} // verus!
