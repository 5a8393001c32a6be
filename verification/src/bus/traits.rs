//! Bus capability traits: the stop operations that any fetch-capable type
//! gains as default behavior.
use vstd::prelude::*;

use crate::bus::responses;
use crate::bus::stop::Stop;
use crate::date::Date;
use crate::dispatch::Fetch;
use crate::dispatch::FromJson;
use crate::error::Error;
use crate::json::Json;
use crate::requests::next_buses_request;
use crate::requests::stop_schedule_request;

verus! {

/// Operations around stop identifiers, gained by any fetch-capable type.
pub trait NeedsStop: Fetch {
    /// Next bus arrivals at one stop.
    fn next_buses(&self, stop: &Stop, api_key: &str) -> (r: Result<responses::Predictions, Error>)
        ensures
            r matches Ok(v) ==> exists|j: Json|
                responses::Predictions::json_wf(j) && (#[trigger] v.of_json(j)),
    {
        self.fetch::<responses::Predictions>(next_buses_request(api_key, stop))
    }

    /// Buses scheduled at one stop, for an optional date; omitting the date
    /// means the current date.
    fn stop_schedule(&self, stop: &Stop, date: Option<Date>, api_key: &str) -> (r: Result<
        responses::StopSchedule,
        Error,
    >)
        ensures
            r matches Ok(v) ==> exists|j: Json|
                responses::StopSchedule::json_wf(j) && (#[trigger] v.of_json(j)),
    {
        self.fetch::<responses::StopSchedule>(stop_schedule_request(api_key, stop, date))
    }
}

} // verus!
