//! A typed client library for a public transit agency's REST API: closed
//! domain code sets with verified bidirectional string mapping, a request
//! builder that turns optional filters into ordered query parameters, a
//! dispatch layer that maps transport outcomes onto typed results, and
//! capability traits that attach each domain's menu of operations to any
//! fetch-capable type.
use vstd::prelude::*;

pub mod bus;
pub mod date;
pub mod dispatch;
pub mod error;
pub mod json;
pub mod laws;
pub mod line;
pub mod numbers;
pub mod rail;
pub mod requests;
pub mod responders;
pub mod station;
pub mod text;
pub mod types;
pub mod urls;

pub use bus::stop::Stop;
pub use bus::traits::NeedsStop;
pub use date::Date;
pub use dispatch::Fetch;
pub use dispatch::FromJson;
pub use dispatch::Outcome;
pub use error::Error;
pub use line::Line;
pub use line::StringIsNotLineError;
pub use rail::client::Client;
pub use rail::station::Station;
pub use rail::station::StringIsNotStationError;
pub use rail::traits::NeedsLine;
pub use rail::traits::NeedsStation;
pub use responders::FailingResponder;
pub use responders::FixedResponder;
pub use responders::MatchingResponder;
pub use station::StationCode;
pub use station::StringIsNotStationCodeError;
pub use types::RadiusAtLatLong;
pub use types::Request;

verus! {

/// Whether an HTTP status code counts as success.
pub open spec fn spec_is_success_status(status: u16) -> bool {
    200 <= status < 300
}

/// An HTTP status code counts as success exactly when it lies in the 2xx range.
pub fn is_success_status(status: u16) -> (r: bool)
    ensures
        r == spec_is_success_status(status),
{
    200 <= status && status < 300
}

} // verus!
