//! Bus-domain types and operations.
pub mod responses;
pub mod stop;
pub mod traits;
