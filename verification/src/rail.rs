//! Rail-domain types and operations.
pub mod client;
pub mod responses;
pub mod station;
pub mod traits;
