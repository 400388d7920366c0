//! Fantasy leagues: requests to the service, its errors, and what its replies come to.

pub mod api;
pub mod error;
pub mod request;
pub mod types;
pub mod xml_roster;
