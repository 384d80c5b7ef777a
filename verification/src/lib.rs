//! Classification and probing rules for anonymous access checks on cloud
//! object-storage buckets: parsing identifiers into targets, building probe
//! requests, interpreting responses, and aggregating the outcomes.

pub mod classify;
pub mod interpret;
pub mod probe;
pub mod report;
pub mod text;
pub mod urls;
