//! Admission gate of a query-serving tier: a global concurrency budget for
//! namespace handles, and the retry policy of the namespace listing.

pub mod admission;
pub mod catalog;
pub mod database;
pub mod retry;
