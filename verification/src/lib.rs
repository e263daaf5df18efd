//! Cache-backed fetcher for daily astronomy-picture records.
//!
//! A record for each calendar date is fetched once from the remote service,
//! kept in a local sqlite store, and the best image URL is selected from it.

pub mod date;
pub mod decimal;
pub mod error;
pub mod fetch;
pub mod filename;
pub mod record;
pub mod resolve;
pub mod store;
