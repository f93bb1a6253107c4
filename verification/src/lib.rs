//! Connector integration and transaction normalization for a payment switch.
//!
//! A canonical transaction record is turned into a connector's wire request,
//! and the connector's wire response is turned back into a canonical response
//! with a normalized status or a normalized error.

pub mod analytics;
pub mod connector;
pub mod encoding;
pub mod db;
pub mod enums;
pub mod errors;
pub mod types;
