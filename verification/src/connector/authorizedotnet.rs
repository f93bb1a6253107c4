//! The Authorize.Net connector.

pub mod transformers;
pub mod wire;
