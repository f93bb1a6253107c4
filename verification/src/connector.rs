//! One module per connector.

pub mod authorizedotnet;
