//! Ingest of solar-inverter telemetry: decoding of readings, record keys,
//! and the threshold trigger that fires an external action on state-of-charge
//! crossings.

pub mod ingest;
pub mod json;
pub mod key;
pub mod reading;
pub mod readings;
pub mod store;
pub mod trigger;
