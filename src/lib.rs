//! Decoding of fixed-length binary telemetry frames from an energy-monitoring
//! device into scaled physical measurements.

pub mod field;
pub mod registry;
pub mod frame;
