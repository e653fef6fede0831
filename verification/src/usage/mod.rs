//! The usage data core: the Gauge and Snapshot types, the Mood bands and
//! Driving-Gauge rule, and the mapping from an endpoint response to Gauges.

pub mod client;
pub mod mood;
pub mod types;
