//! Parser and gateway logic for the telemetry that NEP microinverters
//! upload, together with the decisions that the local gateway takes
//! around it (Home Assistant discovery, configuration, metrics registration).

pub mod checksum;
pub mod config;
pub mod metrics;
pub mod mqtt;
pub mod telemetry;
pub mod text;
