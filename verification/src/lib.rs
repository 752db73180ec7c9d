//! Verified core of an instance orchestration layer: configuration
//! translation, a registry of running instances, start/stop supervision and
//! the decisions of the telemetry loop.

pub mod config;
pub mod ipv4;
pub mod notation;
pub mod registry;
pub mod snapshot;
pub mod supervisor;
pub mod telemetry;
pub mod text;
