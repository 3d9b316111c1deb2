//! Settings and values of the telemetry harness: collector configuration,
//! the service resource, per-request metric labels and provider shutdown.
pub mod config;
pub mod metrics;
pub mod shutdown;
