//! Request telemetry: turns one finished request/response exchange into a
//! single duration observation with a bounded set of dimensional tags, and
//! owns the lifecycle of the export channel that pushes those observations
//! to a remote metrics collector.

pub mod duration;
pub mod status;
pub mod metrics_config;
pub mod otel_metrics;
pub mod tags;
