//! Display helpers of the telemetry report.

pub mod utils;
