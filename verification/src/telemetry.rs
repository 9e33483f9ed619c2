//! Telemetry: logs and metrics that leave the machine over the broker.

pub mod handler;
