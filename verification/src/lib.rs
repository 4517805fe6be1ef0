//! A host-monitoring beacon library.
//!
//! The library holds the decision logic of a beacon that periodically
//! samples CPU, memory and temperature metrics, reports them to a remote
//! endpoint, and raises an alert when configured thresholds are exceeded.
//! Metric percentages and temperatures are carried as integers in
//! hundredths (basis points of a percent, centidegrees Celsius), so that
//! every computation on them is exact and verified.

pub mod beacon;
pub mod cli;
mod clock;
pub mod config;
pub mod metrics;
pub mod numfmt;
pub mod report;
