//! Beacon configuration, loaded once at startup and immutable afterwards.

use vstd::prelude::*;

verus! {

/// The beacon's configuration.
///
/// Thresholds are carried in hundredths: a CPU threshold of `8000` means
/// 80.00%, a temperature threshold of `7000` means 70.00 degrees Celsius.
pub struct Config {
    /// Name of the monitored system, echoed in every report.
    pub name: String,
    /// Seconds to sleep between iterations; must be positive.
    pub interval_seconds: u64,
    /// Optional proxy URL; `None` means a direct connection.
    pub proxy: Option<String>,
    /// Endpoint that receives the periodic stat report.
    pub target_stat_url: String,
    /// Endpoint that receives alert reports.
    pub target_alert_url: String,
    /// Alert when CPU usage exceeds this many hundredths of a percent.
    pub cpu_alert_threshold: u64,
    /// Alert when memory usage exceeds this many hundredths of a percent.
    pub memory_alert_threshold: u64,
    /// Alert when the average temperature exceeds this many centidegrees.
    pub temperature_alert_threshold: u64,
    /// The JSON body shape posted to the stat endpoint.
    pub stat_payload: PayloadShape,
}

/// Which JSON body the stat endpoint receives each iteration: the flat
/// presentation record itself, or the same wrapped notification payload
/// that the alert endpoint receives. The choice is part of the
/// configuration so that neither shape is picked silently.
#[derive(Clone, Copy, PartialEq, Eq, Structural, Debug)]
pub enum PayloadShape {
    /// POST the presentation-ready record (name, level and the rendered
    /// metric strings) as a flat JSON object.
    Report,
    /// POST the wrapped notification payload.
    Notification,
}

/// Why a configuration was rejected.
#[derive(Clone, Copy, PartialEq, Eq, Structural, Debug)]
pub enum ConfigError {
    /// `interval_seconds` was zero, which would busy-loop the beacon.
    ZeroInterval,
}

impl Config {
    /// A configuration is well formed when its sampling interval is positive.
    pub open spec fn well_formed(&self) -> bool {
        self.interval_seconds > 0
    }

    /// Accepts exactly the well-formed configurations.
    pub fn validate(&self) -> (r: Result<(), ConfigError>)
        ensures
            r is Ok <==> self.well_formed(),
            !self.well_formed() ==> r == Result::<(), ConfigError>::Err(ConfigError::ZeroInterval),
    {
        if self.interval_seconds == 0 {
            Err(ConfigError::ZeroInterval)
        } else {
            Ok(())
        }
    }
}

/// Reads a payload-shape name as it is written in the configuration file;
/// any other name is rejected.
pub fn parse_payload_shape(s: &String) -> (r: Option<PayloadShape>)
    ensures
        s@ == "report"@ ==> r == Some(PayloadShape::Report),
        s@ == "notification"@ ==> r == Some(PayloadShape::Notification),
        (s@ != "report"@ && s@ != "notification"@) ==> r is None,
{
    proof {
        reveal_strlit("report");
        reveal_strlit("notification");
        assert("report"@.len() == 6);
        assert("notification"@.len() == 12);
        assert("report"@ != "notification"@);
    }
    let report = String::from_str("report");
    let notification = String::from_str("notification");
    if s.eq(&report) {
        Some(PayloadShape::Report)
    } else if s.eq(&notification) {
        Some(PayloadShape::Notification)
    } else {
        None
    }
}

impl ConfigError {
    /// A human-readable description of the error.
    pub fn message(&self) -> (r: String)
        ensures
            r@ == "interval_seconds must be positive"@,
    {
        String::from_str("interval_seconds must be positive")
    }
}

} // verus!
