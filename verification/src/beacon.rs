//! The per-iteration decisions of the beacon loop.
//!
//! Each iteration the loop samples the host, always posts an `info` report
//! in the configured shape, and posts a `warn` notification exactly when a
//! threshold is breached. This module decides; the surrounding program
//! performs the HTTP posts and the sleep.

use vstd::prelude::*;
use crate::clock::current_timestamp;
use crate::config::{Config, PayloadShape};
use crate::metrics::{average_centi, clamp_percent, memory_percent_hundredths, sum_centi, Sample};
use crate::report::{
    build_report, notification_matches, spec_percent_string, spec_temp_string, AlertMessage, Level,
    StatsLog,
};

verus! {

/// A threshold is breached: any single metric above its configured limit
/// triggers, independently of the others. A sample without temperature
/// data never triggers on temperature.
pub open spec fn alert_condition(s: Sample, c: Config) -> bool {
    ||| s.cpu_percent > c.cpu_alert_threshold
    ||| s.memory_percent > c.memory_alert_threshold
    ||| match s.avg_temperature {
        Some(t) => t > c.temperature_alert_threshold,
        None => false,
    }
}

/// Decides whether the sample breaches any configured threshold.
pub fn alert_triggered(sample: &Sample, config: &Config) -> (r: bool)
    ensures
        r == alert_condition(*sample, *config),
{
    if sample.cpu_percent > config.cpu_alert_threshold {
        return true;
    }
    if sample.memory_percent > config.memory_alert_threshold {
        return true;
    }
    match &sample.avg_temperature {
        Some(t) => *t > config.temperature_alert_threshold,
        None => false,
    }
}

/// The alert condition is monotonic: raising any metric while the others
/// do not fall can only keep or trigger the alert, never clear it.
pub proof fn lemma_alert_monotonic(s1: Sample, s2: Sample, c: Config)
    requires
        alert_condition(s1, c),
        s2.cpu_percent >= s1.cpu_percent,
        s2.memory_percent >= s1.memory_percent,
        (s1.avg_temperature matches Some(t1) ==> s2.avg_temperature matches Some(t2) && t2 >= t1),
    ensures
        alert_condition(s2, c),
{
}

/// Any single metric past its threshold triggers the alert on its own,
/// whatever the other metrics read.
pub proof fn lemma_single_breach_triggers(s: Sample, c: Config)
    ensures
        s.cpu_percent > c.cpu_alert_threshold ==> alert_condition(s, c),
        s.memory_percent > c.memory_alert_threshold ==> alert_condition(s, c),
        (s.avg_temperature matches Some(t) && t > c.temperature_alert_threshold) ==> alert_condition(s, c),
{
}

/// A sample without temperature data never alerts on temperature: when the
/// other metrics are within their thresholds, no alert fires, whatever the
/// temperature threshold is.
pub proof fn lemma_no_temperature_data_never_alerts(s: Sample, c: Config)
    requires
        s.avg_temperature is None,
        s.cpu_percent <= c.cpu_alert_threshold,
        s.memory_percent <= c.memory_alert_threshold,
    ensures
        !alert_condition(s, c),
{
}

/// Assembles a sample from raw readings: the CPU percentage capped at
/// 100%, the memory percentage computed from used and total bytes, the
/// mean of the temperature readings (absent when there are none), and the
/// current wall-clock timestamp.
pub fn make_sample(
    cpu_percent_hundredths: u64,
    used_memory: u64,
    total_memory: u64,
    temperatures_centi: &Vec<u64>,
) -> (r: Sample)
    requires
        total_memory > 0,
    ensures
        r.cpu_percent == if cpu_percent_hundredths > 10000 { 10000u64 } else { cpu_percent_hundredths },
        used_memory <= total_memory ==> r.memory_percent == used_memory as int * 10000 / (total_memory as int),
        used_memory > total_memory ==> r.memory_percent == 10000,
        temperatures_centi@.len() == 0 ==> r.avg_temperature is None,
        temperatures_centi@.len() > 0 ==> (r.avg_temperature matches Some(a) && a
            == sum_centi(temperatures_centi@) / (temperatures_centi@.len() as int)),
        r.well_formed(),
{
    Sample {
        cpu_percent: clamp_percent(cpu_percent_hundredths),
        memory_percent: memory_percent_hundredths(used_memory, total_memory),
        avg_temperature: average_centi(temperatures_centi),
        timestamp: current_timestamp(),
    }
}

/// The JSON body for the stat endpoint, in the shape the configuration
/// chose.
pub enum StatPayload {
    /// The flat presentation record.
    Report(StatsLog),
    /// The wrapped notification payload.
    Notification(AlertMessage),
}

/// What one loop iteration must send: the unconditional stat post and,
/// exactly when a threshold is breached, the alert notification.
pub struct IterationPlan {
    /// Posted to the stat endpoint every iteration.
    pub stat: StatPayload,
    /// Posted to the alert endpoint; present exactly when a threshold is
    /// breached.
    pub alert: Option<AlertMessage>,
    /// Seconds to sleep before the next iteration: the configured
    /// interval, with no jitter and no drift correction.
    pub sleep_seconds: u64,
}

/// Plans one iteration: an `info` report of the sample is always posted to
/// the stat endpoint, in the configured shape, and a `warn` notification
/// of the same sample goes to the alert endpoint exactly when the alert
/// condition holds.
pub fn plan_iteration(config: &Config, sample: &Sample) -> (r: IterationPlan)
    ensures
        (config.stat_payload is Report ==> (r.stat matches StatPayload::Report(log)
            && log.name@ == config.name@
            && log.level == Level::Info
            && log.cpu@ == spec_percent_string(sample.cpu_percent)
            && log.mem@ == spec_percent_string(sample.memory_percent)
            && log.temp@ == spec_temp_string(sample.avg_temperature)
            && log.time@ == sample.timestamp@)),
        (config.stat_payload is Notification ==> (r.stat matches StatPayload::Notification(m)
            && notification_matches(
            m,
            config.name@,
            Level::Info,
            spec_percent_string(sample.cpu_percent),
            spec_percent_string(sample.memory_percent),
            spec_temp_string(sample.avg_temperature),
            sample.timestamp@,
        ))),
        r.alert is Some <==> alert_condition(*sample, *config),
        (r.alert matches Some(a) ==> notification_matches(
            a,
            config.name@,
            Level::Warn,
            spec_percent_string(sample.cpu_percent),
            spec_percent_string(sample.memory_percent),
            spec_temp_string(sample.avg_temperature),
            sample.timestamp@,
        )),
        r.sleep_seconds == config.interval_seconds,
{
    let stats = build_report(&config.name, Level::Info, sample);
    let stat = match config.stat_payload {
        PayloadShape::Report => StatPayload::Report(stats),
        PayloadShape::Notification => StatPayload::Notification(AlertMessage::from_stats(stats)),
    };
    let alert = if alert_triggered(sample, config) {
        let warn_report = build_report(&config.name, Level::Warn, sample);
        Some(AlertMessage::from_stats(warn_report))
    } else {
        None
    };
    IterationPlan { stat, alert, sleep_seconds: config.interval_seconds }
}

} // verus!
