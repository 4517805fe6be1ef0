use statbeacon::beacon::alert_triggered;
use statbeacon::beacon::make_sample;
use statbeacon::beacon::plan_iteration;
use statbeacon::beacon::StatPayload;
use statbeacon::config::parse_payload_shape;
use statbeacon::config::Config;
use statbeacon::config::ConfigError;
use statbeacon::config::PayloadShape;
use statbeacon::metrics::Sample;
use statbeacon::report::AlertMessage;
use statbeacon::report::Level;

fn test_config() -> Config {
    Config {
        name: String::from("webserver"),
        interval_seconds: 5,
        proxy: None,
        target_stat_url: String::from("http://stats.example/ingest"),
        target_alert_url: String::from("http://alerts.example/ingest"),
        cpu_alert_threshold: 8000,
        memory_alert_threshold: 9000,
        temperature_alert_threshold: 7000,
        stat_payload: PayloadShape::Notification,
    }
}

fn expect_notification(stat: StatPayload) -> AlertMessage {
    match stat {
        StatPayload::Notification(m) => m,
        StatPayload::Report(_) => panic!("expected the wrapped notification shape"),
    }
}

fn sample(cpu: u64, mem: u64, temp: Option<u64>) -> Sample {
    Sample {
        cpu_percent: cpu,
        memory_percent: mem,
        avg_temperature: temp,
        timestamp: String::from("01/02/2026, 03:04:05"),
    }
}

#[test]
fn cpu_breach_plans_both_posts() {
    // Thresholds 80/90/70, readings 85.0% CPU, 50.0% memory, 60.0 degrees:
    // the CPU breach alone must fire the alert.
    let config = test_config();
    assert!(config.validate().is_ok());
    assert_eq!(config.interval_seconds, 5);
    let s = sample(8500, 5000, Some(6000));
    let plan = plan_iteration(&config, &s);
    let stat = expect_notification(plan.stat);
    assert_eq!(stat.attachments[0].title, "System Update");
    assert_eq!(stat.attachments[0].fields[1].value, "info");
    let alert = plan.alert.expect("cpu breach must plan an alert post");
    assert_eq!(alert.attachments[0].title, "System Alert");
    assert_eq!(alert.attachments[0].fields[1].value, "warn");
    assert_eq!(alert.attachments[0].fields[2].value, "85.00%");
    // The next sleep is exactly the configured interval.
    assert_eq!(plan.sleep_seconds, 5);
}

#[test]
fn quiet_sample_plans_only_the_stat_post() {
    let config = test_config();
    let s = sample(5000, 5000, Some(6000));
    let plan = plan_iteration(&config, &s);
    let stat = expect_notification(plan.stat);
    assert_eq!(stat.attachments[0].title, "System Update");
    assert!(plan.alert.is_none());
}

#[test]
fn report_shape_posts_the_flat_record() {
    let mut config = test_config();
    config.stat_payload = PayloadShape::Report;
    let s = sample(5000, 2500, None);
    let plan = plan_iteration(&config, &s);
    match plan.stat {
        StatPayload::Report(log) => {
            assert_eq!(log.name, "webserver");
            assert_eq!(log.level, Level::Info);
            assert_eq!(log.cpu, "50.00%");
            assert_eq!(log.mem, "25.00%");
            assert_eq!(log.temp, "n/a");
            assert_eq!(log.time, "01/02/2026, 03:04:05");
        }
        StatPayload::Notification(_) => panic!("expected the flat report shape"),
    }
}

#[test]
fn payload_shape_names() {
    assert_eq!(parse_payload_shape(&String::from("report")), Some(PayloadShape::Report));
    assert_eq!(
        parse_payload_shape(&String::from("notification")),
        Some(PayloadShape::Notification)
    );
    assert_eq!(parse_payload_shape(&String::from("Report")), None);
    assert_eq!(parse_payload_shape(&String::from("")), None);
}

#[test]
fn memory_breach_triggers() {
    let config = test_config();
    assert!(alert_triggered(&sample(5000, 9001, Some(6000)), &config));
}

#[test]
fn temperature_breach_triggers() {
    let config = test_config();
    assert!(alert_triggered(&sample(5000, 5000, Some(7001)), &config));
}

#[test]
fn threshold_itself_does_not_trigger() {
    let config = test_config();
    assert!(!alert_triggered(&sample(8000, 9000, Some(7000)), &config));
}

#[test]
fn missing_temperature_never_triggers_on_temperature() {
    let mut config = test_config();
    config.temperature_alert_threshold = 0;
    assert!(!alert_triggered(&sample(5000, 5000, None), &config));
}

#[test]
fn made_sample_is_clamped_and_averaged() {
    let temps = vec![6000u64, 6200u64];
    let s = make_sample(12345, 50, 100, &temps);
    assert_eq!(s.cpu_percent, 10000);
    assert_eq!(s.memory_percent, 5000);
    assert_eq!(s.avg_temperature, Some(6100));
    // The timestamp came from the wall clock in the fixed pattern
    // "dd/mm/yyyy, hh:mm:ss".
    assert_eq!(s.timestamp.len(), 20);
    assert_eq!(&s.timestamp[2..3], "/");
    assert_eq!(&s.timestamp[10..12], ", ");
}

#[test]
fn made_sample_without_sensors_has_no_temperature() {
    let temps: Vec<u64> = Vec::new();
    let s = make_sample(700, 1, 4, &temps);
    assert_eq!(s.cpu_percent, 700);
    assert_eq!(s.memory_percent, 2500);
    assert_eq!(s.avg_temperature, None);
}

#[test]
fn zero_interval_is_rejected() {
    let mut config = test_config();
    config.interval_seconds = 0;
    assert_eq!(config.validate(), Err(ConfigError::ZeroInterval));
    assert_eq!(
        ConfigError::ZeroInterval.message(),
        "interval_seconds must be positive"
    );
}
