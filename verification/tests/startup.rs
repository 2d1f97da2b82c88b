use hc_ecowitt::config::{Config, EcowittConfig, HomecoreConfig, LoggingConfig};
use hc_ecowitt::startup::{
    after_attempt, after_stage, config_path, init_logging, try_start, AfterAttempt, Progress,
    StartStage, StartStep,
};

fn config(gateway_ip: Option<&str>) -> Config {
    Config {
        homecore: HomecoreConfig {
            broker_host: "broker".to_string(),
            broker_port: 1883,
            plugin_id: "plugin.ecowitt".to_string(),
            password: "pw".to_string(),
        },
        ecowitt: EcowittConfig {
            listen_port: 8888,
            bind_addr: "127.0.0.1".to_string(),
            allowed_source_ips: vec![],
            gateway_ip: gateway_ip.map(|ip| ip.to_string()),
            manual_hosts: vec![],
            poll_interval_secs: 30,
            device_prefix: "ecowitt".to_string(),
            gateway_username: "admin".to_string(),
            gateway_password: String::new(),
        },
        logging: LoggingConfig { log_forward_level: "info".to_string() },
    }
}

/// The steps of an attempt in which the given stage fails, and how it ends.
fn attempt(config: &Config, failing: Option<StartStage>) -> (Vec<StartStep>, Result<(), String>) {
    let mut steps = vec![];
    let mut stage = StartStage::Preparing;
    loop {
        steps.push(try_start(stage, config, "c.toml", "1.2.3"));
        let outcome = if failing == Some(stage) { Err("broken".to_string()) } else { Ok(()) };
        match after_stage(stage, config, outcome) {
            Progress::Next(next) => stage = next,
            Progress::Over(end) => return (steps, end),
        }
    }
}

#[test]
fn the_configuration_path_has_a_default() {
    assert_eq!(config_path(None), "config/config.toml");
    assert_eq!(config_path(Some("/etc/x.toml".to_string())), "/etc/x.toml");
}

#[test]
fn logging_goes_by_the_file_where_there_is_one() {
    let level = |name: &str| LoggingConfig { log_forward_level: name.to_string() };
    let setup = init_logging("c.toml", Some(level("debug")), level("info"));
    assert_eq!(setup.config_path, "c.toml");
    assert_eq!(setup.name, "hc-ecowitt");
    assert_eq!(setup.default_filter, "hc_ecowitt=info");
    assert_eq!(setup.logging.log_forward_level, "debug");
    let setup = init_logging("c.toml", None, level("info"));
    assert_eq!(setup.logging.log_forward_level, "info");
}

#[test]
fn a_start_is_attempted_three_times() {
    assert_eq!(after_attempt(1, false), AfterAttempt::Retry { delay_secs: 60, attempt: 2 });
    assert_eq!(after_attempt(2, false), AfterAttempt::Retry { delay_secs: 60, attempt: 3 });
    assert_eq!(after_attempt(3, false), AfterAttempt::GiveUp { exit_code: 1 });
    assert_eq!(after_attempt(1, true), AfterAttempt::Finished);
    assert_eq!(after_attempt(3, true), AfterAttempt::Finished);
}

#[test]
fn a_full_start_with_a_gateway() {
    let (steps, end) = attempt(&config(Some("10.0.0.9")), None);
    assert_eq!(end, Ok(()));
    assert_eq!(
        steps,
        vec![
            StartStep::Prepare {
                plugin_id: "plugin.ecowitt".to_string(),
                config_path: "c.toml".to_string(),
            },
            StartStep::Connect {
                broker_host: "broker".to_string(),
                broker_port: 1883,
                plugin_id: "plugin.ecowitt".to_string(),
                password: "pw".to_string(),
            },
            StartStep::ForwardLogs {
                plugin_id: "plugin.ecowitt".to_string(),
                level: "info".to_string(),
            },
            StartStep::EnableManagement {
                heartbeat_secs: 60,
                version: "1.2.3".to_string(),
                config_path: "c.toml".to_string(),
            },
            StartStep::PublishStatus { status: "active" },
            StartStep::StartEventLoop,
            StartStep::Settle { millis: 100 },
            StartStep::StartPoller {
                gateway_ip: Some("10.0.0.9".to_string()),
                interval_secs: 30,
            },
            StartStep::Serve { bind_addr: "127.0.0.1".to_string(), port: 8888 },
        ]
    );
}

#[test]
fn without_a_gateway_nothing_is_polled() {
    let (steps, end) = attempt(&config(None), None);
    assert_eq!(end, Ok(()));
    assert_eq!(steps.len(), 8);
    assert!(!steps.iter().any(|step| matches!(step, StartStep::StartPoller { .. })));
}

#[test]
fn a_vital_stage_that_fails_ends_the_attempt() {
    for (stage, count) in [
        (StartStage::Preparing, 1),
        (StartStage::Connecting, 2),
        (StartStage::EnablingManagement, 4),
    ] {
        let (steps, end) = attempt(&config(None), Some(stage));
        assert_eq!(steps.len(), count);
        assert_eq!(end, Err("broken".to_string()));
    }
}

#[test]
fn any_other_failure_is_passed_over() {
    for stage in [
        StartStage::ForwardingLogs,
        StartStage::PublishingStatus,
        StartStage::StartingEventLoop,
        StartStage::Settling,
        StartStage::StartingPoller,
        StartStage::Serving,
    ] {
        let (steps, end) = attempt(&config(Some("10.0.0.9")), Some(stage));
        assert_eq!(steps.len(), 9);
        assert_eq!(end, Ok(()));
    }
}
