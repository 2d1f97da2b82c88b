use hc_ecowitt::config::{
    default_bind_addr, default_broker_host, default_broker_port, default_device_prefix,
    default_gateway_username, default_listen_port, default_plugin_id, default_poll_interval,
    Config, ConfigFile, EcowittSection, HomecoreSection, LoadFailure, LoggingConfig,
};

fn empty_file() -> ConfigFile {
    ConfigFile {
        homecore: HomecoreSection {
            broker_host: None,
            broker_port: None,
            plugin_id: None,
            password: None,
        },
        ecowitt: EcowittSection {
            listen_port: None,
            bind_addr: None,
            allowed_source_ips: None,
            gateway_ip: None,
            manual_hosts: None,
            poll_interval_secs: None,
            device_prefix: None,
            gateway_username: None,
            gateway_password: None,
        },
        logging: LoggingConfig { log_forward_level: "warn".to_string() },
    }
}

#[test]
fn the_defaults() {
    assert_eq!(default_broker_host(), "127.0.0.1");
    assert_eq!(default_broker_port(), 1883);
    assert_eq!(default_plugin_id(), "plugin.ecowitt");
    assert_eq!(default_listen_port(), 8888);
    assert_eq!(default_bind_addr(), "127.0.0.1");
    assert_eq!(default_poll_interval(), 60);
    assert_eq!(default_device_prefix(), "ecowitt");
    assert_eq!(default_gateway_username(), "admin");
}

#[test]
fn empty_sections_take_the_defaults() {
    let config = Config::load("c.toml", Ok(empty_file())).unwrap();
    assert_eq!(config.homecore.broker_host, "127.0.0.1");
    assert_eq!(config.homecore.broker_port, 1883);
    assert_eq!(config.homecore.plugin_id, "plugin.ecowitt");
    assert_eq!(config.homecore.password, "");
    assert_eq!(config.ecowitt.listen_port, 8888);
    assert_eq!(config.ecowitt.bind_addr, "127.0.0.1");
    assert!(config.ecowitt.allowed_source_ips.is_empty());
    assert_eq!(config.ecowitt.gateway_ip, None);
    assert!(config.ecowitt.manual_hosts.is_empty());
    assert_eq!(config.ecowitt.poll_interval_secs, 60);
    assert_eq!(config.ecowitt.device_prefix, "ecowitt");
    assert_eq!(config.ecowitt.gateway_username, "admin");
    assert_eq!(config.ecowitt.gateway_password, "");
    assert_eq!(config.logging.log_forward_level, "warn");
}

#[test]
fn what_the_file_says_is_kept() {
    let mut file = empty_file();
    file.homecore.broker_host = Some("broker".to_string());
    file.homecore.broker_port = Some(8883);
    file.homecore.plugin_id = Some("plugin.weather".to_string());
    file.homecore.password = Some("pw".to_string());
    file.ecowitt.listen_port = Some(9000);
    file.ecowitt.bind_addr = Some("0.0.0.0".to_string());
    file.ecowitt.allowed_source_ips = Some(vec!["10.0.0.9".to_string()]);
    file.ecowitt.gateway_ip = Some("10.0.0.9".to_string());
    file.ecowitt.manual_hosts = Some(vec!["10.1.0.2".to_string(), "10.1.0.3".to_string()]);
    file.ecowitt.poll_interval_secs = Some(5);
    file.ecowitt.device_prefix = Some("wx".to_string());
    file.ecowitt.gateway_username = Some("root".to_string());
    file.ecowitt.gateway_password = Some("gw".to_string());
    let config = Config::load("c.toml", Ok(file)).unwrap();
    assert_eq!(config.homecore.broker_host, "broker");
    assert_eq!(config.homecore.broker_port, 8883);
    assert_eq!(config.homecore.plugin_id, "plugin.weather");
    assert_eq!(config.homecore.password, "pw");
    assert_eq!(config.ecowitt.listen_port, 9000);
    assert_eq!(config.ecowitt.bind_addr, "0.0.0.0");
    assert_eq!(config.ecowitt.allowed_source_ips, ["10.0.0.9"]);
    assert_eq!(config.ecowitt.gateway_ip.as_deref(), Some("10.0.0.9"));
    assert_eq!(config.ecowitt.manual_hosts, ["10.1.0.2", "10.1.0.3"]);
    assert_eq!(config.ecowitt.poll_interval_secs, 5);
    assert_eq!(config.ecowitt.device_prefix, "wx");
    assert_eq!(config.ecowitt.gateway_username, "root");
    assert_eq!(config.ecowitt.gateway_password, "gw");
}

#[test]
fn an_unreadable_file_is_named() {
    let failure = LoadFailure::Unreadable("No such file or directory (os error 2)".to_string());
    assert_eq!(
        Config::load("config/config.toml", Err(failure)).unwrap_err(),
        "Cannot read config config/config.toml: No such file or directory (os error 2)"
    );
}

#[test]
fn a_malformed_file_is_named() {
    let failure = LoadFailure::Malformed("missing field `ecowitt`".to_string());
    assert_eq!(
        Config::load("c.toml", Err(failure)).unwrap_err(),
        "Config parse error in c.toml: missing field `ecowitt`"
    );
}
