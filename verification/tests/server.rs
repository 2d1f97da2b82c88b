use hc_ecowitt::address::{IpAddr, IpSet, SocketAddr};
use hc_ecowitt::config::{
    Config, ConfigFile, EcowittSection, HomecoreSection, LoggingConfig,
};
use hc_ecowitt::json::Json;
use hc_ecowitt::registry::DeviceUpdate;
use hc_ecowitt::server::{
    allowlist, bind_address, handle_report, ip_allowed, report_decoded, shared_state, Admission,
    Decoded, SharedState, REPORT_BODY_LIMIT_BYTES, REPORT_PATH, REPORT_PATH_SLASH,
};

/// Reads a dotted quad, or a `::` in front of one group.
fn ip(s: &str) -> IpAddr {
    match s.strip_prefix("::") {
        Some(group) => IpAddr::V6(u128::from_str_radix(group, 16).unwrap()),
        None => IpAddr::V4(
            s.split('.').fold(0, |bits, octet| bits << 8 | u32::from(octet.parse::<u8>().unwrap())),
        ),
    }
}

fn update(id: &str) -> DeviceUpdate {
    DeviceUpdate {
        device_id: id.to_string(),
        name: "Outdoor".to_string(),
        device_type: "sensor",
        state: Json::Null,
    }
}

#[test]
fn empty_allowlist_accepts_any() {
    let allow = IpSet::new();
    assert!(ip_allowed(&allow, ip("10.0.0.5")));
    assert!(ip_allowed(&allow, ip("192.168.1.1")));
    assert!(ip_allowed(&allow, ip("::1")));
}

#[test]
fn populated_allowlist_only_admits_listed_peers() {
    let mut allow = IpSet::new();
    allow.insert(ip("10.0.10.50"));
    allow.insert(ip("10.0.10.51"));
    assert!(ip_allowed(&allow, ip("10.0.10.50")));
    assert!(ip_allowed(&allow, ip("10.0.10.51")));
    assert!(!ip_allowed(&allow, ip("10.0.10.99")));
    assert!(!ip_allowed(&allow, ip("127.0.0.1")));
}

#[test]
fn allowlist_distinguishes_v4_from_v6_loopback() {
    let mut allow = IpSet::new();
    allow.insert(ip("127.0.0.1"));
    assert!(ip_allowed(&allow, ip("127.0.0.1")));
    assert!(!ip_allowed(&allow, ip("::1")));
}

#[test]
fn a_v6_entry_alone_refuses_v4_peers() {
    let mut allow = IpSet::new();
    assert!(allow.insert(ip("::1")));
    assert!(!allow.insert(ip("::1")));
    assert!(!allow.is_empty());
    assert!(ip_allowed(&allow, ip("::1")));
    assert!(!ip_allowed(&allow, ip("127.0.0.1")));
    assert!(!ip_allowed(&allow, IpAddr::V4(1)));
}

#[test]
fn a_report_from_a_stranger_is_forbidden() {
    let mut allowed = IpSet::new();
    allowed.insert(ip("10.0.10.50"));
    let state =
        SharedState { device_prefix: "ecowitt".to_string(), allowed_source_ips: allowed };
    assert_eq!(handle_report(&state, ip("10.0.10.99")), Admission::Respond(403));
    assert_eq!(handle_report(&state, ip("10.0.10.50")), Admission::Decode);
}

#[test]
fn a_report_without_sensor_data_is_taken_and_dropped() {
    assert_eq!(report_decoded(vec![]), Decoded::Respond(200));
}

#[test]
fn a_report_with_sensor_data_is_processed() {
    let updates = || vec![update("ecowitt_outdoor"), update("ecowitt_rain")];
    assert_eq!(
        report_decoded(updates()),
        Decoded::Process { updates: updates(), status: 200 }
    );
}

#[test]
fn an_address_that_cannot_be_read_falls_back_to_loopback() {
    assert_eq!(bind_address(None, 8888), SocketAddr { ip: ip("127.0.0.1"), port: 8888 });
    assert_eq!(
        bind_address(Some(ip("0.0.0.0")), 80),
        SocketAddr { ip: IpAddr::V4(0), port: 80 }
    );
}

#[test]
fn the_allowlist_holds_what_the_configuration_lists() {
    let list = allowlist(&vec![Some(ip("10.0.10.50")), Some(ip("::1")), Some(ip("::1"))]).unwrap();
    assert!(list.contains(&ip("10.0.10.50")));
    assert!(list.contains(&ip("::1")));
    assert!(!list.contains(&ip("10.0.10.51")));
    assert!(allowlist(&vec![]).unwrap().is_empty());
}

#[test]
fn an_entry_that_cannot_be_read_gives_no_allowlist() {
    assert_eq!(allowlist(&vec![Some(ip("10.0.10.50")), None, None]).err(), Some(1));
    assert_eq!(allowlist(&vec![None]).err(), Some(0));
}

#[test]
fn reports_are_posted_to_both_paths_and_are_small() {
    assert_eq!(REPORT_PATH, "/data/report");
    assert_eq!(REPORT_PATH_SLASH, "/data/report/");
    assert_eq!(REPORT_BODY_LIMIT_BYTES, 8192);
}

fn config(allowed: &[&str]) -> Config {
    let file = ConfigFile {
        homecore: HomecoreSection {
            broker_host: None,
            broker_port: None,
            plugin_id: None,
            password: None,
        },
        ecowitt: EcowittSection {
            listen_port: None,
            bind_addr: None,
            allowed_source_ips: Some(allowed.iter().map(|entry| entry.to_string()).collect()),
            gateway_ip: None,
            manual_hosts: None,
            poll_interval_secs: None,
            device_prefix: Some("garden".to_string()),
            gateway_username: None,
            gateway_password: None,
        },
        logging: LoggingConfig { log_forward_level: "info".to_string() },
    };
    Config::load("c.toml", Ok(file)).unwrap()
}

#[test]
fn the_receiver_goes_by_the_configuration() {
    let state = shared_state(
        &config(&["10.0.10.50", "::1"]),
        &vec![Some(ip("10.0.10.50")), Some(ip("::1"))],
    )
    .unwrap();
    assert_eq!(state.device_prefix, "garden");
    assert_eq!(handle_report(&state, ip("10.0.10.50")), Admission::Decode);
    assert_eq!(handle_report(&state, ip("::1")), Admission::Decode);
    assert_eq!(handle_report(&state, ip("10.0.10.51")), Admission::Respond(403));
    let open = shared_state(&config(&[]), &vec![]).unwrap();
    assert_eq!(handle_report(&open, ip("10.0.10.51")), Admission::Decode);
}

#[test]
fn an_entry_that_cannot_be_read_gives_no_receiver() {
    let state = shared_state(&config(&["10.0.10.50", "gateway"]), &vec![Some(IpAddr::V4(1)), None]);
    assert_eq!(state.err(), Some(1));
}
