use hc_ecowitt::actions::{
    conclude, requested_action, run_action, settle, ActionStep, Fetch, Run,
};
use hc_ecowitt::json::Json;

fn text(s: &str) -> Json {
    Json::Str(s.to_string())
}

fn number(s: &str) -> Json {
    Json::Number(s.to_string())
}

fn object(fields: Vec<(&str, Json)>) -> Json {
    Json::Object(fields.into_iter().map(|(key, value)| (key.to_string(), value)).collect())
}

fn hosts(list: &[&str]) -> Vec<String> {
    list.iter().map(|host| host.to_string()).collect()
}

fn gateway() -> Option<String> {
    Some("10.0.0.9".to_string())
}

fn start(action: &str, gateway_ip: Option<String>, manual: &[&str]) -> ActionStep {
    run_action(action, gateway_ip, hosts(manual)).unwrap()
}

/// Expects a request for a JSON document, and answers it.
fn answer(step: ActionStep, expected_url: &str, result: Result<Json, &str>) -> ActionStep {
    match step {
        ActionStep::FetchJson { fetch, url } => {
            assert_eq!(url, expected_url);
            fetch.resume(result.map_err(|e| e.to_string()))
        }
        other => panic!("unexpected step {:?}", other),
    }
}

/// Expects a request for text, and answers it.
fn answer_text(step: ActionStep, expected_url: &str, result: Result<&str, &str>) -> ActionStep {
    match step {
        ActionStep::FetchText { rebooting, url } => {
            assert_eq!(url, expected_url);
            rebooting.resume(result.map(|t| t.to_string()).map_err(|e| e.to_string()))
        }
        other => panic!("unexpected step {:?}", other),
    }
}

/// Expects a broadcast, and answers it.
fn answer_discovery(step: ActionStep, result: Result<Vec<Json>, &str>) -> ActionStep {
    match step {
        ActionStep::Discover { discovery, wait_secs } => {
            assert_eq!(wait_secs, 3);
            discovery.resume(result.map_err(|e| e.to_string()))
        }
        other => panic!("unexpected step {:?}", other),
    }
}

fn reply(step: ActionStep) -> Json {
    match step {
        ActionStep::Finished { reply } => reply,
        other => panic!("unexpected step {:?}", other),
    }
}

fn error(message: &str) -> Json {
    object(vec![("status", text("error")), ("error", text(message))])
}

#[test]
fn unknown_action_is_not_run() {
    assert!(run_action("make_coffee", gateway(), vec![]).is_none());
    assert!(run_action("", None, vec![]).is_none());
    assert!(run_action("Reboot_Gateway", gateway(), vec![]).is_none());
}

#[test]
fn discovery_counts_the_consoles() {
    let step = start("discover_gateways", gateway(), &[]);
    let found = || -> Vec<Json> { (0..12).map(|i| number(&i.to_string())).collect() };
    let step = answer_discovery(step, Ok(found()));
    assert_eq!(
        reply(step),
        object(vec![
            ("status", text("ok")),
            ("discovered", Json::Array(found())),
            ("count", number("12")),
        ])
    );
}

#[test]
fn an_empty_discovery_is_no_error() {
    let step = answer_discovery(start("discover_gateways", None, &[]), Ok(vec![]));
    assert_eq!(
        reply(step),
        object(vec![
            ("status", text("ok")),
            ("discovered", Json::Array(vec![])),
            ("count", number("0")),
        ])
    );
}

#[test]
fn a_failed_broadcast_is_reported() {
    let step = answer_discovery(start("discover_gateways", None, &[]), Err("network unreachable"));
    assert_eq!(reply(step), error("UDP discovery failed: network unreachable"));
}

#[test]
fn a_failed_broadcast_does_not_keep_the_listed_hosts_from_being_asked() {
    let step = start("discover_gateways", None, &["10.1.0.2", "10.1.0.3"]);
    let step = answer_discovery(step, Err("network unreachable"));
    let step = answer(step, "http://10.1.0.2/get_device_info?", Err("timed out"));
    let step = answer(step, "http://10.1.0.3/get_device_info?", Ok(text("GW2000")));
    assert_eq!(
        reply(step),
        object(vec![
            ("status", text("ok")),
            (
                "discovered",
                Json::Array(vec![object(vec![
                    ("ip", text("10.1.0.3")),
                    ("info", text("GW2000"))
                ])])
            ),
            ("count", number("1")),
        ])
    );
}

#[test]
fn a_failed_broadcast_is_reported_where_no_listed_host_answers() {
    let step = start("discover_gateways", None, &["10.1.0.2"]);
    let step = answer_discovery(step, Err("network unreachable"));
    let step = answer(step, "http://10.1.0.2/get_device_info?", Err("timed out"));
    assert_eq!(reply(step), error("UDP discovery failed: network unreachable"));
}

#[test]
fn listed_hosts_that_answer_are_merged_into_a_discovery() {
    let step = start("discover_gateways", None, &["10.1.0.2", "10.1.0.3", "10.1.0.4"]);
    let step = answer_discovery(step, Ok(vec![text("udp")]));
    let step = answer(step, "http://10.1.0.2/get_device_info?", Ok(text("GW1100")));
    let step = answer(step, "http://10.1.0.3/get_device_info?", Err("timed out"));
    let step = answer(step, "http://10.1.0.4/get_device_info?", Ok(text("GW2000")));
    assert_eq!(
        reply(step),
        object(vec![
            ("status", text("ok")),
            (
                "discovered",
                Json::Array(vec![
                    text("udp"),
                    object(vec![("ip", text("10.1.0.2")), ("info", text("GW1100"))]),
                    object(vec![("ip", text("10.1.0.4")), ("info", text("GW2000"))]),
                ])
            ),
            ("count", number("3")),
        ])
    );
}

#[test]
fn a_refresh_combines_both_pages() {
    let step = start("refresh_sensors", gateway(), &["10.1.0.2"]);
    let step = answer(
        step,
        "http://10.0.0.9/get_sensors_info?page=1",
        Err("status 404 Not Found"),
    );
    let step =
        answer(step, "http://10.0.0.9/get_sensors_info?page=2", Ok(Json::Array(vec![])));
    assert_eq!(
        reply(step),
        object(vec![
            ("status", text("ok")),
            (
                "sensors",
                object(vec![
                    ("page_1", object(vec![("error", text("status 404 Not Found"))])),
                    ("page_2", Json::Array(vec![])),
                ])
            ),
        ])
    );
}

#[test]
fn the_gateway_describes_itself() {
    let info = || object(vec![("model", text("GW1100A")), ("ports", number("1"))]);
    let step = start("get_gateway_info", gateway(), &[]);
    let step = answer(step, "http://10.0.0.9/get_device_info?", Ok(info()));
    assert_eq!(reply(step), object(vec![("status", text("ok")), ("info", info())]));
}

#[test]
fn a_gateway_that_does_not_answer_is_reported() {
    let step = start("get_gateway_info", gateway(), &[]);
    let step = answer(step, "http://10.0.0.9/get_device_info?", Err("timed out"));
    assert_eq!(reply(step), error("get_device_info: timed out"));
}

#[test]
fn the_first_reboot_address_that_accepts_ends_the_search() {
    let step = start("reboot_gateway", gateway(), &[]);
    let step = answer_text(step, "http://10.0.0.9/reboot.html", Err("status 404 Not Found"));
    let step = answer_text(step, "http://10.0.0.9/reboot.cgi", Ok(""));
    assert_eq!(
        reply(step),
        object(vec![("status", text("ok")), ("endpoint", text("http://10.0.0.9/reboot.cgi"))])
    );
}

#[test]
fn the_first_reboot_address_may_do() {
    let step = start("reboot_gateway", gateway(), &[]);
    let step = answer_text(step, "http://10.0.0.9/reboot.html", Ok("<html>"));
    assert_eq!(
        reply(step),
        object(vec![("status", text("ok")), ("endpoint", text("http://10.0.0.9/reboot.html"))])
    );
}

#[test]
fn a_reboot_that_no_address_accepts_is_reported() {
    let step = start("reboot_gateway", gateway(), &[]);
    let step = answer_text(step, "http://10.0.0.9/reboot.html", Err("a"));
    let step = answer_text(step, "http://10.0.0.9/reboot.cgi", Err("b"));
    let step = answer_text(step, "http://10.0.0.9/cgi-bin/reboot", Err("c"));
    assert_eq!(
        reply(step),
        error("no known reboot endpoint accepted; check gateway firmware")
    );
}

#[test]
fn without_a_gateway_there_is_nothing_to_query() {
    for action in ["refresh_sensors", "get_gateway_info"] {
        assert_eq!(
            reply(start(action, None, &[])),
            error("gateway_ip not configured; nothing to query")
        );
    }
    assert_eq!(
        reply(start("reboot_gateway", None, &[])),
        error("gateway_ip not configured; nothing to reboot")
    );
}

#[test]
fn a_listed_host_that_answers_stands_in_for_the_gateway() {
    let step = start("reboot_gateway", None, &["10.1.0.2", "10.1.0.3", "10.1.0.4"]);
    let step = answer(step, "http://10.1.0.2/get_device_info?", Err("timed out"));
    let step = answer(step, "http://10.1.0.3/get_device_info?", Ok(Json::Null));
    let step = answer_text(step, "http://10.1.0.3/reboot.html", Ok("ok"));
    assert_eq!(
        reply(step),
        object(vec![("status", text("ok")), ("endpoint", text("http://10.1.0.3/reboot.html"))])
    );
}

#[test]
fn no_listed_host_answers() {
    let step = start("refresh_sensors", None, &["10.1.0.2"]);
    let step = answer(step, "http://10.1.0.2/get_device_info?", Err("timed out"));
    assert_eq!(reply(step), error("gateway_ip not configured; nothing to query"));
}

#[test]
fn a_run_can_be_taken_up_from_any_stage() {
    let step = Fetch::SecondPage { ip: "h".to_string(), first: Json::Bool(true) }
        .resume(Ok(Json::Bool(false)));
    assert_eq!(
        reply(step),
        object(vec![
            ("status", text("ok")),
            (
                "sensors",
                object(vec![("page_1", Json::Bool(true)), ("page_2", Json::Bool(false))])
            ),
        ])
    );
}

#[test]
fn the_requested_action_is_read_from_the_command() {
    let command = object(vec![("id", number("7")), ("action", text("reboot_gateway"))]);
    assert_eq!(requested_action(&command), Some("reboot_gateway".to_string()));
    assert_eq!(requested_action(&object(vec![("action", number("1"))])), None);
    assert_eq!(requested_action(&object(vec![("id", text("action"))])), None);
    assert_eq!(requested_action(&text("action")), None);
    assert_eq!(requested_action(&Json::Null), None);
}

/// The answer to a command, where a run that begins ends with the given reply or breaks off.
fn handle(action: &str, end: Option<Json>) -> Option<Json> {
    let begun = run_action(action, gateway(), vec![]).is_some();
    settle(action, conclude(begun, end))
}

#[test]
fn a_run_that_broke_off_is_an_error() {
    let message = || Some(error("action 'reboot_gateway' failed or is unknown"));
    assert_eq!(settle("reboot_gateway", Run::BrokeOff), message());
    assert_eq!(handle("reboot_gateway", None), message());
}

#[test]
fn an_unknown_action_is_left_to_others() {
    assert_eq!(settle("make_coffee", Run::Unknown), None);
    assert_eq!(handle("make_coffee", None), None);
    assert_eq!(handle("x", Some(Json::Bool(true))), None);
}

#[test]
fn a_reply_is_handed_on() {
    assert_eq!(settle("refresh_sensors", Run::Replied(Json::Bool(true))), Some(Json::Bool(true)));
    assert_eq!(handle("refresh_sensors", Some(Json::Null)), Some(Json::Null));
}
