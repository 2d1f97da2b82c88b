use hc_ecowitt::actions::run_action;
use hc_ecowitt::capabilities::{capabilities_manifest, Concurrency, RequiresRole};
use hc_ecowitt::json::Json;

#[test]
fn the_manifest_lists_the_four_actions() {
    let manifest = capabilities_manifest();
    assert_eq!(manifest.spec, "1");
    assert_eq!(manifest.plugin_id, "");
    let ids: Vec<&str> = manifest.actions.iter().map(|action| action.id.as_str()).collect();
    assert_eq!(
        ids,
        ["discover_gateways", "refresh_sensors", "get_gateway_info", "reboot_gateway"]
    );
    let labels: Vec<&str> = manifest.actions.iter().map(|action| action.label.as_str()).collect();
    assert_eq!(
        labels,
        ["Discover gateways", "Refresh sensor inventory", "Gateway info", "Reboot gateway"]
    );
}

#[test]
fn every_listed_action_can_be_run() {
    for action in capabilities_manifest().actions {
        assert!(run_action(&action.id, None, vec![]).is_some());
    }
}

#[test]
fn only_the_reboot_needs_an_admin() {
    for action in capabilities_manifest().actions {
        let role = if action.id == "reboot_gateway" {
            RequiresRole::Admin
        } else {
            RequiresRole::User
        };
        assert_eq!(action.requires_role, role);
        assert_eq!(action.concurrency, Concurrency::Default);
        assert!(!action.stream && !action.cancelable);
        assert!(action.params.is_none() && action.timeout_ms.is_none());
        assert!(action.item_key.is_none() && action.item_operations.is_none());
    }
}

#[test]
fn the_manifest_describes_actions_and_results() {
    let manifest = capabilities_manifest();
    assert_eq!(
        manifest.actions[0].description.as_deref(),
        Some(
            "Send a UDP CMD_BROADCAST query on port 45000 and \
             listen ~3 seconds for replies. Returns the list \
             of consoles on the LAN with MAC, IP, and any \
             model / firmware strings extractable from the \
             reply payload."
        )
    );
    assert_eq!(
        manifest.actions[3].description.as_deref(),
        Some(
            "Reboot the configured Ecowitt console via its \
             web UI's reboot endpoint. Use sparingly — \
             interrupts uploads for ~30 seconds while the \
             console restarts."
        )
    );
    let typed = |name: &str| Json::Object(vec![("type".to_string(), Json::Str(name.to_string()))]);
    assert_eq!(
        manifest.actions[0].result,
        Some(Json::Object(vec![
            ("discovered".to_string(), typed("array")),
            ("count".to_string(), typed("integer")),
        ]))
    );
    assert_eq!(
        manifest.actions[2].result,
        Some(Json::Object(vec![("info".to_string(), typed("object"))]))
    );
    assert_eq!(manifest.actions[3].result, None);
}
