use hc_ecowitt::cache::{cache_dir, load_cache};
use hc_ecowitt::json::Json;
use hc_ecowitt::registry::{DeviceRegistry, DeviceUpdate, RegistryCall};

fn registry() -> DeviceRegistry {
    registry_after(None)
}

/// A registry of a run that found the given text in the cache file.
fn registry_after(cache: Option<&str>) -> DeviceRegistry {
    DeviceRegistry::new("plugin.ecowitt".to_string(), "config/config.toml", cache)
}

fn update(id: &str, value: &str) -> DeviceUpdate {
    DeviceUpdate {
        device_id: id.to_string(),
        name: format!("Sensor {}", id),
        device_type: "weather",
        state: Json::Number(value.to_string()),
    }
}

/// Works a batch off, where `accepts` says which registrations HomeCore accepts. The calls that
/// are not registrations fail.
fn work_off(
    registry: &mut DeviceRegistry,
    updates: Vec<DeviceUpdate>,
    accepts: &[bool],
) -> Vec<RegistryCall> {
    let mut calls = vec![];
    let mut accepts = accepts.iter();
    let (mut batch, mut call) = registry.process_updates(updates);
    while call != RegistryCall::Done {
        let succeeded = match call {
            RegistryCall::RegisterDevice { .. } => *accepts.next().unwrap(),
            _ => false,
        };
        calls.push(call);
        let (next_batch, next_call) = registry.advance(batch, succeeded);
        batch = next_batch;
        call = next_call;
    }
    calls
}

fn register(id: &str) -> RegistryCall {
    RegistryCall::RegisterDevice {
        device_id: id.to_string(),
        name: format!("Sensor {}", id),
        device_type: "weather",
    }
}

fn publish(id: &str, value: &str) -> RegistryCall {
    RegistryCall::PublishState {
        device_id: id.to_string(),
        state: Json::Number(value.to_string()),
    }
}

#[test]
fn a_new_device_is_registered_and_every_update_is_published() {
    let mut registry = registry();
    let calls = work_off(&mut registry, vec![update("a", "1"), update("a", "2")], &[true]);
    assert_eq!(
        calls,
        vec![
            register("a"),
            RegistryCall::SubscribeCommands { device_id: "a".to_string() },
            RegistryCall::PublishAvailability { device_id: "a".to_string(), online: true },
            RegistryCall::SaveCache {
                path: registry.cache_path().to_string(),
                document: b"[\n  \"a\"\n]".to_vec(),
            },
            publish("a", "1"),
            publish("a", "2"),
        ]
    );
    assert!(registry.is_registered("a"));
    assert!(!registry.is_registered("b"));
}

#[test]
fn a_device_that_is_not_accepted_is_published_and_tried_again() {
    let mut registry = registry();
    let calls = work_off(&mut registry, vec![update("a", "1")], &[false]);
    assert_eq!(calls, vec![register("a"), publish("a", "1")]);
    assert!(!registry.is_registered("a"));
    let calls =
        work_off(&mut registry, vec![update("a", "2"), update("a", "3")], &[false, true]);
    assert_eq!(calls.len(), 7);
    assert_eq!(calls[0], register("a"));
    assert_eq!(calls[1], register("a"));
    assert!(registry.is_registered("a"));
}

#[test]
fn a_known_device_is_only_published() {
    let mut registry = registry();
    work_off(&mut registry, vec![update("a", "1"), update("b", "1")], &[true, true]);
    let calls = work_off(&mut registry, vec![update("b", "2"), update("a", "2")], &[]);
    assert_eq!(calls, vec![publish("b", "2"), publish("a", "2")]);
}

#[test]
fn an_empty_batch_does_nothing() {
    let mut registry = registry();
    assert_eq!(work_off(&mut registry, vec![], &[]), vec![]);
}

#[test]
fn all_devices_are_registered_before_anything_is_published() {
    let mut registry = registry();
    let calls = work_off(
        &mut registry,
        vec![update("a", "1"), update("b", "2"), update("c", "3")],
        &[true, false, true],
    );
    let published = calls.iter().position(|call| *call == publish("a", "1")).unwrap();
    assert_eq!(published, 4 + 1 + 4);
    assert_eq!(
        calls[published..],
        [publish("a", "1"), publish("b", "2"), publish("c", "3")]
    );
    assert!(registry.is_registered("c") && !registry.is_registered("b"));
}

#[test]
fn the_cache_is_read_back() {
    let mut registry = registry();
    work_off(
        &mut registry,
        vec![update("a\"b", "1"), update("wind \u{2014} \n", "2"), update("", "3")],
        &[true, true, true],
    );
    let text = String::from_utf8(registry.save_cache()).unwrap();
    assert_eq!(load_cache(Some(&text)), ["a\"b", "wind \u{2014} \n", ""]);
}

#[test]
fn an_empty_registry_writes_an_empty_list() {
    assert_eq!(registry().save_cache(), b"[]".to_vec());
}

#[test]
fn a_cache_that_is_missing_or_broken_lists_nothing() {
    assert!(load_cache(None).is_empty());
    assert!(load_cache(Some("")).is_empty());
    assert!(load_cache(Some("[\"a\"")).is_empty());
    assert!(load_cache(Some("[1]")).is_empty());
    assert!(load_cache(Some("{\"a\": \"b\"}")).is_empty());
    assert_eq!(load_cache(Some(" [\"a\", \"\\u0062\"] ")), ["a", "b"]);
}

#[test]
fn devices_of_an_earlier_run_that_were_not_seen_are_stale() {
    let mut registry = registry_after(Some("[\"c\", \"b\", \"a\", \"c\"]"));
    assert!(!registry.is_registered("b"));
    work_off(&mut registry, vec![update("b", "1")], &[true]);
    let stale = registry.cleanup_stale();
    let ids: Vec<&str> = stale.iter().map(|device| device.device_id.as_str()).collect();
    assert_eq!(ids, ["c", "a", "c"]);
    assert!(stale.iter().all(|device| device.plugin_id == "plugin.ecowitt"));
}

#[test]
fn writing_the_cache_does_not_hide_what_is_stale() {
    let mut registry = registry_after(Some("[\"a\", \"b\"]"));
    let calls = work_off(&mut registry, vec![update("a", "1")], &[true]);
    assert!(calls.iter().any(|call| matches!(call, RegistryCall::SaveCache { .. })));
    assert_eq!(registry.save_cache(), b"[\n  \"a\"\n]".to_vec());
    let stale = registry.cleanup_stale();
    assert_eq!(stale.len(), 1);
    assert_eq!(stale[0].device_id, "b");
}

#[test]
fn without_an_earlier_run_nothing_is_stale() {
    assert!(registry().cleanup_stale().is_empty());
    assert!(registry_after(Some("no list")).cleanup_stale().is_empty());
}

#[test]
fn the_cache_lies_beside_the_configuration() {
    let path = |config: &str| {
        DeviceRegistry::new("p".to_string(), config, None).cache_path().replace('\\', "/")
    };
    assert_eq!(path("config/config.toml"), "config/.published-device-ids.json");
    assert_eq!(path("/etc/hc/ecowitt.toml"), "/etc/hc/.published-device-ids.json");
    assert_eq!(path("config.toml"), ".published-device-ids.json");
    assert_eq!(path("./config.toml"), "./.published-device-ids.json");
    assert_eq!(path("../config.toml"), "../.published-device-ids.json");
    assert_eq!(path("a/../config.toml"), "a/../.published-device-ids.json");
    assert_eq!(path("conf.d/../x./config.toml"), "conf.d/../x./.published-device-ids.json");
    assert_eq!(path("/config.toml"), "/.published-device-ids.json");
    assert_eq!(path("/.."), "/.published-device-ids.json");
    assert_eq!(path(""), "./.published-device-ids.json");
    assert_eq!(path("/"), "./.published-device-ids.json");
}

#[test]
fn the_spelling_of_the_path_does_not_move_the_cache() {
    let path = |config: &str| {
        DeviceRegistry::new("p".to_string(), config, None).cache_path().replace('\\', "/")
    };
    for config in [
        "conf//c.toml",
        "conf///c.toml",
        "conf/./c.toml",
        "conf/.//./c.toml",
        "conf/c.toml/",
        "conf/c.toml//",
        "conf/c.toml/.",
        "conf/c.toml/./",
        "conf//..",
    ] {
        assert_eq!(path(config), "conf/.published-device-ids.json", "{}", config);
    }
    for config in ["c.toml/", "c.toml/.", ".", "./", "./.", "..", "../"] {
        assert_eq!(path(config), ".published-device-ids.json", "{}", config);
    }
    assert_eq!(path(".//c.toml"), "./.published-device-ids.json");
    assert_eq!(path("././c.toml"), "./.published-device-ids.json");
    assert_eq!(path("a//b/c.toml"), "a//b/.published-device-ids.json");
    assert_eq!(path("/c.toml/"), "/.published-device-ids.json");
    assert_eq!(path("/./c.toml"), "/.published-device-ids.json");
    assert_eq!(path("/."), "./.published-device-ids.json");
    assert_eq!(path("/./"), "./.published-device-ids.json");
}

#[test]
fn the_cache_has_its_own_name_wherever_the_configuration_lies() {
    for config in [
        "C:\\hc\\config.toml",
        "C:config.toml",
        "C:",
        "C:\\",
        "\\\\server\\share\\config.toml",
        "\\\\?\\C:\\hc\\config.toml",
        "//server/share/config.toml",
        "/srv/a:b/config.toml",
        "a\\",
    ] {
        let registry = DeviceRegistry::new("p".to_string(), config, None);
        assert!(registry.cache_path().ends_with(".published-device-ids.json"), "{}", config);
        assert_ne!(registry.cache_path(), config);
    }
    let registry = DeviceRegistry::new("p".to_string(), "/srv/a:b/config.toml", None);
    assert_eq!(
        registry.cache_path().replace('\\', "/"),
        "/srv/a:b/.published-device-ids.json"
    );
}

#[test]
fn a_configuration_without_a_parent_caches_in_the_working_directory() {
    assert_eq!(cache_dir(None), ".");
    assert_eq!(cache_dir(Some("config".to_string())), "config");
}

#[test]
fn the_last_save_of_a_batch_lists_the_registry() {
    let mut registry = registry();
    let calls = work_off(
        &mut registry,
        vec![update("a", "1"), update("b", "2"), update("c", "3")],
        &[true, true, false],
    );
    let last = calls.iter().rev().find_map(|call| match call {
        RegistryCall::SaveCache { document, .. } => Some(document.clone()),
        _ => None,
    });
    assert_eq!(last, Some(b"[\n  \"a\",\n  \"b\"\n]".to_vec()));
    assert_eq!(last, Some(registry.save_cache()));
    let text = String::from_utf8(last.unwrap()).unwrap();
    assert_eq!(load_cache(Some(&text)), ["a", "b"]);
}

#[test]
fn what_an_earlier_run_saved_is_stale_until_it_is_seen() {
    let mut earlier = registry();
    work_off(&mut earlier, vec![update("a", "1"), update("b", "2")], &[true, true]);
    let text = String::from_utf8(earlier.save_cache()).unwrap();
    let mut current = registry_after(Some(&text));
    assert_eq!(current.cleanup_stale().len(), 2);
    work_off(&mut current, vec![update("b", "3"), update("a", "4")], &[true, false]);
    let stale = current.cleanup_stale();
    assert_eq!(stale.len(), 1);
    assert_eq!(stale[0].device_id, "a");
    work_off(&mut current, vec![update("a", "5")], &[true]);
    assert!(current.cleanup_stale().is_empty());
}

#[test]
fn a_refused_device_is_tried_again_by_any_batch_that_has_news_of_it() {
    let mut registry = registry();
    work_off(
        &mut registry,
        vec![update("a", "1"), update("b", "1"), update("c", "1")],
        &[true, false, true],
    );
    let calls = work_off(
        &mut registry,
        vec![update("c", "2"), update("a", "2"), update("b", "2"), update("d", "2")],
        &[false, true],
    );
    let tried: Vec<&RegistryCall> = calls
        .iter()
        .filter(|call| matches!(call, RegistryCall::RegisterDevice { .. }))
        .collect();
    assert_eq!(tried, [&register("b"), &register("d")]);
    assert!(!registry.is_registered("b") && registry.is_registered("d"));
}
