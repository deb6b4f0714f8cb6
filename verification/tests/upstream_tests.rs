use hamh::upstream::{
    connect_result, entity_domain, find_area_slug, find_label_slug, find_registry_entry,
    list_entity_descriptors, registry_missing, slugify, subscribe_entities, HaAreaRegistryEntry,
    HaEntityRegistryEntry, HaEntityState, HaError, HaLabelRegistryEntry, HassAdapter,
    HomeAssistantClient, AREA_REGISTRY_PATH, STATES_PATH,
};
use serde_json::Value;

fn state(entity_id: &str) -> HaEntityState {
    HaEntityState {
        entity_id: entity_id.to_string(),
        state: "on".to_string(),
        attributes: Value::String(entity_id.to_string()),
    }
}

fn area(id: &str, name: &str) -> HaAreaRegistryEntry {
    HaAreaRegistryEntry { area_id: id.to_string(), name: name.to_string() }
}

fn label(id: &str, name: &str) -> HaLabelRegistryEntry {
    HaLabelRegistryEntry { label_id: id.to_string(), name: name.to_string() }
}

#[test]
fn slugify_examples() {
    assert_eq!(slugify("Living Room"), "living_room");
    assert_eq!(slugify("  A--B  "), "a_b");
    assert_eq!(slugify("foo"), "foo");
}

#[test]
fn slugify_edges() {
    assert_eq!(slugify(""), "");
    assert_eq!(slugify("___"), "");
    assert_eq!(slugify("  "), "");
    assert_eq!(slugify("a_b"), "a_b");
    assert_eq!(slugify("a__b"), "a_b");
    assert_eq!(slugify("K\u{fc}che 2"), "k_che_2");
    assert_eq!(slugify("ABC xyz 09"), "abc_xyz_09");
    assert_eq!(slugify("-x-"), "x");
}

#[test]
fn entity_domain_is_the_prefix_before_the_first_dot() {
    assert_eq!(entity_domain("light.kitchen"), "light");
    assert_eq!(entity_domain("sensor.a.b"), "sensor");
    assert_eq!(entity_domain("nodot"), "nodot");
    assert_eq!(entity_domain(".hidden"), "");
    assert_eq!(entity_domain(""), "");
}

#[test]
fn client_builds_addresses_without_doubled_slashes() {
    let client = HomeAssistantClient::new("http://ha.local:8123///".to_string(), "t".to_string());
    assert_eq!(client.url, "http://ha.local:8123///");
    assert_eq!(client.token, "t");
    assert_eq!(client.endpoint(STATES_PATH), "http://ha.local:8123/api/states");
    assert_eq!(
        client.endpoint(AREA_REGISTRY_PATH),
        "http://ha.local:8123/api/config/area_registry"
    );
    let plain = HomeAssistantClient::new("http://ha".to_string(), String::new());
    assert_eq!(plain.endpoint("/api/"), "http://ha/api/");
    let adapter = HassAdapter { client: plain };
    assert_eq!(adapter.client.url, "http://ha");
}

#[test]
fn auth_header_carries_the_token() {
    let client = HomeAssistantClient::new(String::new(), "abc.DEF-123".to_string());
    match client.auth_header() {
        Ok(value) => assert_eq!(value, "Bearer abc.DEF-123"),
        Err(_) => panic!("a plain token must be accepted"),
    }
    let tabbed = HomeAssistantClient::new(String::new(), "a\tb \u{e9}".to_string());
    assert!(tabbed.auth_header().is_ok());
}

#[test]
fn auth_header_refuses_control_characters() {
    for token in ["line\nbreak", "bell\u{7}", "del\u{7f}", "\r"] {
        let client = HomeAssistantClient::new(String::new(), token.to_string());
        match client.auth_header() {
            Err(HaError::InvalidHeader) => {}
            _ => panic!("a token with a control character must be refused"),
        }
    }
}

#[test]
fn ha_error_messages() {
    assert_eq!(HaError::NotImplemented.message(), "not implemented");
    assert_eq!(HaError::InvalidHeader.message(), "invalid header");
    let err = reqwest::Client::new().get("not a url").build().unwrap_err();
    let expected = format!("http error: {}", err);
    assert_eq!(HaError::Http(err).message(), expected);
}

#[test]
fn connect_and_registry_answers() {
    assert!(connect_result(200).is_ok());
    assert!(connect_result(204).is_ok());
    assert!(connect_result(299).is_ok());
    assert!(matches!(connect_result(199), Err(HaError::NotImplemented)));
    assert!(matches!(connect_result(300), Err(HaError::NotImplemented)));
    assert!(matches!(connect_result(401), Err(HaError::NotImplemented)));
    assert!(registry_missing(404));
    assert!(!registry_missing(200));
    assert!(!registry_missing(500));
    assert!(matches!(subscribe_entities(7), Err(HaError::NotImplemented)));
}

#[test]
fn registry_defaults_are_empty() {
    let e = HaEntityRegistryEntry::default();
    assert_eq!(e.entity_id, "");
    assert!(e.platform.is_none() && e.entity_category.is_none() && e.area_id.is_none());
    assert!(e.labels.is_none() && e.device_id.is_none());
    let a = HaAreaRegistryEntry::default();
    assert_eq!((a.area_id.as_str(), a.name.as_str()), ("", ""));
    let l = HaLabelRegistryEntry::default();
    assert_eq!((l.label_id.as_str(), l.name.as_str()), ("", ""));
}

#[test]
fn lookups_take_the_last_entry() {
    let mut first = HaEntityRegistryEntry::default();
    first.entity_id = "light.a".to_string();
    first.platform = Some("old".to_string());
    let mut second = HaEntityRegistryEntry::default();
    second.entity_id = "light.a".to_string();
    second.platform = Some("new".to_string());
    let registry = vec![first, second];
    assert_eq!(
        find_registry_entry(&registry, "light.a").and_then(|e| e.platform.clone()).as_deref(),
        Some("new")
    );
    assert!(find_registry_entry(&registry, "light.b").is_none());

    let areas = vec![area("a1", "Old Name"), area("a1", "New Name"), area("a2", "Hall")];
    assert_eq!(find_area_slug(&areas, "a1").as_deref(), Some("new_name"));
    assert_eq!(find_area_slug(&areas, "a2").as_deref(), Some("hall"));
    assert_eq!(find_area_slug(&areas, "a3"), None);
    let labels = vec![label("l1", "Main Floor")];
    assert_eq!(find_label_slug(&labels, "l1").as_deref(), Some("main_floor"));
    assert_eq!(find_label_slug(&labels, ""), None);
}

#[test]
fn descriptors_join_states_with_registries() {
    let mut reg = HaEntityRegistryEntry::default();
    reg.entity_id = "light.kitchen".to_string();
    reg.platform = Some("hue".to_string());
    reg.entity_category = Some("config".to_string());
    reg.area_id = Some("a1".to_string());
    reg.labels = Some(vec!["l2".to_string(), "missing".to_string(), "l1".to_string()]);
    reg.device_id = Some("dev9".to_string());
    let mut orphan = HaEntityRegistryEntry::default();
    orphan.entity_id = "fan.attic".to_string();
    orphan.area_id = Some("nowhere".to_string());

    let descriptors = list_entity_descriptors(
        vec![state("light.kitchen"), state("switch.plain"), state("fan.attic")],
        &vec![reg, orphan],
        &vec![area("a1", "Living Room")],
        &vec![label("l1", "Main Floor"), label("l2", "  A--B  ")],
    );
    assert_eq!(descriptors.len(), 3);

    let d = &descriptors[0];
    assert_eq!(d.entity_id, "light.kitchen");
    assert_eq!(d.domain, "light");
    assert_eq!(d.platform.as_deref(), Some("hue"));
    assert_eq!(d.entity_category.as_deref(), Some("config"));
    assert_eq!(d.area.as_deref(), Some("living_room"));
    assert_eq!(d.labels, vec!["a_b".to_string(), "main_floor".to_string()]);
    assert_eq!(d.device_id.as_deref(), Some("dev9"));
    assert_eq!(d.attributes, Value::String("light.kitchen".to_string()));

    let d = &descriptors[1];
    assert_eq!(d.entity_id, "switch.plain");
    assert_eq!(d.domain, "switch");
    assert!(d.platform.is_none() && d.entity_category.is_none() && d.area.is_none());
    assert!(d.labels.is_empty() && d.device_id.is_none());

    let d = &descriptors[2];
    assert_eq!(d.domain, "fan");
    assert!(d.area.is_none());
    assert!(d.labels.is_empty());
}

#[test]
fn descriptors_of_no_states_are_none() {
    let out = list_entity_descriptors(Vec::new(), &Vec::new(), &Vec::new(), &Vec::new());
    assert!(out.is_empty());
}

#[test]
fn slugs_have_the_shape_of_slugs() {
    for name in ["Living Room", "__A__", "a  b--c", "\u{e9}t\u{e9} 2024!", "---", "X", "_x_y_"] {
        let s = slugify(name);
        assert!(s.chars().all(|c| c.is_ascii_lowercase() || c.is_ascii_digit() || c == '_'));
        assert!(!s.starts_with('_') && !s.ends_with('_'));
        assert!(!s.contains("__"));
    }
    assert_eq!(slugify("\u{e9}t\u{e9} 2024!"), "t_2024");
    assert_eq!(slugify("_x_y_"), "x_y");
}
