use hamh::filter::{matches_filter, matches_rule, wildcard_match, EntityDescriptor};
use hamh::models::{BridgeFilter, EntityFilter, FilterKind};

fn descriptor(entity_id: &str, domain: &str) -> EntityDescriptor {
    EntityDescriptor {
        entity_id: entity_id.to_string(),
        domain: domain.to_string(),
        platform: None,
        entity_category: None,
        area: None,
        labels: Vec::new(),
        device_id: None,
        attributes: serde_json::Value::Null,
    }
}

fn rule(kind: FilterKind, value: &str) -> EntityFilter {
    EntityFilter { kind, value: value.to_string() }
}

#[test]
fn wildcard_star_matches_everything() {
    assert!(wildcard_match("*", ""));
    assert!(wildcard_match("*", "light.kitchen"));
    assert!(wildcard_match("*", "*"));
    assert!(wildcard_match("**", "abc"));
}

#[test]
fn wildcard_empty_pattern_matches_only_empty_text() {
    assert!(wildcard_match("", ""));
    assert!(!wildcard_match("", "a"));
    assert!(!wildcard_match("", "light.kitchen"));
}

#[test]
fn wildcard_question_mark_takes_exactly_one_character() {
    assert!(wildcard_match("a?c", "abc"));
    assert!(!wildcard_match("a?c", "ac"));
    assert!(!wildcard_match("a?c", "abbc"));
    assert!(wildcard_match("?", "x"));
    assert!(!wildcard_match("?", ""));
}

#[test]
fn wildcard_literals_and_runs() {
    assert!(wildcard_match("light.guest_*", "light.guest_lamp"));
    assert!(wildcard_match("light.guest_*", "light.guest_"));
    assert!(!wildcard_match("light.guest_*", "light.living"));
    assert!(wildcard_match("*.kitchen", "light.kitchen"));
    assert!(!wildcard_match("*.kitchen", "light.kitchen2"));
    assert!(wildcard_match("a*b*c", "a__b__c"));
    assert!(!wildcard_match("a*b*c", "a__c__b"));
    assert!(wildcard_match("light.kitchen", "light.kitchen"));
    assert!(!wildcard_match("light.kitchen", "light.kitche"));
    assert!(!wildcard_match("abc", "abd"));
}

#[test]
fn wildcard_works_on_characters_beyond_ascii() {
    assert!(wildcard_match("k?che", "k\u{fc}che"));
    assert!(wildcard_match("*\u{e9}", "caf\u{e9}"));
    assert!(!wildcard_match("??", "\u{e9}"));
}

#[test]
fn empty_filter_matches_every_descriptor() {
    let filter = BridgeFilter::default();
    assert!(filter.includes.is_empty());
    assert!(filter.exclude.is_empty());
    assert!(matches_filter(&filter, &descriptor("light.kitchen", "light")));
    assert!(matches_filter(&filter, &descriptor("", "")));
    assert!(matches_filter(&filter, &descriptor("sensor.temp", "sensor")));
}

#[test]
fn filter_domain_include_only() {
    let filter = BridgeFilter {
        includes: vec![rule(FilterKind::Domain, "light")],
        exclude: Vec::new(),
    };
    let all = vec![
        descriptor("light.kitchen", "light"),
        descriptor("switch.fan", "switch"),
        descriptor("sensor.temp", "sensor"),
    ];
    let kept: Vec<&EntityDescriptor> = all.iter().filter(|d| matches_filter(&filter, d)).collect();
    assert_eq!(kept.len(), 1);
    assert_eq!(kept[0].entity_id, "light.kitchen");
}

#[test]
fn filter_pattern_exclude() {
    let filter = BridgeFilter {
        includes: Vec::new(),
        exclude: vec![rule(FilterKind::Pattern, "light.guest_*")],
    };
    let all = vec![descriptor("light.guest_lamp", "light"), descriptor("light.living", "light")];
    let kept: Vec<&EntityDescriptor> = all.iter().filter(|d| matches_filter(&filter, d)).collect();
    assert_eq!(kept.len(), 1);
    assert_eq!(kept[0].entity_id, "light.living");
}

#[test]
fn filter_is_include_and_not_exclude() {
    let filter = BridgeFilter {
        includes: vec![rule(FilterKind::Domain, "light"), rule(FilterKind::Domain, "switch")],
        exclude: vec![rule(FilterKind::EntityId, "light.secret")],
    };
    assert!(matches_filter(&filter, &descriptor("light.kitchen", "light")));
    assert!(matches_filter(&filter, &descriptor("switch.fan", "switch")));
    assert!(!matches_filter(&filter, &descriptor("light.secret", "light")));
    assert!(!matches_filter(&filter, &descriptor("sensor.temp", "sensor")));
}

#[test]
fn rule_kinds_match_their_own_field() {
    let mut d = descriptor("light.kitchen", "light");
    d.platform = Some("hue".to_string());
    d.entity_category = Some("config".to_string());
    d.area = Some("kitchen".to_string());
    d.labels = vec!["downstairs".to_string(), "main".to_string()];
    d.device_id = Some("dev1".to_string());

    assert!(matches_rule(&rule(FilterKind::Pattern, "light.*"), &d));
    assert!(!matches_rule(&rule(FilterKind::Pattern, "switch.*"), &d));
    assert!(matches_rule(&rule(FilterKind::Domain, "light"), &d));
    assert!(!matches_rule(&rule(FilterKind::Domain, "ligh"), &d));
    assert!(matches_rule(&rule(FilterKind::Platform, "hue"), &d));
    assert!(!matches_rule(&rule(FilterKind::Platform, "zha"), &d));
    assert!(matches_rule(&rule(FilterKind::EntityCategory, "config"), &d));
    assert!(!matches_rule(&rule(FilterKind::EntityCategory, "diagnostic"), &d));
    assert!(matches_rule(&rule(FilterKind::Area, "kitchen"), &d));
    assert!(!matches_rule(&rule(FilterKind::Area, "hall"), &d));
    assert!(matches_rule(&rule(FilterKind::Label, "main"), &d));
    assert!(matches_rule(&rule(FilterKind::Label, "downstairs"), &d));
    assert!(!matches_rule(&rule(FilterKind::Label, "upstairs"), &d));
    assert!(matches_rule(&rule(FilterKind::EntityId, "light.kitchen"), &d));
    assert!(!matches_rule(&rule(FilterKind::EntityId, "light.*"), &d));
    assert!(matches_rule(&rule(FilterKind::DeviceId, "dev1"), &d));
    assert!(!matches_rule(&rule(FilterKind::DeviceId, "dev2"), &d));
}

#[test]
fn missing_optional_fields_never_match() {
    let d = descriptor("light.kitchen", "light");
    assert!(!matches_rule(&rule(FilterKind::Platform, ""), &d));
    assert!(!matches_rule(&rule(FilterKind::EntityCategory, ""), &d));
    assert!(!matches_rule(&rule(FilterKind::Area, ""), &d));
    assert!(!matches_rule(&rule(FilterKind::DeviceId, ""), &d));
    assert!(!matches_rule(&rule(FilterKind::Label, ""), &d));
}

#[test]
fn a_copy_of_a_descriptor_matches_like_the_descriptor() {
    let mut d = descriptor("light.kitchen", "light");
    d.labels = vec!["main".to_string()];
    d.attributes = serde_json::Value::Array(vec![serde_json::Value::Bool(true)]);
    let copy = d.clone();
    assert_eq!(copy.entity_id, d.entity_id);
    assert_eq!(copy.labels, d.labels);
    assert_eq!(copy.attributes, d.attributes);
    let filter = BridgeFilter {
        includes: vec![rule(FilterKind::Label, "main")],
        exclude: Vec::new(),
    };
    assert_eq!(matches_filter(&filter, &copy), matches_filter(&filter, &d));
    assert!(matches_filter(&filter.clone(), &copy));
}
