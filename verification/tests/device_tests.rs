use hamh::device_map::{
    binary_sensor_type_for, light_type_for_modes, map_binary_sensor, map_descriptor_to_device_type,
    map_light, map_sensor, sensor_type_for,
};
use hamh::devices::{apply_vacuum_rule, assign_endpoint_ids, build_bridge_devices, map_devices};
use hamh::filter::EntityDescriptor;
use hamh::models::{BridgeDevice, BridgeFilter, EntityFilter, FilterKind};
use serde_json::Value;

fn text(s: &str) -> Value {
    Value::String(s.to_string())
}

fn object(key: &str, value: Value) -> Value {
    let mut map = serde_json::Map::new();
    map.insert(key.to_string(), value);
    Value::Object(map)
}

fn modes(list: &[&str]) -> Value {
    object("supported_color_modes", Value::Array(list.iter().map(|m| text(m)).collect()))
}

fn class(name: &str) -> Value {
    object("device_class", text(name))
}

fn entity(entity_id: &str, attributes: Value) -> EntityDescriptor {
    let domain = entity_id.split('.').next().unwrap_or("").to_string();
    EntityDescriptor {
        entity_id: entity_id.to_string(),
        domain,
        platform: None,
        entity_category: None,
        area: None,
        labels: Vec::new(),
        device_id: None,
        attributes,
    }
}

fn device(entity_id: &str, device_type: &str) -> BridgeDevice {
    BridgeDevice {
        entity_id: entity_id.to_string(),
        device_type: device_type.to_string(),
        endpoint_id: 0,
        display_name: String::new(),
        area: None,
        capabilities: Vec::new(),
        reachable: true,
    }
}

fn mapped(entity_id: &str, attributes: Value) -> Option<String> {
    map_descriptor_to_device_type(&entity(entity_id, attributes))
}

#[test]
fn light_mapping_follows_color_modes() {
    let d = entity("light.a", modes(&["xy", "color_temp"]));
    assert_eq!(map_descriptor_to_device_type(&d).as_deref(), Some("ExtendedColorLight"));
    let d = entity("light.a", modes(&["color_temp"]));
    assert_eq!(map_descriptor_to_device_type(&d).as_deref(), Some("ColorTemperatureLight"));
    let d = entity("light.a", modes(&["brightness"]));
    assert_eq!(map_descriptor_to_device_type(&d).as_deref(), Some("DimmableLight"));
    let d = entity("light.a", modes(&[]));
    assert_eq!(map_descriptor_to_device_type(&d).as_deref(), Some("OnOffLight"));
}

#[test]
fn light_mapping_knows_every_full_color_mode() {
    for mode in ["xy", "hs", "rgb", "rgbw", "rgbww"] {
        assert_eq!(map_light(&modes(&["brightness", mode])), "ExtendedColorLight");
        assert_eq!(light_type_for_modes(&vec![mode]), "ExtendedColorLight");
    }
    assert_eq!(light_type_for_modes(&vec!["brightness", "color_temp"]), "ColorTemperatureLight");
    assert_eq!(light_type_for_modes(&vec!["onoff", "brightness"]), "DimmableLight");
    assert_eq!(light_type_for_modes(&vec!["onoff"]), "OnOffLight");
    assert_eq!(light_type_for_modes(&Vec::new()), "OnOffLight");
}

#[test]
fn light_mapping_reads_only_an_array_of_strings() {
    assert_eq!(map_light(&Value::Null), "OnOffLight");
    assert_eq!(map_light(&object("supported_color_modes", text("xy"))), "OnOffLight");
    assert_eq!(map_light(&object("other", Value::Array(vec![text("xy")]))), "OnOffLight");
    let mixed = object(
        "supported_color_modes",
        Value::Array(vec![Value::Bool(true), Value::Null, text("color_temp")]),
    );
    assert_eq!(map_light(&mixed), "ColorTemperatureLight");
}

#[test]
fn binary_sensor_mapping_follows_device_class() {
    for name in ["opening", "door", "window"] {
        assert_eq!(map_binary_sensor(&class(name)), "ContactSensor");
        assert_eq!(binary_sensor_type_for(Some(name)), "ContactSensor");
    }
    for name in ["motion", "occupancy"] {
        assert_eq!(map_binary_sensor(&class(name)), "OccupancySensor");
    }
    for name in ["moisture", "water", "leak"] {
        assert_eq!(map_binary_sensor(&class(name)), "WaterLeakDetector");
    }
    assert_eq!(map_binary_sensor(&class("smoke")), "OnOffSensor");
    assert_eq!(map_binary_sensor(&Value::Null), "OnOffSensor");
    assert_eq!(map_binary_sensor(&object("device_class", Value::Bool(true))), "OnOffSensor");
    assert_eq!(binary_sensor_type_for(None), "OnOffSensor");
    assert_eq!(mapped("binary_sensor.door", class("door")).as_deref(), Some("ContactSensor"));
}

#[test]
fn sensor_mapping_drops_unknown_classes() {
    assert_eq!(map_sensor(&class("temperature")).as_deref(), Some("TemperatureSensor"));
    assert_eq!(map_sensor(&class("humidity")).as_deref(), Some("HumiditySensor"));
    assert_eq!(map_sensor(&class("illuminance")).as_deref(), Some("IlluminanceSensor"));
    assert_eq!(map_sensor(&class("power")), None);
    assert_eq!(map_sensor(&Value::Null), None);
    assert_eq!(sensor_type_for(Some("humidity")).as_deref(), Some("HumiditySensor"));
    assert_eq!(sensor_type_for(None), None);
    assert_eq!(mapped("sensor.t", class("temperature")).as_deref(), Some("TemperatureSensor"));
    assert_eq!(mapped("sensor.p", class("power")), None);
}

#[test]
fn domain_table_is_closed() {
    for domain in [
        "automation",
        "button",
        "humidifier",
        "input_boolean",
        "input_button",
        "scene",
        "script",
        "switch",
    ] {
        let id = format!("{}.x", domain);
        assert_eq!(mapped(&id, Value::Null).as_deref(), Some("OnOffPlugInUnit"));
    }
    assert_eq!(mapped("climate.x", Value::Null).as_deref(), Some("Thermostat"));
    assert_eq!(mapped("cover.x", Value::Null).as_deref(), Some("WindowCovering"));
    assert_eq!(mapped("fan.x", Value::Null).as_deref(), Some("Fan"));
    assert_eq!(mapped("lock.x", Value::Null).as_deref(), Some("DoorLock"));
    assert_eq!(mapped("media_player.x", Value::Null).as_deref(), Some("Speaker"));
    assert_eq!(mapped("vacuum.x", Value::Null).as_deref(), Some("RoboticVacuumCleaner"));
    assert_eq!(mapped("light.x", Value::Null).as_deref(), Some("OnOffLight"));
    assert_eq!(mapped("binary_sensor.x", Value::Null).as_deref(), Some("OnOffSensor"));
    assert_eq!(mapped("sensor.x", Value::Null), None);
    assert_eq!(mapped("camera.x", Value::Null), None);
    assert_eq!(mapped("", Value::Null), None);
    assert_eq!(mapped("Light.x", Value::Null), None);
}

#[test]
fn vacuum_exclusivity_keeps_only_the_vacuum() {
    let descriptors = vec![
        entity("light.a", Value::Null),
        entity("vacuum.robo", Value::Null),
        entity("climate.hall", Value::Null),
    ];
    let devices = build_bridge_devices(&BridgeFilter::default(), &descriptors);
    assert_eq!(devices.len(), 1);
    assert_eq!(devices[0].entity_id, "vacuum.robo");
    assert_eq!(devices[0].device_type, "RoboticVacuumCleaner");
    assert_eq!(devices[0].endpoint_id, 1);
}

#[test]
fn vacuum_rule_leaves_other_lists_alone() {
    let kept = apply_vacuum_rule(vec![device("light.a", "OnOffLight"), device("fan.b", "Fan")]);
    assert_eq!(kept.len(), 2);
    assert_eq!(kept[0].entity_id, "light.a");
    assert_eq!(kept[1].entity_id, "fan.b");
    let kept = apply_vacuum_rule(vec![
        device("vacuum.a", "RoboticVacuumCleaner"),
        device("fan.b", "Fan"),
        device("vacuum.c", "RoboticVacuumCleaner"),
    ]);
    assert_eq!(kept.len(), 2);
    assert_eq!(kept[0].entity_id, "vacuum.a");
    assert_eq!(kept[1].entity_id, "vacuum.c");
    assert!(apply_vacuum_rule(Vec::new()).is_empty());
}

#[test]
fn endpoint_ids_are_consecutive_from_one() {
    let descriptors = vec![
        entity("light.a", Value::Null),
        entity("camera.skip", Value::Null),
        entity("switch.b", Value::Null),
        entity("sensor.none", Value::Null),
        entity("lock.c", Value::Null),
    ];
    let devices = build_bridge_devices(&BridgeFilter::default(), &descriptors);
    assert_eq!(devices.len(), 3);
    let ids: Vec<u16> = devices.iter().map(|d| d.endpoint_id).collect();
    assert_eq!(ids, vec![1, 2, 3]);
    let names: Vec<&str> = devices.iter().map(|d| d.entity_id.as_str()).collect();
    assert_eq!(names, vec!["light.a", "switch.b", "lock.c"]);
    assert_eq!(devices[1].device_type, "OnOffPlugInUnit");
    assert!(devices[1].reachable);
    assert!(devices[1].capabilities.is_empty());
    assert_eq!(devices[1].display_name, "");
    assert_eq!(devices[1].area, None);
}

#[test]
fn assign_endpoint_ids_overwrites_old_numbers() {
    let mut a = device("light.a", "OnOffLight");
    a.endpoint_id = 40;
    let b = device("light.b", "OnOffLight");
    let out = assign_endpoint_ids(vec![a, b]);
    assert_eq!(out[0].endpoint_id, 1);
    assert_eq!(out[1].endpoint_id, 2);
    assert!(assign_endpoint_ids(Vec::new()).is_empty());
}

#[test]
fn build_applies_the_filter_before_the_mapping() {
    let filter = BridgeFilter {
        includes: vec![EntityFilter { kind: FilterKind::Domain, value: "light".to_string() }],
        exclude: vec![EntityFilter { kind: FilterKind::Pattern, value: "*.guest".to_string() }],
    };
    let descriptors = vec![
        entity("vacuum.robo", Value::Null),
        entity("light.guest", Value::Null),
        entity("light.hall", modes(&["hs"])),
    ];
    let mapped = map_devices(&filter, &descriptors);
    assert_eq!(mapped.len(), 1);
    assert_eq!(mapped[0].endpoint_id, 0);
    let devices = build_bridge_devices(&filter, &descriptors);
    assert_eq!(devices.len(), 1);
    assert_eq!(devices[0].entity_id, "light.hall");
    assert_eq!(devices[0].device_type, "ExtendedColorLight");
    assert_eq!(devices[0].endpoint_id, 1);
}
