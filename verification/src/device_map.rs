//! From an entity's domain and attributes to the Matter device type it is exposed as.

use vstd::prelude::*;

use crate::filter::EntityDescriptor;
use crate::json::{items, json_items, json_member, json_text, member, text};
use crate::text::str_eq;

verus! {

/// The texts among `items`, in order; items that are no strings are left out.
pub open spec fn texts_of(items: Seq<serde_json::Value>) -> Seq<Seq<char>>
    decreases items.len(),
{
    if items.len() == 0 {
        Seq::empty()
    } else {
        let rest = texts_of(items.drop_last());
        match json_text(items.last()) {
            Some(t) => rest.push(t),
            None => rest,
        }
    }
}

/// The attribute `device_class`, where it is a string.
pub open spec fn device_class(attrs: serde_json::Value) -> Option<Seq<char>> {
    match json_member(attrs, "device_class"@) {
        Some(v) => json_text(v),
        None => None,
    }
}

/// The strings of the attribute `supported_color_modes`, where it is an array; else
/// none.
pub open spec fn color_modes(attrs: serde_json::Value) -> Seq<Seq<char>> {
    match json_member(attrs, "supported_color_modes"@) {
        Some(v) => match json_items(v) {
            Some(items) => texts_of(items),
            None => Seq::empty(),
        },
        None => Seq::empty(),
    }
}

/// Whether a colour mode stands for full colour.
pub open spec fn is_full_color_mode(mode: Seq<char>) -> bool {
    mode == "xy"@ || mode == "hs"@ || mode == "rgb"@ || mode == "rgbw"@ || mode == "rgbww"@
}

/// Whether one of `modes` stands for full colour.
pub open spec fn has_full_color(modes: Seq<Seq<char>>) -> bool {
    exists|i: int| 0 <= i < modes.len() && is_full_color_mode(#[trigger] modes[i])
}

/// The device type of a light with the given colour modes: the richest that the modes
/// allow.
pub open spec fn light_type(modes: Seq<Seq<char>>) -> Seq<char> {
    if has_full_color(modes) {
        "ExtendedColorLight"@
    } else if modes.contains("color_temp"@) {
        "ColorTemperatureLight"@
    } else if modes.contains("brightness"@) {
        "DimmableLight"@
    } else {
        "OnOffLight"@
    }
}

/// The device type of a binary sensor with the given device class.
pub open spec fn binary_sensor_type(class: Option<Seq<char>>) -> Seq<char> {
    if class == Some("opening"@) || class == Some("door"@) || class == Some("window"@) {
        "ContactSensor"@
    } else if class == Some("motion"@) || class == Some("occupancy"@) {
        "OccupancySensor"@
    } else if class == Some("moisture"@) || class == Some("water"@) || class == Some("leak"@) {
        "WaterLeakDetector"@
    } else {
        "OnOffSensor"@
    }
}

/// The device type of a sensor with the given device class, where there is one.
pub open spec fn sensor_type(class: Option<Seq<char>>) -> Option<Seq<char>> {
    if class == Some("temperature"@) {
        Some("TemperatureSensor"@)
    } else if class == Some("humidity"@) {
        Some("HumiditySensor"@)
    } else if class == Some("illuminance"@) {
        Some("IlluminanceSensor"@)
    } else {
        None
    }
}

/// Whether entities of the domain are exposed as plain on/off plug-in units.
pub open spec fn is_plug_in_domain(domain: Seq<char>) -> bool {
    domain == "automation"@ || domain == "button"@ || domain == "humidifier"@ || domain
        == "input_boolean"@ || domain == "input_button"@ || domain == "scene"@ || domain
        == "script"@ || domain == "switch"@
}

/// The device type of an entity of the given domain; `None` where the entity is not
/// exposed.
pub open spec fn device_type_of(domain: Seq<char>, attrs: serde_json::Value) -> Option<
    Seq<char>,
> {
    if is_plug_in_domain(domain) {
        Some("OnOffPlugInUnit"@)
    } else if domain == "binary_sensor"@ {
        Some(binary_sensor_type(device_class(attrs)))
    } else if domain == "climate"@ {
        Some("Thermostat"@)
    } else if domain == "cover"@ {
        Some("WindowCovering"@)
    } else if domain == "fan"@ {
        Some("Fan"@)
    } else if domain == "light"@ {
        Some(light_type(color_modes(attrs)))
    } else if domain == "lock"@ {
        Some("DoorLock"@)
    } else if domain == "media_player"@ {
        Some("Speaker"@)
    } else if domain == "sensor"@ {
        sensor_type(device_class(attrs))
    } else if domain == "vacuum"@ {
        Some("RoboticVacuumCleaner"@)
    } else {
        None
    }
}

/// The view of an optional string slice.
pub open spec fn opt_text(s: Option<&str>) -> Option<Seq<char>> {
    match s {
        Some(t) => Some(t@),
        None => None,
    }
}

/// The views of a list of string slices.
pub open spec fn texts(modes: Seq<&str>) -> Seq<Seq<char>> {
    Seq::new(modes.len(), |i: int| modes[i]@)
}

/// Whether `class` is present and equal to `name`.
fn class_is(class: Option<&str>, name: &str) -> (r: bool)
    ensures
        r == (opt_text(class) == Some(name@)),
{
    match class {
        Some(c) => str_eq(c, name),
        None => false,
    }
}

/// The device type of a binary sensor with the given device class.
pub fn binary_sensor_type_for(class: Option<&str>) -> (r: String)
    ensures
        r@ == binary_sensor_type(opt_text(class)),
{
    if class_is(class, "opening") || class_is(class, "door") || class_is(class, "window") {
        "ContactSensor".to_owned()
    } else if class_is(class, "motion") || class_is(class, "occupancy") {
        "OccupancySensor".to_owned()
    } else if class_is(class, "moisture") || class_is(class, "water") || class_is(class, "leak") {
        "WaterLeakDetector".to_owned()
    } else {
        "OnOffSensor".to_owned()
    }
}

/// The device type of a sensor with the given device class, where there is one.
pub fn sensor_type_for(class: Option<&str>) -> (r: Option<String>)
    ensures
        match r {
            Some(s) => sensor_type(opt_text(class)) == Some(s@),
            None => sensor_type(opt_text(class)) is None,
        },
{
    if class_is(class, "temperature") {
        Some("TemperatureSensor".to_owned())
    } else if class_is(class, "humidity") {
        Some("HumiditySensor".to_owned())
    } else if class_is(class, "illuminance") {
        Some("IlluminanceSensor".to_owned())
    } else {
        None
    }
}

/// Whether `mode` is found among `modes`.
fn has_mode(modes: &Vec<&str>, mode: &str) -> (r: bool)
    ensures
        r == texts(modes@).contains(mode@),
{
    let mut i: usize = 0;
    while i < modes.len()
        invariant
            i <= modes.len(),
            forall|m: int| 0 <= m < i ==> (#[trigger] texts(modes@)[m]) != mode@,
        decreases modes.len() - i,
    {
        if str_eq(modes[i], mode) {
            assert(texts(modes@)[i as int] == mode@);
            return true;
        }
        i += 1;
    }
    false
}

/// The device type of a light with the given colour modes.
pub fn light_type_for_modes(modes: &Vec<&str>) -> (r: String)
    ensures
        r@ == light_type(texts(modes@)),
{
    let full = has_mode(modes, "xy") || has_mode(modes, "hs") || has_mode(modes, "rgb")
        || has_mode(modes, "rgbw") || has_mode(modes, "rgbww");
    proof {
        let ts = texts(modes@);
        if full {
            let m = if ts.contains("xy"@) {
                "xy"@
            } else if ts.contains("hs"@) {
                "hs"@
            } else if ts.contains("rgb"@) {
                "rgb"@
            } else if ts.contains("rgbw"@) {
                "rgbw"@
            } else {
                "rgbww"@
            };
            let w = choose|w: int| 0 <= w < ts.len() && ts[w] == m;
            assert(is_full_color_mode(ts[w]));
        } else if has_full_color(ts) {
            let w = choose|w: int| 0 <= w < ts.len() && is_full_color_mode(#[trigger] ts[w]);
            assert(ts.contains(ts[w]));
        }
    }
    if full {
        "ExtendedColorLight".to_owned()
    } else if has_mode(modes, "color_temp") {
        "ColorTemperatureLight".to_owned()
    } else if has_mode(modes, "brightness") {
        "DimmableLight".to_owned()
    } else {
        "OnOffLight".to_owned()
    }
}

/// The attribute `device_class` of an entity, where it is a string.
fn device_class_of<'a>(attrs: &'a serde_json::Value) -> (r: Option<&'a str>)
    ensures
        opt_text(r) == device_class(*attrs),
{
    match member(attrs, "device_class") {
        Some(v) => text(v),
        None => None,
    }
}

/// The colour modes that a light's attributes list.
fn color_modes_of<'a>(attrs: &'a serde_json::Value) -> (r: Vec<&'a str>)
    ensures
        texts(r@) == color_modes(*attrs),
{
    let mut modes: Vec<&'a str> = Vec::new();
    match member(attrs, "supported_color_modes") {
        Some(v) => match items(v) {
            Some(list) => {
                let mut i: usize = 0;
                assert(list@.take(0) =~= Seq::empty());
                assert(texts(modes@) =~= Seq::empty());
                while i < list.len()
                    invariant
                        i <= list.len(),
                        texts(modes@) == texts_of(list@.take(i as int)),
                    decreases list.len() - i,
                {
                    proof {
                        assert(list@.take(i + 1).drop_last() =~= list@.take(i as int));
                    }
                    let ghost before = modes@;
                    match text(&list[i]) {
                        Some(s) => {
                            modes.push(s);
                            assert(texts(modes@) =~= texts(before).push(s@));
                        },
                        None => {},
                    }
                    i += 1;
                }
                assert(list@.take(i as int) =~= list@);
            },
            None => {
                assert(texts(modes@) =~= Seq::empty());
            },
        },
        None => {
            assert(texts(modes@) =~= Seq::empty());
        },
    }
    modes
}

/// The device type of a binary sensor, by its attribute `device_class`.
pub fn map_binary_sensor(attrs: &serde_json::Value) -> (r: String)
    ensures
        r@ == binary_sensor_type(device_class(*attrs)),
{
    binary_sensor_type_for(device_class_of(attrs))
}

/// The device type of a light, by its attribute `supported_color_modes`.
pub fn map_light(attrs: &serde_json::Value) -> (r: String)
    ensures
        r@ == light_type(color_modes(*attrs)),
{
    let modes = color_modes_of(attrs);
    light_type_for_modes(&modes)
}

/// The device type of a sensor, by its attribute `device_class`; `None` for a class
/// that is not exposed.
pub fn map_sensor(attrs: &serde_json::Value) -> (r: Option<String>)
    ensures
        match r {
            Some(s) => sensor_type(device_class(*attrs)) == Some(s@),
            None => sensor_type(device_class(*attrs)) is None,
        },
{
    sensor_type_for(device_class_of(attrs))
}

/// Whether entities of the domain are exposed as plain on/off plug-in units.
fn plug_in_domain(domain: &str) -> (r: bool)
    ensures
        r == is_plug_in_domain(domain@),
{
    str_eq(domain, "automation") || str_eq(domain, "button") || str_eq(domain, "humidifier")
        || str_eq(domain, "input_boolean") || str_eq(domain, "input_button") || str_eq(
        domain,
        "scene",
    ) || str_eq(domain, "script") || str_eq(domain, "switch")
}

/// The Matter device type that an entity is exposed as; `None` where its domain, or for
/// a sensor its device class, is not exposed.
pub fn map_descriptor_to_device_type(desc: &EntityDescriptor) -> (r: Option<String>)
    ensures
        match r {
            Some(s) => device_type_of(desc.domain@, desc.attributes) == Some(s@),
            None => device_type_of(desc.domain@, desc.attributes) is None,
        },
{
    let domain = desc.domain.as_str();
    let attrs = &desc.attributes;
    if plug_in_domain(domain) {
        Some("OnOffPlugInUnit".to_owned())
    } else if str_eq(domain, "binary_sensor") {
        Some(map_binary_sensor(attrs))
    } else if str_eq(domain, "climate") {
        Some("Thermostat".to_owned())
    } else if str_eq(domain, "cover") {
        Some("WindowCovering".to_owned())
    } else if str_eq(domain, "fan") {
        Some("Fan".to_owned())
    } else if str_eq(domain, "light") {
        Some(map_light(attrs))
    } else if str_eq(domain, "lock") {
        Some("DoorLock".to_owned())
    } else if str_eq(domain, "media_player") {
        Some("Speaker".to_owned())
    } else if str_eq(domain, "sensor") {
        map_sensor(attrs)
    } else if str_eq(domain, "vacuum") {
        Some("RoboticVacuumCleaner".to_owned())
    } else {
        None
    }
}

} // verus!
