//! From the upstream entities to the device list of a bridge: filter, map to a device
//! type, apply the vacuum rule, number the endpoints.

use vstd::prelude::*;

use crate::device_map::{device_type_of, map_descriptor_to_device_type};
use crate::filter::{exclude_hit, include_ok, matches_filter, EntityDescriptor};
use crate::models::{device_views, BridgeDevice, BridgeDeviceView, BridgeFilter};
use crate::text::str_eq;

verus! {

/// The device that a mapped entity starts as: reachable, without capabilities, name or
/// area, and not yet numbered.
pub open spec fn fresh_device(entity_id: Seq<char>, device_type: Seq<char>) -> BridgeDeviceView {
    BridgeDeviceView {
        entity_id,
        device_type,
        endpoint_id: 0,
        display_name: Seq::empty(),
        area: None,
        capabilities: Seq::empty(),
        reachable: true,
    }
}

/// Whether an entity becomes a device: the filter lets it through and its domain maps
/// to a device type.
pub open spec fn is_exposed(filter: BridgeFilter, d: EntityDescriptor) -> bool {
    include_ok(filter, d) && !exclude_hit(filter, d) && device_type_of(d.domain@, d.attributes)
        is Some
}

/// The devices of the entities that are exposed, in the order of the entities.
pub open spec fn mapped_devices(filter: BridgeFilter, descs: Seq<EntityDescriptor>) -> Seq<
    BridgeDeviceView,
>
    decreases descs.len(),
{
    if descs.len() == 0 {
        Seq::empty()
    } else {
        let rest = mapped_devices(filter, descs.drop_last());
        let d = descs.last();
        if is_exposed(filter, d) {
            rest.push(fresh_device(d.entity_id@, device_type_of(d.domain@, d.attributes)->0))
        } else {
            rest
        }
    }
}

/// Whether a device is a robotic vacuum cleaner.
pub open spec fn is_vacuum(d: BridgeDeviceView) -> bool {
    d.device_type == "RoboticVacuumCleaner"@
}

/// Whether a list holds a robotic vacuum cleaner.
pub open spec fn has_vacuum(ds: Seq<BridgeDeviceView>) -> bool {
    exists|i: int| 0 <= i < ds.len() && is_vacuum(#[trigger] ds[i])
}

/// The vacuum cleaners of a list, in order.
pub open spec fn vacuums_of(ds: Seq<BridgeDeviceView>) -> Seq<BridgeDeviceView>
    decreases ds.len(),
{
    if ds.len() == 0 {
        Seq::empty()
    } else if is_vacuum(ds.last()) {
        vacuums_of(ds.drop_last()).push(ds.last())
    } else {
        vacuums_of(ds.drop_last())
    }
}

/// A list with a vacuum cleaner keeps its vacuum cleaners only; any other list stays as
/// it is.
pub open spec fn vacuum_rule(ds: Seq<BridgeDeviceView>) -> Seq<BridgeDeviceView> {
    if has_vacuum(ds) {
        vacuums_of(ds)
    } else {
        ds
    }
}

/// The endpoint id of the device at index `i`: `i + 1`, cut to sixteen bits.
pub open spec fn endpoint_at(i: int) -> u16 {
    ((i + 1) % 0x10000) as u16
}

/// The list with each device numbered by its place.
pub open spec fn numbered(ds: Seq<BridgeDeviceView>) -> Seq<BridgeDeviceView> {
    Seq::new(ds.len(), |i: int| BridgeDeviceView { endpoint_id: endpoint_at(i), ..ds[i] })
}

/// The device list of a bridge for the given entities.
pub open spec fn bridge_devices(filter: BridgeFilter, descs: Seq<EntityDescriptor>) -> Seq<
    BridgeDeviceView,
> {
    numbered(vacuum_rule(mapped_devices(filter, descs)))
}

/// The devices of the entities that pass the filter and map to a device type.
pub fn map_devices(filter: &BridgeFilter, descriptors: &Vec<EntityDescriptor>) -> (devices: Vec<
    BridgeDevice,
>)
    ensures
        device_views(devices@) == mapped_devices(*filter, descriptors@),
{
    let mut devices: Vec<BridgeDevice> = Vec::new();
    let mut i: usize = 0;
    assert(descriptors@.take(0) =~= Seq::empty());
    assert(device_views(devices@) =~= Seq::empty());
    while i < descriptors.len()
        invariant
            i <= descriptors.len(),
            device_views(devices@) == mapped_devices(*filter, descriptors@.take(i as int)),
        decreases descriptors.len() - i,
    {
        let descriptor = &descriptors[i];
        let ghost before = devices@;
        proof {
            assert(descriptors@.take(i + 1).drop_last() =~= descriptors@.take(i as int));
        }
        if matches_filter(filter, descriptor) {
            match map_descriptor_to_device_type(descriptor) {
                Some(device_type) => {
                    let device = BridgeDevice {
                        entity_id: descriptor.entity_id.clone(),
                        device_type,
                        endpoint_id: 0,
                        display_name: String::new(),
                        area: None,
                        capabilities: Vec::new(),
                        reachable: true,
                    };
                    assert(device@.capabilities =~= Seq::empty());
                    devices.push(device);
                    assert(device_views(devices@) =~= device_views(before).push(device@));
                },
                None => {},
            }
        }
        i += 1;
    }
    assert(descriptors@.take(i as int) =~= descriptors@);
    devices
}

/// Whether a list holds a robotic vacuum cleaner.
pub fn contains_vacuum(devices: &Vec<BridgeDevice>) -> (r: bool)
    ensures
        r == has_vacuum(device_views(devices@)),
{
    let mut i: usize = 0;
    while i < devices.len()
        invariant
            i <= devices.len(),
            forall|m: int| 0 <= m < i ==> !is_vacuum(#[trigger] device_views(devices@)[m]),
        decreases devices.len() - i,
    {
        if str_eq(devices[i].device_type.as_str(), "RoboticVacuumCleaner") {
            assert(is_vacuum(device_views(devices@)[i as int]));
            return true;
        }
        i += 1;
    }
    false
}

/// Reduces a list that holds a vacuum cleaner to its vacuum cleaners; a commissioner
/// refuses a bridge that mixes a vacuum cleaner with other devices.
pub fn apply_vacuum_rule(devices: Vec<BridgeDevice>) -> (kept: Vec<BridgeDevice>)
    ensures
        device_views(kept@) == vacuum_rule(device_views(devices@)),
{
    if !contains_vacuum(&devices) {
        return devices;
    }
    let ghost all = devices@;
    let mut kept: Vec<BridgeDevice> = Vec::new();
    assert(device_views(all).take(0) =~= Seq::empty());
    assert(device_views(kept@) =~= Seq::empty());
    for device in it: devices
        invariant
            it.seq() == all,
            device_views(kept@) == vacuums_of(device_views(all).take(it.index() as int)),
    {
        let ghost before = kept@;
        proof {
            let k = it.index() as int;
            assert(device_views(all).take(k + 1).drop_last() =~= device_views(all).take(k));
            assert(device_views(all).take(k + 1).last() == device@);
        }
        if str_eq(device.device_type.as_str(), "RoboticVacuumCleaner") {
            kept.push(device);
            assert(device_views(kept@) =~= device_views(before).push(device@));
        }
    }
    assert(device_views(all).take(all.len() as int) =~= device_views(all));
    kept
}

/// Numbers the devices by their place: the first gets 1, and so on, cut to sixteen
/// bits.
pub fn assign_endpoint_ids(devices: Vec<BridgeDevice>) -> (out: Vec<BridgeDevice>)
    ensures
        device_views(out@) == numbered(device_views(devices@)),
{
    let ghost all = devices@;
    let mut out: Vec<BridgeDevice> = Vec::new();
    let mut next: u16 = 1;
    for device in it: devices
        invariant
            it.seq() == all,
            out.len() == it.index(),
            next == endpoint_at(it.index() as int),
            forall|m: int|
                0 <= m < out.len() ==> (#[trigger] out[m])@ == (BridgeDeviceView {
                    endpoint_id: endpoint_at(m),
                    ..all[m]@
                }),
    {
        let mut device = device;
        device.endpoint_id = next;
        out.push(device);
        next = if next == u16::MAX {
            0
        } else {
            next + 1
        };
    }
    assert(device_views(out@) =~= numbered(device_views(all)));
    out
}

/// Builds the device list of a bridge from the upstream entities: the entities that the
/// filter lets through and that map to a device type, reduced to the vacuum cleaners if
/// there is one, and numbered from 1 in that order.
pub fn build_bridge_devices(filter: &BridgeFilter, descriptors: &Vec<EntityDescriptor>) -> (devices:
    Vec<BridgeDevice>)
    ensures
        device_views(devices@) == bridge_devices(*filter, descriptors@),
{
    let mapped = map_devices(filter, descriptors);
    let kept = apply_vacuum_rule(mapped);
    assign_endpoint_ids(kept)
}

/// Every device that `vacuums_of` keeps is a vacuum cleaner.
pub proof fn lemma_vacuums_of_are_vacuums(ds: Seq<BridgeDeviceView>)
    ensures
        forall|i: int| 0 <= i < vacuums_of(ds).len() ==> is_vacuum(#[trigger] vacuums_of(ds)[i]),
    decreases ds.len(),
{
    if ds.len() > 0 {
        lemma_vacuums_of_are_vacuums(ds.drop_last());
        let rest = vacuums_of(ds.drop_last());
        assert forall|i: int| 0 <= i < vacuums_of(ds).len() implies is_vacuum(
            #[trigger] vacuums_of(ds)[i],
        ) by {
            if i < rest.len() {
                assert(vacuums_of(ds)[i] == rest[i]);
            }
        }
    }
}

/// Where one of the mapped devices is a robotic vacuum cleaner, every device of the
/// bridge is one.
pub proof fn lemma_vacuum_exclusive(filter: BridgeFilter, descs: Seq<EntityDescriptor>)
    requires
        has_vacuum(mapped_devices(filter, descs)),
    ensures
        forall|i: int|
            0 <= i < bridge_devices(filter, descs).len() ==> is_vacuum(
                #[trigger] bridge_devices(filter, descs)[i],
            ),
{
    lemma_vacuums_of_are_vacuums(mapped_devices(filter, descs));
}

/// The endpoint ids of a bridge's devices are 1, 2, ... up to the number of devices,
/// in the order of the list, as long as that number fits in sixteen bits.
pub proof fn lemma_endpoint_ids_consecutive(filter: BridgeFilter, descs: Seq<EntityDescriptor>)
    requires
        bridge_devices(filter, descs).len() <= 0xffff,
    ensures
        forall|i: int|
            0 <= i < bridge_devices(filter, descs).len() ==> (#[trigger] bridge_devices(
                filter,
                descs,
            )[i]).endpoint_id == i + 1,
{
}

} // verus!
