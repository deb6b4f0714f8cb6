//! The decisions of the Matter runtime of one bridge: which endpoints the node has,
//! which handler a request goes to, and what each event of the running node leads to.

use vstd::prelude::*;

use crate::matter::{build_entity_map, endpoint_of, EntityMap, EntityState, MatterError};
use crate::models::BridgeDevice;

verus! {

/// The endpoint of the root of the node.
pub const ROOT_ENDPOINT_ID: u16 = 0;

/// The endpoint of the aggregator, under which the bridged devices hang.
pub const AGGREGATOR_ENDPOINT_ID: u16 = 1;

/// The id of the Descriptor cluster.
pub const DESCRIPTOR_CLUSTER_ID: u32 = 0x001D;

/// The id of the Bridged Device Basic Information cluster.
pub const BRIDGED_INFO_CLUSTER_ID: u32 = 0x0039;

/// The id of the On/Off cluster.
pub const ON_OFF_CLUSTER_ID: u32 = 0x0006;

/// The longest time, in seconds, that a commissioning window stays open.
pub const MAX_COMM_WINDOW_TIMEOUT_SECS: u16 = 900;

/// One endpoint of the node of a bridge.
#[derive(Debug, Clone)]
pub enum EndpointPlan {
    /// Endpoint 0, with the network commissioning cluster.
    Root,
    /// Endpoint 1, with the descriptor cluster only.
    Aggregator,
    /// The endpoint of one device, with the descriptor, bridged device basic
    /// information and on/off clusters.
    Bridged { id: u16, entity_id: String, device_type: String, reachable: bool },
}

impl EndpointPlan {
    /// The id of the endpoint.
    pub open spec fn id(&self) -> u16 {
        match self {
            EndpointPlan::Root => ROOT_ENDPOINT_ID,
            EndpointPlan::Aggregator => AGGREGATOR_ENDPOINT_ID,
            EndpointPlan::Bridged { id, .. } => *id,
        }
    }
}

/// The endpoint of the node that stands for a device: the one after the device's own
/// number, since endpoint 1 is the aggregator's. A device numbered 0 or 65535 has
/// none.
pub open spec fn bridged_endpoint(endpoint_id: u16) -> Option<u16> {
    if 1 <= endpoint_id < 0xffff {
        Some((endpoint_id + 1) as u16)
    } else {
        None
    }
}

/// The endpoint of the node that stands for a device.
pub fn bridged_endpoint_id(endpoint_id: u16) -> (r: Option<u16>)
    ensures
        r == bridged_endpoint(endpoint_id),
{
    if 1 <= endpoint_id && endpoint_id < 0xffff {
        Some(endpoint_id + 1)
    } else {
        None
    }
}

/// Whether every device of a list has an endpoint of the node.
pub open spec fn all_in_range(devices: Seq<BridgeDevice>) -> bool {
    forall|i: int| 0 <= i < devices.len() ==> bridged_endpoint((#[trigger] devices[i]).endpoint_id)
        is Some
}

/// Whether `plan` is the endpoint of `device`.
pub open spec fn is_plan_of(plan: EndpointPlan, device: BridgeDevice) -> bool {
    &&& plan matches EndpointPlan::Bridged { id, entity_id, device_type, reachable }
    &&& Some(id) == bridged_endpoint(device.endpoint_id)
    &&& entity_id@ == device.entity_id@
    &&& device_type@ == device.device_type@
    &&& reachable == device.reachable
}

/// Whether `plan` is the node of a bridge with the given devices: the root, the
/// aggregator, and then one endpoint for each device, in the order of the devices.
pub open spec fn is_layout_of(plan: Seq<EndpointPlan>, devices: Seq<BridgeDevice>) -> bool {
    &&& plan.len() == devices.len() + 2
    &&& plan[0] is Root
    &&& plan[1] is Aggregator
    &&& forall|i: int| 0 <= i < devices.len() ==> is_plan_of(#[trigger] plan[i + 2], devices[i])
}

/// The endpoints of the node of a bridge. A device whose number leaves no endpoint for
/// it makes the whole layout fail.
pub fn endpoint_layout(devices: &Vec<BridgeDevice>) -> (r: Result<Vec<EndpointPlan>, MatterError>)
    ensures
        all_in_range(devices@) ==> r is Ok && is_layout_of(r->Ok_0@, devices@),
        !all_in_range(devices@) ==> (r matches Err(MatterError::Runtime(text)) && text@
            == "endpoint id out of range"@),
{
    let mut plan: Vec<EndpointPlan> = Vec::new();
    plan.push(EndpointPlan::Root);
    plan.push(EndpointPlan::Aggregator);
    let mut i: usize = 0;
    while i < devices.len()
        invariant
            i <= devices.len(),
            plan.len() == i + 2,
            plan[0] is Root,
            plan[1] is Aggregator,
            forall|m: int| 0 <= m < i ==> is_plan_of(#[trigger] plan[m + 2], devices[m]),
            forall|m: int|
                0 <= m < i ==> bridged_endpoint((#[trigger] devices[m]).endpoint_id) is Some,
        decreases devices.len() - i,
    {
        let device = &devices[i];
        match bridged_endpoint_id(device.endpoint_id) {
            Some(id) => {
                let ghost before = plan@;
                plan.push(
                    EndpointPlan::Bridged {
                        id,
                        entity_id: device.entity_id.clone(),
                        device_type: device.device_type.clone(),
                        reachable: device.reachable,
                    },
                );
                assert forall|m: int| 0 <= m < i + 1 implies is_plan_of(
                    #[trigger] plan[m + 2],
                    devices[m],
                ) by {
                    if m < i {
                        assert(plan[m + 2] == before[m + 2]);
                    }
                }
            },
            None => {
                return Err(MatterError::Runtime("endpoint id out of range".to_owned()));
            },
        }
        i += 1;
    }
    Ok(plan)
}

/// Whether the node has an endpoint for a device under the given id.
pub open spec fn has_bridged(plan: Seq<EndpointPlan>, endpoint_id: u16) -> bool {
    exists|i: int|
        0 <= i < plan.len() && (#[trigger] plan[i]) is Bridged && plan[i].id() == endpoint_id
}

/// Whether the node has an endpoint for a device under the given id.
pub fn is_bridged(plan: &Vec<EndpointPlan>, endpoint_id: u16) -> (r: bool)
    ensures
        r == has_bridged(plan@, endpoint_id),
{
    let mut i: usize = 0;
    while i < plan.len()
        invariant
            i <= plan.len(),
            forall|m: int|
                0 <= m < i ==> !((#[trigger] plan[m]) is Bridged && plan[m].id() == endpoint_id),
        decreases plan.len() - i,
    {
        match &plan[i] {
            EndpointPlan::Bridged { id, .. } => {
                if *id == endpoint_id {
                    return true;
                }
            },
            _ => {},
        }
        i += 1;
    }
    false
}

/// The handler that a request goes to.
#[derive(Debug, Clone, Copy, PartialEq, Eq, Structural)]
pub enum Route {
    /// The descriptor of the aggregator.
    AggregatorDescriptor,
    /// The descriptor of the device at the endpoint.
    Descriptor { endpoint_id: u16 },
    /// The bridged device basic information of the device at the endpoint.
    BridgedInfo { endpoint_id: u16 },
    /// The on/off handler of the device at the endpoint.
    OnOff { endpoint_id: u16 },
    /// No handler has the attribute.
    AttributeNotFound,
    /// No handler has the command.
    CommandNotFound,
}

/// Where the read of an attribute goes: to the descriptor of the aggregator or of a
/// device, or to the bridged information or the on/off handler of a device.
pub open spec fn read_route(plan: Seq<EndpointPlan>, endpoint_id: u16, cluster_id: u32) -> Route {
    if cluster_id == DESCRIPTOR_CLUSTER_ID && endpoint_id == AGGREGATOR_ENDPOINT_ID {
        Route::AggregatorDescriptor
    } else if !has_bridged(plan, endpoint_id) {
        Route::AttributeNotFound
    } else if cluster_id == DESCRIPTOR_CLUSTER_ID {
        Route::Descriptor { endpoint_id }
    } else if cluster_id == BRIDGED_INFO_CLUSTER_ID {
        Route::BridgedInfo { endpoint_id }
    } else if cluster_id == ON_OFF_CLUSTER_ID {
        Route::OnOff { endpoint_id }
    } else {
        Route::AttributeNotFound
    }
}

/// Where the write of an attribute goes: only the on/off handler of a device takes
/// writes.
pub open spec fn write_route(plan: Seq<EndpointPlan>, endpoint_id: u16, cluster_id: u32) -> Route {
    if cluster_id == ON_OFF_CLUSTER_ID && has_bridged(plan, endpoint_id) {
        Route::OnOff { endpoint_id }
    } else {
        Route::AttributeNotFound
    }
}

/// Where a command goes: to the on/off handler or the bridged information of a device.
pub open spec fn invoke_route(plan: Seq<EndpointPlan>, endpoint_id: u16, cluster_id: u32) -> Route {
    if cluster_id == ON_OFF_CLUSTER_ID && has_bridged(plan, endpoint_id) {
        Route::OnOff { endpoint_id }
    } else if cluster_id == BRIDGED_INFO_CLUSTER_ID && has_bridged(plan, endpoint_id) {
        Route::BridgedInfo { endpoint_id }
    } else {
        Route::CommandNotFound
    }
}

/// Where the read of an attribute goes.
pub fn route_read(plan: &Vec<EndpointPlan>, endpoint_id: u16, cluster_id: u32) -> (r: Route)
    ensures
        r == read_route(plan@, endpoint_id, cluster_id),
{
    if cluster_id == DESCRIPTOR_CLUSTER_ID {
        if endpoint_id == AGGREGATOR_ENDPOINT_ID {
            return Route::AggregatorDescriptor;
        }
        if is_bridged(plan, endpoint_id) {
            return Route::Descriptor { endpoint_id };
        }
    }
    if cluster_id == BRIDGED_INFO_CLUSTER_ID {
        if is_bridged(plan, endpoint_id) {
            return Route::BridgedInfo { endpoint_id };
        }
    }
    if cluster_id == ON_OFF_CLUSTER_ID {
        if is_bridged(plan, endpoint_id) {
            return Route::OnOff { endpoint_id };
        }
    }
    Route::AttributeNotFound
}

/// Where the write of an attribute goes.
pub fn route_write(plan: &Vec<EndpointPlan>, endpoint_id: u16, cluster_id: u32) -> (r: Route)
    ensures
        r == write_route(plan@, endpoint_id, cluster_id),
{
    if cluster_id == ON_OFF_CLUSTER_ID {
        if is_bridged(plan, endpoint_id) {
            return Route::OnOff { endpoint_id };
        }
    }
    Route::AttributeNotFound
}

/// Where a command goes.
pub fn route_invoke(plan: &Vec<EndpointPlan>, endpoint_id: u16, cluster_id: u32) -> (r: Route)
    ensures
        r == invoke_route(plan@, endpoint_id, cluster_id),
{
    if cluster_id == ON_OFF_CLUSTER_ID {
        if is_bridged(plan, endpoint_id) {
            return Route::OnOff { endpoint_id };
        }
    }
    if cluster_id == BRIDGED_INFO_CLUSTER_ID {
        if is_bridged(plan, endpoint_id) {
            return Route::BridgedInfo { endpoint_id };
        }
    }
    Route::CommandNotFound
}

/// What is done when the node starts.
#[derive(Debug, Clone, Copy, PartialEq, Eq, Structural)]
pub enum StartupAction {
    PrintQrText,
    PrintQrCode,
    OpenCommissioningWindow { timeout_secs: u16 },
}

/// What a node does when it starts: one that belongs to no fabric yet shows its
/// pairing codes and opens the commissioning window for the longest time allowed; one
/// that is commissioned does nothing.
pub fn startup_actions(commissioned: bool) -> (r: Vec<StartupAction>)
    ensures
        commissioned ==> r@.len() == 0,
        !commissioned ==> r@ == seq![
            StartupAction::PrintQrText,
            StartupAction::PrintQrCode,
            StartupAction::OpenCommissioningWindow { timeout_secs: MAX_COMM_WINDOW_TIMEOUT_SECS },
        ],
{
    let mut actions: Vec<StartupAction> = Vec::new();
    if !commissioned {
        actions.push(StartupAction::PrintQrText);
        actions.push(StartupAction::PrintQrCode);
        actions.push(
            StartupAction::OpenCommissioningWindow { timeout_secs: MAX_COMM_WINDOW_TIMEOUT_SECS },
        );
    }
    actions
}

/// What the dispatcher tells a running node.
#[derive(Debug)]
pub enum BridgeCommand {
    UpdateDevices(Vec<BridgeDevice>),
    UpdateStates(Vec<EntityState>),
    FactoryReset,
    Shutdown,
}

/// The tasks that a running node is made of.
#[derive(Debug, Clone, Copy, PartialEq, Eq, Structural)]
pub enum RuntimeTask {
    Transport,
    Mdns,
    Persistence,
    Responder,
    DataModel,
}

/// What happens to a running node.
#[derive(Debug)]
pub enum RuntimeEvent {
    /// A task ended, with the message of its error where it failed.
    TaskEnded { task: RuntimeTask, result: Result<(), String> },
    /// A command arrived; `None` once the sender is gone.
    Command(Option<BridgeCommand>),
}

/// One device to switch.
#[derive(Debug, Clone, Copy, PartialEq, Eq, Structural)]
pub struct OnOffUpdate {
    pub endpoint_id: u16,
    pub on: bool,
}

/// What a running node does after an event.
#[derive(Debug)]
pub enum RuntimeAction {
    /// Go on waiting.
    Continue,
    /// Switch the devices at these endpoints, in this order, and go on.
    ApplyStates(Vec<OnOffUpdate>),
    /// Erase the persisted state, forget the fabrics, open the commissioning window
    /// again for the given time, and go on.
    FactoryReset { timeout_secs: u16 },
    /// Stop, with this result.
    Exit(Result<(), MatterError>),
}

/// What a running node keeps between events.
#[derive(Debug)]
pub struct RuntimeState {
    pub entity_to_endpoint: EntityMap,
    pub mdns_running: bool,
    pub persist_running: bool,
}

/// The switches that a list of entity states leads to, in order: one for each state
/// whose entity has a device with an endpoint of the node; the other states are
/// dropped.
pub open spec fn state_updates(map: EntityMap, states: Seq<EntityState>) -> Seq<OnOffUpdate>
    decreases states.len(),
{
    if states.len() == 0 {
        Seq::empty()
    } else {
        let rest = state_updates(map, states.drop_last());
        let last = states.last();
        match map.lookup(last.entity_id@) {
            Some(device_endpoint) => match bridged_endpoint(device_endpoint) {
                Some(endpoint_id) => rest.push(OnOffUpdate { endpoint_id, on: last.on }),
                None => rest,
            },
            None => rest,
        }
    }
}

/// Whether the end of a task ends the node.
pub open spec fn is_vital(task: RuntimeTask) -> bool {
    task is Transport || task is Responder || task is DataModel
}

impl RuntimeState {
    /// The state of a node that starts with the given devices: all tasks run.
    pub fn new(devices: &Vec<BridgeDevice>) -> (r: Self)
        ensures
            r.mdns_running,
            r.persist_running,
            forall|entity_id: Seq<char>|
                r.entity_to_endpoint.lookup(entity_id) == endpoint_of(devices@, entity_id),
    {
        RuntimeState {
            entity_to_endpoint: build_entity_map(devices),
            mdns_running: true,
            persist_running: true,
        }
    }

    /// The switches that a list of entity states leads to.
    fn updates_for(&self, states: &Vec<EntityState>) -> (r: Vec<OnOffUpdate>)
        ensures
            r@ == state_updates(self.entity_to_endpoint, states@),
    {
        let mut out: Vec<OnOffUpdate> = Vec::new();
        let mut i: usize = 0;
        assert(states@.take(0) =~= Seq::empty());
        while i < states.len()
            invariant
                i <= states.len(),
                out@ == state_updates(self.entity_to_endpoint, states@.take(i as int)),
            decreases states.len() - i,
        {
            assert(states@.take(i + 1).drop_last() =~= states@.take(i as int));
            match self.entity_to_endpoint.get(states[i].entity_id.as_str()) {
                Some(device_endpoint) => match bridged_endpoint_id(device_endpoint) {
                    Some(endpoint_id) => {
                        out.push(OnOffUpdate { endpoint_id, on: states[i].on });
                    },
                    None => {},
                },
                None => {},
            }
            i += 1;
        }
        assert(states@.take(i as int) =~= states@);
        out
    }

    /// Decides what a running node does after an event.
    ///
    /// The end of the transport, the responder or the data model ends the node with
    /// the result of that task. The end of the mDNS responder or of the persistence
    /// loop is noted and the node goes on without it. A shutdown, or the loss of the
    /// sender of commands, ends the node without an error.
    pub fn step(&mut self, event: RuntimeEvent) -> (action: RuntimeAction)
        ensures
            match event {
                RuntimeEvent::TaskEnded { task, result } => {
                    &&& final(self).entity_to_endpoint == old(self).entity_to_endpoint
                    &&& final(self).mdns_running == (old(self).mdns_running && !(task is Mdns))
                    &&& final(self).persist_running == (old(self).persist_running && !(task
                        is Persistence))
                    &&& is_vital(task) && result is Ok ==> action == RuntimeAction::Exit(Ok(()))
                    &&& is_vital(task) && result is Err ==> action == RuntimeAction::Exit(
                        Err(MatterError::Runtime(result->Err_0)),
                    )
                    &&& !is_vital(task) ==> action is Continue
                },
                RuntimeEvent::Command(None) | RuntimeEvent::Command(Some(BridgeCommand::Shutdown)) => {
                    &&& *final(self) == *old(self)
                    &&& action == RuntimeAction::Exit(Ok(()))
                },
                RuntimeEvent::Command(Some(BridgeCommand::FactoryReset)) => {
                    &&& *final(self) == *old(self)
                    &&& action == (RuntimeAction::FactoryReset {
                        timeout_secs: MAX_COMM_WINDOW_TIMEOUT_SECS,
                    })
                },
                RuntimeEvent::Command(Some(BridgeCommand::UpdateDevices(devices))) => {
                    &&& final(self).mdns_running == old(self).mdns_running
                    &&& final(self).persist_running == old(self).persist_running
                    &&& forall|entity_id: Seq<char>|
                        final(self).entity_to_endpoint.lookup(entity_id) == endpoint_of(
                            devices@,
                            entity_id,
                        )
                    &&& action is Continue
                },
                RuntimeEvent::Command(Some(BridgeCommand::UpdateStates(states))) => {
                    &&& *final(self) == *old(self)
                    &&& action matches RuntimeAction::ApplyStates(updates)
                    &&& updates@ == state_updates(old(self).entity_to_endpoint, states@)
                },
            },
    {
        match event {
            RuntimeEvent::TaskEnded { task, result } => match task {
                RuntimeTask::Mdns => {
                    self.mdns_running = false;
                    RuntimeAction::Continue
                },
                RuntimeTask::Persistence => {
                    self.persist_running = false;
                    RuntimeAction::Continue
                },
                _ => match result {
                    Ok(_) => RuntimeAction::Exit(Ok(())),
                    Err(text) => RuntimeAction::Exit(Err(MatterError::Runtime(text))),
                },
            },
            RuntimeEvent::Command(None) => RuntimeAction::Exit(Ok(())),
            RuntimeEvent::Command(Some(command)) => match command {
                BridgeCommand::Shutdown => RuntimeAction::Exit(Ok(())),
                BridgeCommand::FactoryReset => RuntimeAction::FactoryReset {
                    timeout_secs: MAX_COMM_WINDOW_TIMEOUT_SECS,
                },
                BridgeCommand::UpdateDevices(devices) => {
                    self.entity_to_endpoint = build_entity_map(&devices);
                    RuntimeAction::Continue
                },
                BridgeCommand::UpdateStates(states) => {
                    RuntimeAction::ApplyStates(self.updates_for(&states))
                },
            },
        }
    }
}

/// The endpoints of a node whose devices are numbered 1, 2, ... in order are
/// 0, 1, 2, ... in order: the root, the aggregator, and then the devices.
pub proof fn lemma_layout_ids_consecutive(plan: Seq<EndpointPlan>, devices: Seq<BridgeDevice>)
    requires
        is_layout_of(plan, devices),
        forall|i: int| 0 <= i < devices.len() ==> (#[trigger] devices[i]).endpoint_id == i + 1,
    ensures
        forall|k: int| 0 <= k < plan.len() ==> (#[trigger] plan[k]).id() == k,
{
    assert forall|k: int| 0 <= k < plan.len() implies (#[trigger] plan[k]).id() == k by {
        if k >= 2 {
            assert(is_plan_of(plan[(k - 2) + 2], devices[k - 2]));
        }
    }
}

} // verus!
