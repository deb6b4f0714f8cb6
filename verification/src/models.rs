//! The records that describe bridges, their devices and the operations queued against them.
//!
//! Identifiers are 128-bit UUID values and instants are nanoseconds since the Unix epoch,
//! both held as plain integers.

use vstd::prelude::*;

verus! {

/// Which field of an entity a filter rule is matched against.
#[derive(Debug, Clone, Copy, PartialEq, Eq, Structural, Hash)]
pub enum FilterKind {
    Pattern,
    Domain,
    Platform,
    EntityId,
    EntityCategory,
    Area,
    Label,
    DeviceId,
}

/// One include or exclude rule.
#[derive(Debug, Clone)]
pub struct EntityFilter {
    pub kind: FilterKind,
    pub value: String,
}

/// The include and exclude rules of a bridge, each in the order given.
#[derive(Debug, Clone)]
pub struct BridgeFilter {
    pub includes: Vec<EntityFilter>,
    pub exclude: Vec<EntityFilter>,
}

impl BridgeFilter {
    /// Whether the filter has no rule at all.
    pub open spec fn is_empty(&self) -> bool {
        self.includes.len() == 0 && self.exclude.len() == 0
    }
}

impl Default for BridgeFilter {
    fn default() -> (r: Self)
        ensures
            r.is_empty(),
    {
        BridgeFilter { includes: Vec::new(), exclude: Vec::new() }
    }
}

/// Feature switches of one bridge.
#[derive(Debug, Clone, Copy, PartialEq, Eq, Structural, Hash)]
pub struct FeatureFlags {
    pub cover_do_not_invert_percentage: bool,
}

impl Default for FeatureFlags {
    fn default() -> (r: Self)
        ensures
            !r.cover_do_not_invert_percentage,
    {
        FeatureFlags { cover_do_not_invert_percentage: false }
    }
}

/// The stored configuration of one bridge.
#[derive(Debug, Clone)]
pub struct BridgeConfig {
    pub id: u128,
    pub name: String,
    pub port: u16,
    pub filter: BridgeFilter,
    pub feature_flags: FeatureFlags,
    pub created_at: i128,
    pub updated_at: i128,
}

/// The lifecycle state of a bridge's runtime.
#[derive(Debug, Clone, Copy, PartialEq, Eq, Structural, Hash)]
pub enum BridgeStatus {
    Stopped,
    Starting,
    Running,
    Stopping,
    Deleting,
    Error,
    Queued,
}

/// What is known of a bridge's runtime.
#[derive(Debug, Clone)]
pub struct BridgeRuntimeState {
    pub status: BridgeStatus,
    pub last_error: Option<String>,
    pub operation_id: Option<u128>,
    pub updated_at: i128,
}

/// A runtime state together with the bridge it belongs to.
#[derive(Debug, Clone)]
pub struct BridgeRuntimeEntry {
    pub bridge_id: u128,
    pub state: BridgeRuntimeState,
}

/// The kinds of operation that can be queued against a bridge.
#[derive(Debug, Clone, Copy, PartialEq, Eq, Structural, Hash)]
pub enum OperationType {
    Create,
    Start,
    Stop,
    Refresh,
    Delete,
    FactoryReset,
    Update,
}

/// How far an operation has come.
#[derive(Debug, Clone, Copy, PartialEq, Eq, Structural, Hash)]
pub enum OperationStatus {
    Queued,
    Running,
    Completed,
    Failed,
    Cancelled,
}

/// One entry of the operation log.
#[derive(Debug, Clone)]
pub struct BridgeOperation {
    pub operation_id: u128,
    pub bridge_id: u128,
    pub op_type: OperationType,
    pub status: OperationStatus,
    pub queued_at: i128,
    pub started_at: Option<i128>,
    pub finished_at: Option<i128>,
    pub error: Option<String>,
}

/// One entity as it is exposed on a bridge.
#[derive(Debug, Clone)]
pub struct BridgeDevice {
    pub entity_id: String,
    pub device_type: String,
    pub endpoint_id: u16,
    pub display_name: String,
    pub area: Option<String>,
    pub capabilities: Vec<String>,
    pub reachable: bool,
}

/// A device as a plain value: every string by its characters.
pub struct BridgeDeviceView {
    pub entity_id: Seq<char>,
    pub device_type: Seq<char>,
    pub endpoint_id: u16,
    pub display_name: Seq<char>,
    pub area: Option<Seq<char>>,
    pub capabilities: Seq<Seq<char>>,
    pub reachable: bool,
}

impl View for BridgeDevice {
    type V = BridgeDeviceView;

    open spec fn view(&self) -> BridgeDeviceView {
        BridgeDeviceView {
            entity_id: self.entity_id@,
            device_type: self.device_type@,
            endpoint_id: self.endpoint_id,
            display_name: self.display_name@,
            area: match self.area {
                Some(a) => Some(a@),
                None => None,
            },
            capabilities: Seq::new(self.capabilities.len() as nat, |i: int| self.capabilities[i]@),
            reachable: self.reachable,
        }
    }
}

/// The devices of a list as plain values, in order.
pub open spec fn device_views(devices: Seq<BridgeDevice>) -> Seq<BridgeDeviceView> {
    Seq::new(devices.len(), |i: int| devices[i]@)
}

/// What a commissioner needs to pair with a bridge.
#[derive(Debug, Clone)]
pub struct PairingInfo {
    pub qr_text: String,
    pub qr_unicode: String,
    pub manual_code: String,
    pub discriminator: u16,
}

} // verus!
