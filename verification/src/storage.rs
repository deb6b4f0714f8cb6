//! The snapshot that the store keeps: bridges, the operation log, and for each bridge
//! its devices and the state of its runtime.
//!
//! The device lists and runtime states are kept under the hyphenated text of the
//! bridge's identifier, one entry for each key.

use vstd::prelude::*;

use crate::ids::{format_uuid, parse_uuid, uuid_parse, uuid_text};
use crate::models::{
    device_views, BridgeConfig, BridgeDevice, BridgeOperation, BridgeRuntimeEntry,
    BridgeRuntimeState, OperationStatus,
};
use crate::seqs::{
    distinct_keys, first_with_key, lemma_filter_step, lemma_replace_distinct, other_key,
    without_key,
};
use crate::text::{clone_opt_string, str_eq, string_views};

verus! {

#[verifier::external_type_specification]
#[verifier::external_body]
pub struct ExIoError(std::io::Error);

#[verifier::external_type_specification]
#[verifier::external_body]
pub struct ExJsonError(serde_json::Error);

/// Why the store could not be read or written.
#[derive(Debug)]
pub enum StorageError {
    Io(std::io::Error),
    Serde(serde_json::Error),
}

/// The text that `serde_json::Error` prints for an error.
pub uninterp spec fn json_error_text(err: serde_json::Error) -> Seq<char>;

/// `Display` of `std::io::Error`: the text that the error prints. What it says of an
/// error of the system is the system's own wording, so nothing is stated of it.
#[verifier::external_body]
pub(crate) fn io_error_message(err: &std::io::Error) -> (r: String) {
    err.to_string()
}

/// `Display` of `serde_json::Error`: the text that the error prints.
#[verifier::external_body]
fn json_error_message(err: &serde_json::Error) -> (r: String)
    ensures
        r@ == json_error_text(*err),
{
    err.to_string()
}

/// The message of an error of reading or writing whose own text is `text`.
pub fn io_message(text: &str) -> (r: String)
    ensures
        r@ == "io error: "@ + text@,
{
    let mut out = "io error: ".to_owned();
    out.append(text);
    out
}

impl StorageError {
    /// Whether `message` is a message of the error: for an error of encoding, the
    /// text that the encoder prints after `serde error: `; for an error of reading or
    /// writing, any text after `io error: `.
    pub open spec fn has_message(&self, message: Seq<char>) -> bool {
        match self {
            StorageError::Io(_) => exists|text: Seq<char>| message == "io error: "@ + text,
            StorageError::Serde(err) => message == "serde error: "@ + json_error_text(*err),
        }
    }

    /// The message of the error, as it is shown and logged.
    pub fn message(&self) -> (r: String)
        ensures
            self.has_message(r@),
    {
        match self {
            StorageError::Io(err) => {
                let text = io_error_message(err);
                io_message(text.as_str())
            },
            StorageError::Serde(err) => {
                let mut out = "serde error: ".to_owned();
                let text = json_error_message(err);
                out.append(text.as_str());
                out
            },
        }
    }
}

/// The name of the file that holds the snapshot.
pub const STORAGE_FILE: &'static str = "storage.json";

/// The name of the file that a new snapshot is written to before it replaces the old
/// one.
pub const STORAGE_TEMP_FILE: &'static str = "storage.json.tmp";

/// Where the store lives: the directory that holds the snapshot.
#[derive(Debug, Clone)]
pub struct FileStorage {
    pub root: String,
}

impl FileStorage {
    pub fn new(root: String) -> (r: Self)
        ensures
            r.root == root,
    {
        FileStorage { root }
    }
}

/// The devices of one bridge, under the text of its identifier.
#[derive(Debug, Clone)]
pub struct StoredDevices {
    pub key: String,
    pub devices: Vec<BridgeDevice>,
}

/// The runtime state of one bridge, under the text of its identifier.
#[derive(Debug, Clone)]
pub struct StoredRuntime {
    pub key: String,
    pub state: BridgeRuntimeState,
}

/// The whole snapshot.
#[derive(Debug, Clone)]
pub struct StorageState {
    pub bridges: Vec<BridgeConfig>,
    pub operations: Vec<BridgeOperation>,
    pub devices: Vec<StoredDevices>,
    pub runtime: Vec<StoredRuntime>,
}

/// The identifier of a bridge.
pub open spec fn bridge_key() -> spec_fn(BridgeConfig) -> u128 {
    |b: BridgeConfig| b.id
}

/// The identifier of an operation.
pub open spec fn operation_key() -> spec_fn(BridgeOperation) -> u128 {
    |op: BridgeOperation| op.operation_id
}

/// The status of an operation.
pub open spec fn operation_status() -> spec_fn(BridgeOperation) -> OperationStatus {
    |op: BridgeOperation| op.status
}

/// The key of a device list.
pub open spec fn devices_key() -> spec_fn(StoredDevices) -> Seq<char> {
    |e: StoredDevices| e.key@
}

/// The key of a runtime state.
pub open spec fn runtime_key() -> spec_fn(StoredRuntime) -> Seq<char> {
    |e: StoredRuntime| e.key@
}

/// The runtime states whose key is the text of an identifier, each with that
/// identifier, in the order of the entries.
pub open spec fn runtime_entries(entries: Seq<StoredRuntime>) -> Seq<BridgeRuntimeEntry>
    decreases entries.len(),
{
    if entries.len() == 0 {
        Seq::empty()
    } else {
        let rest = runtime_entries(entries.drop_last());
        match uuid_parse(entries.last().key@) {
            Some(id) => rest.push(BridgeRuntimeEntry { bridge_id: id, state: entries.last().state }),
            None => rest,
        }
    }
}

/// The devices stored under a key; none where the key has no entry.
pub open spec fn devices_under(entries: Seq<StoredDevices>, key: Seq<char>) -> Seq<BridgeDevice> {
    match first_with_key(entries, devices_key(), key) {
        Some(e) => e.devices@,
        None => Seq::empty(),
    }
}

/// The runtime state stored under a key.
pub open spec fn runtime_under(entries: Seq<StoredRuntime>, key: Seq<char>) -> Option<
    BridgeRuntimeState,
> {
    match first_with_key(entries, runtime_key(), key) {
        Some(e) => Some(e.state),
        None => None,
    }
}

/// A copy of a list of strings.
fn clone_strings(list: &Vec<String>) -> (r: Vec<String>)
    ensures
        string_views(r@) == string_views(list@),
{
    let mut out: Vec<String> = Vec::new();
    let mut i: usize = 0;
    while i < list.len()
        invariant
            i <= list.len(),
            out.len() == i,
            forall|m: int| 0 <= m < i ==> (#[trigger] out[m])@ == list[m]@,
        decreases list.len() - i,
    {
        out.push(list[i].clone());
        i += 1;
    }
    assert(string_views(out@) =~= string_views(list@));
    out
}

/// A copy of a device.
pub fn clone_device(device: &BridgeDevice) -> (r: BridgeDevice)
    ensures
        r@ == device@,
{
    let capabilities = clone_strings(&device.capabilities);
    let r = BridgeDevice {
        entity_id: device.entity_id.clone(),
        device_type: device.device_type.clone(),
        endpoint_id: device.endpoint_id,
        display_name: device.display_name.clone(),
        area: clone_opt_string(&device.area),
        capabilities,
        reachable: device.reachable,
    };
    assert(r@.capabilities =~= string_views(r.capabilities@));
    assert(device@.capabilities =~= string_views(device.capabilities@));
    r
}

/// A copy of a list of devices.
pub fn clone_devices(devices: &Vec<BridgeDevice>) -> (r: Vec<BridgeDevice>)
    ensures
        device_views(r@) == device_views(devices@),
{
    let mut out: Vec<BridgeDevice> = Vec::new();
    let mut i: usize = 0;
    while i < devices.len()
        invariant
            i <= devices.len(),
            out.len() == i,
            forall|m: int| 0 <= m < i ==> (#[trigger] out[m])@ == devices[m]@,
        decreases devices.len() - i,
    {
        out.push(clone_device(&devices[i]));
        i += 1;
    }
    assert(device_views(out@) =~= device_views(devices@));
    out
}

/// A copy of a runtime state.
pub fn clone_runtime_state(state: &BridgeRuntimeState) -> (r: BridgeRuntimeState)
    ensures
        r == *state,
{
    BridgeRuntimeState {
        status: state.status,
        last_error: clone_opt_string(&state.last_error),
        operation_id: state.operation_id,
        updated_at: state.updated_at,
    }
}

/// The bridges of a list but those with the given identifier.
fn bridges_without(list: Vec<BridgeConfig>, id: u128) -> (kept: Vec<BridgeConfig>)
    ensures
        kept@ == without_key(list@, bridge_key(), id),
{
    let ghost all = list@;
    let ghost pred = other_key(bridge_key(), id);
    let mut kept: Vec<BridgeConfig> = Vec::new();
    proof {
        reveal(Seq::filter);
        assert(all.take(0).filter(pred) =~= Seq::empty());
    }
    for bridge in it: list
        invariant
            it.seq() == all,
            pred == other_key(bridge_key(), id),
            kept@ == all.take(it.index() as int).filter(pred),
    {
        proof {
            lemma_filter_step(all, it.index() as int, pred);
        }
        if bridge.id != id {
            kept.push(bridge);
        }
    }
    assert(all.take(all.len() as int) =~= all);
    kept
}

/// The operations of a list but those with the given identifier.
fn operations_without(list: Vec<BridgeOperation>, id: u128) -> (kept: Vec<BridgeOperation>)
    ensures
        kept@ == without_key(list@, operation_key(), id),
{
    let ghost all = list@;
    let ghost pred = other_key(operation_key(), id);
    let mut kept: Vec<BridgeOperation> = Vec::new();
    proof {
        reveal(Seq::filter);
        assert(all.take(0).filter(pred) =~= Seq::empty());
    }
    for op in it: list
        invariant
            it.seq() == all,
            pred == other_key(operation_key(), id),
            kept@ == all.take(it.index() as int).filter(pred),
    {
        proof {
            lemma_filter_step(all, it.index() as int, pred);
        }
        if op.operation_id != id {
            kept.push(op);
        }
    }
    assert(all.take(all.len() as int) =~= all);
    kept
}

/// The device lists but the one under the given key.
fn devices_without(list: Vec<StoredDevices>, key: &str) -> (kept: Vec<StoredDevices>)
    ensures
        kept@ == without_key(list@, devices_key(), key@),
{
    let ghost all = list@;
    let ghost pred = other_key(devices_key(), key@);
    let mut kept: Vec<StoredDevices> = Vec::new();
    proof {
        reveal(Seq::filter);
        assert(all.take(0).filter(pred) =~= Seq::empty());
    }
    for entry in it: list
        invariant
            it.seq() == all,
            pred == other_key(devices_key(), key@),
            kept@ == all.take(it.index() as int).filter(pred),
    {
        proof {
            lemma_filter_step(all, it.index() as int, pred);
        }
        if !str_eq(entry.key.as_str(), key) {
            kept.push(entry);
        }
    }
    assert(all.take(all.len() as int) =~= all);
    kept
}

/// The runtime states but the one under the given key.
fn runtime_without(list: Vec<StoredRuntime>, key: &str) -> (kept: Vec<StoredRuntime>)
    ensures
        kept@ == without_key(list@, runtime_key(), key@),
{
    let ghost all = list@;
    let ghost pred = other_key(runtime_key(), key@);
    let mut kept: Vec<StoredRuntime> = Vec::new();
    proof {
        reveal(Seq::filter);
        assert(all.take(0).filter(pred) =~= Seq::empty());
    }
    for entry in it: list
        invariant
            it.seq() == all,
            pred == other_key(runtime_key(), key@),
            kept@ == all.take(it.index() as int).filter(pred),
    {
        proof {
            lemma_filter_step(all, it.index() as int, pred);
        }
        if !str_eq(entry.key.as_str(), key) {
            kept.push(entry);
        }
    }
    assert(all.take(all.len() as int) =~= all);
    kept
}

impl Default for StorageState {
    fn default() -> (r: Self)
        ensures
            r.bridges@.len() == 0,
            r.operations@.len() == 0,
            r.devices@.len() == 0,
            r.runtime@.len() == 0,
            r.wf(),
    {
        StorageState {
            bridges: Vec::new(),
            operations: Vec::new(),
            devices: Vec::new(),
            runtime: Vec::new(),
        }
    }
}

impl StorageState {
    /// Whether the snapshot is well formed: no two bridges have the same identifier,
    /// and no key has two device lists or two runtime states.
    pub open spec fn wf(&self) -> bool {
        &&& distinct_keys(self.bridges@, bridge_key())
        &&& distinct_keys(self.devices@, devices_key())
        &&& distinct_keys(self.runtime@, runtime_key())
    }

    /// All bridges, in the order in which they were last written.
    pub fn list_bridges(&self) -> (r: &Vec<BridgeConfig>)
        ensures
            r == &self.bridges,
    {
        &self.bridges
    }

    /// The bridge with the given identifier.
    pub fn get_bridge(&self, id: u128) -> (r: Option<&BridgeConfig>)
        ensures
            match r {
                Some(b) => first_with_key(self.bridges@, bridge_key(), id) == Some(*b),
                None => first_with_key(self.bridges@, bridge_key(), id) is None,
            },
    {
        let mut i: usize = 0;
        assert(self.bridges@.skip(0) =~= self.bridges@);
        while i < self.bridges.len()
            invariant
                i <= self.bridges.len(),
                first_with_key(self.bridges@, bridge_key(), id) == first_with_key(
                    self.bridges@.skip(i as int),
                    bridge_key(),
                    id,
                ),
            decreases self.bridges.len() - i,
        {
            assert(self.bridges@.skip(i as int).drop_first() =~= self.bridges@.skip(i + 1));
            if self.bridges[i].id == id {
                return Some(&self.bridges[i]);
            }
            i += 1;
        }
        None
    }

    /// The operation log, the entry written last first.
    pub fn list_operations(&self) -> (r: &Vec<BridgeOperation>)
        ensures
            r == &self.operations,
    {
        &self.operations
    }

    /// The operation to run next: the first entry of the log that is still queued,
    /// which is the one queued last.
    pub fn next_queued_operation(&self) -> (r: Option<&BridgeOperation>)
        ensures
            match r {
                Some(op) => first_with_key(
                    self.operations@,
                    operation_status(),
                    OperationStatus::Queued,
                ) == Some(*op),
                None => first_with_key(
                    self.operations@,
                    operation_status(),
                    OperationStatus::Queued,
                ) is None,
            },
    {
        let mut i: usize = 0;
        assert(self.operations@.skip(0) =~= self.operations@);
        while i < self.operations.len()
            invariant
                i <= self.operations.len(),
                first_with_key(self.operations@, operation_status(), OperationStatus::Queued)
                    == first_with_key(
                    self.operations@.skip(i as int),
                    operation_status(),
                    OperationStatus::Queued,
                ),
            decreases self.operations.len() - i,
        {
            assert(self.operations@.skip(i as int).drop_first() =~= self.operations@.skip(i + 1));
            if self.operations[i].status == OperationStatus::Queued {
                return Some(&self.operations[i]);
            }
            i += 1;
        }
        None
    }

    /// Writes a bridge: it takes the place of every bridge with its identifier and
    /// stands last.
    pub fn upsert_bridge(&mut self, bridge: BridgeConfig)
        ensures
            final(self).bridges@ == without_key(old(self).bridges@, bridge_key(), bridge.id).push(
                bridge,
            ),
            final(self).operations == old(self).operations,
            final(self).devices == old(self).devices,
            final(self).runtime == old(self).runtime,
            old(self).wf() ==> final(self).wf(),
    {
        let mut list: Vec<BridgeConfig> = Vec::new();
        core::mem::swap(&mut self.bridges, &mut list);
        proof {
            if old(self).wf() {
                lemma_replace_distinct(list@, bridge_key(), bridge);
            }
        }
        let mut kept = bridges_without(list, bridge.id);
        kept.push(bridge);
        self.bridges = kept;
    }

    /// Removes a bridge, and with it its devices and its runtime state.
    pub fn delete_bridge(&mut self, id: u128)
        ensures
            final(self).bridges@ == without_key(old(self).bridges@, bridge_key(), id),
            final(self).devices@ == without_key(old(self).devices@, devices_key(), uuid_text(id)),
            final(self).runtime@ == without_key(old(self).runtime@, runtime_key(), uuid_text(id)),
            final(self).operations == old(self).operations,
            old(self).wf() ==> final(self).wf(),
    {
        let key = format_uuid(id);
        let mut bridges: Vec<BridgeConfig> = Vec::new();
        core::mem::swap(&mut self.bridges, &mut bridges);
        let mut devices: Vec<StoredDevices> = Vec::new();
        core::mem::swap(&mut self.devices, &mut devices);
        let mut runtime: Vec<StoredRuntime> = Vec::new();
        core::mem::swap(&mut self.runtime, &mut runtime);
        proof {
            if old(self).wf() {
                crate::seqs::lemma_filter_distinct(bridges@, bridge_key(), other_key(bridge_key(), id));
                crate::seqs::lemma_filter_distinct(
                    devices@,
                    devices_key(),
                    other_key(devices_key(), key@),
                );
                crate::seqs::lemma_filter_distinct(
                    runtime@,
                    runtime_key(),
                    other_key(runtime_key(), key@),
                );
            }
        }
        self.bridges = bridges_without(bridges, id);
        self.devices = devices_without(devices, key.as_str());
        self.runtime = runtime_without(runtime, key.as_str());
    }

    /// The devices of a bridge; none where nothing is stored for it.
    pub fn list_bridge_devices(&self, id: u128) -> (r: Vec<BridgeDevice>)
        ensures
            device_views(r@) == device_views(devices_under(self.devices@, uuid_text(id))),
    {
        let key = format_uuid(id);
        let mut i: usize = 0;
        assert(self.devices@.skip(0) =~= self.devices@);
        while i < self.devices.len()
            invariant
                i <= self.devices.len(),
                key@ == uuid_text(id),
                first_with_key(self.devices@, devices_key(), key@) == first_with_key(
                    self.devices@.skip(i as int),
                    devices_key(),
                    key@,
                ),
            decreases self.devices.len() - i,
        {
            assert(self.devices@.skip(i as int).drop_first() =~= self.devices@.skip(i + 1));
            if str_eq(self.devices[i].key.as_str(), key.as_str()) {
                return clone_devices(&self.devices[i].devices);
            }
            i += 1;
        }
        let none: Vec<BridgeDevice> = Vec::new();
        assert(device_views(none@) =~= device_views(Seq::empty()));
        none
    }

    /// Stores the devices of a bridge in place of those stored before.
    pub fn set_bridge_devices(&mut self, id: u128, devices: Vec<BridgeDevice>)
        ensures
            final(self).devices@.len() > 0,
            final(self).devices@.drop_last() == without_key(
                old(self).devices@,
                devices_key(),
                uuid_text(id),
            ),
            final(self).devices@.last().key@ == uuid_text(id),
            final(self).devices@.last().devices == devices,
            final(self).bridges == old(self).bridges,
            final(self).operations == old(self).operations,
            final(self).runtime == old(self).runtime,
            old(self).wf() ==> final(self).wf(),
    {
        let key = format_uuid(id);
        let mut list: Vec<StoredDevices> = Vec::new();
        core::mem::swap(&mut self.devices, &mut list);
        let mut kept = devices_without(list, key.as_str());
        let entry = StoredDevices { key, devices };
        proof {
            if old(self).wf() {
                lemma_replace_distinct(list@, devices_key(), entry);
            }
            assert(kept@.push(entry).drop_last() =~= kept@);
        }
        kept.push(entry);
        self.devices = kept;
    }

    /// Removes the devices of a bridge.
    pub fn delete_bridge_devices(&mut self, id: u128)
        ensures
            final(self).devices@ == without_key(old(self).devices@, devices_key(), uuid_text(id)),
            final(self).bridges == old(self).bridges,
            final(self).operations == old(self).operations,
            final(self).runtime == old(self).runtime,
            old(self).wf() ==> final(self).wf(),
    {
        let key = format_uuid(id);
        let mut list: Vec<StoredDevices> = Vec::new();
        core::mem::swap(&mut self.devices, &mut list);
        proof {
            if old(self).wf() {
                crate::seqs::lemma_filter_distinct(
                    list@,
                    devices_key(),
                    other_key(devices_key(), key@),
                );
            }
        }
        self.devices = devices_without(list, key.as_str());
    }

    /// The runtime states of all bridges, each with the identifier that its key holds;
    /// an entry whose key is no identifier is left out.
    pub fn list_bridge_runtime(&self) -> (r: Vec<BridgeRuntimeEntry>)
        ensures
            r@ == runtime_entries(self.runtime@),
    {
        let mut out: Vec<BridgeRuntimeEntry> = Vec::new();
        let mut i: usize = 0;
        assert(self.runtime@.take(0) =~= Seq::empty());
        while i < self.runtime.len()
            invariant
                i <= self.runtime.len(),
                out@ == runtime_entries(self.runtime@.take(i as int)),
            decreases self.runtime.len() - i,
        {
            assert(self.runtime@.take(i + 1).drop_last() =~= self.runtime@.take(i as int));
            match parse_uuid(self.runtime[i].key.as_str()) {
                Some(bridge_id) => {
                    out.push(
                        BridgeRuntimeEntry {
                            bridge_id,
                            state: clone_runtime_state(&self.runtime[i].state),
                        },
                    );
                },
                None => {},
            }
            i += 1;
        }
        assert(self.runtime@.take(i as int) =~= self.runtime@);
        out
    }

    /// The runtime state of a bridge.
    pub fn get_bridge_runtime(&self, id: u128) -> (r: Option<BridgeRuntimeState>)
        ensures
            r == runtime_under(self.runtime@, uuid_text(id)),
    {
        let key = format_uuid(id);
        let mut i: usize = 0;
        assert(self.runtime@.skip(0) =~= self.runtime@);
        while i < self.runtime.len()
            invariant
                i <= self.runtime.len(),
                key@ == uuid_text(id),
                first_with_key(self.runtime@, runtime_key(), key@) == first_with_key(
                    self.runtime@.skip(i as int),
                    runtime_key(),
                    key@,
                ),
            decreases self.runtime.len() - i,
        {
            assert(self.runtime@.skip(i as int).drop_first() =~= self.runtime@.skip(i + 1));
            if str_eq(self.runtime[i].key.as_str(), key.as_str()) {
                return Some(clone_runtime_state(&self.runtime[i].state));
            }
            i += 1;
        }
        None
    }

    /// Stores the runtime state of a bridge in place of the one stored before.
    pub fn set_bridge_runtime(&mut self, id: u128, runtime: BridgeRuntimeState)
        ensures
            final(self).runtime@.len() > 0,
            final(self).runtime@.drop_last() == without_key(
                old(self).runtime@,
                runtime_key(),
                uuid_text(id),
            ),
            final(self).runtime@.last().key@ == uuid_text(id),
            final(self).runtime@.last().state == runtime,
            final(self).bridges == old(self).bridges,
            final(self).operations == old(self).operations,
            final(self).devices == old(self).devices,
            old(self).wf() ==> final(self).wf(),
    {
        let key = format_uuid(id);
        let mut list: Vec<StoredRuntime> = Vec::new();
        core::mem::swap(&mut self.runtime, &mut list);
        let mut kept = runtime_without(list, key.as_str());
        let entry = StoredRuntime { key, state: runtime };
        proof {
            if old(self).wf() {
                lemma_replace_distinct(list@, runtime_key(), entry);
            }
            assert(kept@.push(entry).drop_last() =~= kept@);
        }
        kept.push(entry);
        self.runtime = kept;
    }

    /// Removes the runtime state of a bridge.
    pub fn delete_bridge_runtime(&mut self, id: u128)
        ensures
            final(self).runtime@ == without_key(old(self).runtime@, runtime_key(), uuid_text(id)),
            final(self).bridges == old(self).bridges,
            final(self).operations == old(self).operations,
            final(self).devices == old(self).devices,
            old(self).wf() ==> final(self).wf(),
    {
        let key = format_uuid(id);
        let mut list: Vec<StoredRuntime> = Vec::new();
        core::mem::swap(&mut self.runtime, &mut list);
        proof {
            if old(self).wf() {
                crate::seqs::lemma_filter_distinct(
                    list@,
                    runtime_key(),
                    other_key(runtime_key(), key@),
                );
            }
        }
        self.runtime = runtime_without(list, key.as_str());
    }

    /// Adds an operation at the head of the log.
    pub fn add_operation(&mut self, op: BridgeOperation)
        ensures
            final(self).operations@ == seq![op] + old(self).operations@,
            final(self).bridges == old(self).bridges,
            final(self).devices == old(self).devices,
            final(self).runtime == old(self).runtime,
    {
        self.operations.insert(0, op);
        assert(self.operations@ =~= seq![op] + old(self).operations@);
    }

    /// Writes an operation back: it takes the place of every entry with its identifier
    /// and moves to the head of the log.
    pub fn update_operation(&mut self, op: BridgeOperation)
        ensures
            final(self).operations@ == seq![op] + without_key(
                old(self).operations@,
                operation_key(),
                op.operation_id,
            ),
            final(self).bridges == old(self).bridges,
            final(self).devices == old(self).devices,
            final(self).runtime == old(self).runtime,
    {
        let mut list: Vec<BridgeOperation> = Vec::new();
        core::mem::swap(&mut self.operations, &mut list);
        let mut kept = operations_without(list, op.operation_id);
        let ghost before = kept@;
        kept.insert(0, op);
        assert(kept@ =~= seq![op] + before);
        self.operations = kept;
    }
}

/// In a well-formed snapshot at most one bridge has a given identifier.
pub proof fn lemma_bridge_unique(state: StorageState, i: int, j: int)
    requires
        state.wf(),
        0 <= i < state.bridges@.len(),
        0 <= j < state.bridges@.len(),
        state.bridges@[i].id == state.bridges@[j].id,
    ensures
        i == j,
{
    if i < j {
        assert(bridge_key()(state.bridges@[i]) != bridge_key()(state.bridges@[j]));
    } else if j < i {
        assert(bridge_key()(state.bridges@[j]) != bridge_key()(state.bridges@[i]));
    }
}

/// Once a bridge is written, exactly one bridge has its identifier: the one written,
/// which stands last. This holds whatever the list held before.
pub proof fn lemma_upsert_leaves_one(bridges: Seq<BridgeConfig>, bridge: BridgeConfig)
    ensures
        forall|i: int|
            0 <= i < without_key(bridges, bridge_key(), bridge.id).push(bridge).len() ==> ((
            #[trigger] without_key(bridges, bridge_key(), bridge.id).push(bridge)[i]).id
                == bridge.id <==> i == without_key(bridges, bridge_key(), bridge.id).len()),
        first_with_key(
            without_key(bridges, bridge_key(), bridge.id).push(bridge),
            bridge_key(),
            bridge.id,
        ) == Some(bridge),
{
    crate::seqs::lemma_without_key_absent(bridges, bridge_key(), bridge.id);
    crate::seqs::lemma_first_after_replace(bridges, bridge_key(), bridge, bridge.id);
    let kept = without_key(bridges, bridge_key(), bridge.id);
    assert forall|i: int| 0 <= i < kept.push(bridge).len() implies ((#[trigger] kept.push(
        bridge,
    )[i]).id == bridge.id <==> i == kept.len()) by {
        if i < kept.len() {
            assert(bridge_key()(kept[i]) != bridge.id);
        }
    }
}

/// Once a bridge is deleted, no bridge has its identifier.
pub proof fn lemma_delete_leaves_none(bridges: Seq<BridgeConfig>, id: u128)
    ensures
        forall|i: int|
            0 <= i < without_key(bridges, bridge_key(), id).len() ==> (#[trigger] without_key(
                bridges,
                bridge_key(),
                id,
            )[i]).id != id,
        first_with_key(without_key(bridges, bridge_key(), id), bridge_key(), id) is None,
{
    crate::seqs::lemma_without_key_absent(bridges, bridge_key(), id);
    crate::seqs::lemma_first_after_without(bridges, bridge_key(), id, id);
    let kept = without_key(bridges, bridge_key(), id);
    assert forall|i: int| 0 <= i < kept.len() implies (#[trigger] kept[i]).id != id by {
        assert(bridge_key()(kept[i]) != id);
    }
}

/// An operation that is added while queued is the one that runs next: the log is read
/// from its head, where new entries go.
pub proof fn lemma_last_queued_runs_next(log: Seq<BridgeOperation>, op: BridgeOperation)
    requires
        op.status == OperationStatus::Queued,
    ensures
        first_with_key(seq![op] + log, operation_status(), OperationStatus::Queued) == Some(op),
{
}

/// After the devices of a bridge are stored under `key`, they are what is found under
/// it, and every other key finds what it found before.
pub proof fn lemma_devices_after_set(entries: Seq<StoredDevices>, entry: StoredDevices, key: Seq<char>)
    ensures
        devices_under(without_key(entries, devices_key(), entry.key@).push(entry), key) == if key
            == entry.key@ {
            entry.devices@
        } else {
            devices_under(entries, key)
        },
{
    crate::seqs::lemma_first_after_replace(entries, devices_key(), entry, key);
}

/// After the runtime state of a bridge is stored under `key`, it is what is found
/// under it, and every other key finds what it found before.
pub proof fn lemma_runtime_after_set(entries: Seq<StoredRuntime>, entry: StoredRuntime, key: Seq<char>)
    ensures
        runtime_under(without_key(entries, runtime_key(), entry.key@).push(entry), key) == if key
            == entry.key@ {
            Some(entry.state)
        } else {
            runtime_under(entries, key)
        },
{
    crate::seqs::lemma_first_after_replace(entries, runtime_key(), entry, key);
}

} // verus!
