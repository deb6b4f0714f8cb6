//! What the Matter side of a bridge shares: its errors, the state of an entity, the
//! names that a bridge goes by, and the table from entities to endpoints.

use vstd::prelude::*;

use crate::ids::{format_uuid, uuid_text};
use crate::models::BridgeDevice;
use crate::storage::io_error_message;
use crate::text::str_eq;

verus! {

/// Why the Matter runtime of a bridge failed.
#[derive(Debug)]
pub enum MatterError {
    PortInUse(u16),
    Io(String),
    Runtime(String),
    NotImplemented,
}

/// Whether an entity is switched on.
#[derive(Debug, Clone)]
pub struct EntityState {
    pub entity_id: String,
    pub on: bool,
}

/// The adapter that runs bridges on the embedded Matter stack.
#[derive(Debug, Clone, Copy, PartialEq, Eq, Structural)]
pub struct RsMatterAdapter;

impl Default for RsMatterAdapter {
    fn default() -> (r: Self)
        ensures
            r == RsMatterAdapter,
    {
        RsMatterAdapter
    }
}

/// The decimal digits of a number, the highest first, without leading zeros.
pub open spec fn decimal(n: nat) -> Seq<char>
    decreases n,
{
    if n < 10 {
        seq![(('0' as nat) + n) as char]
    } else {
        decimal(n / 10).push((('0' as nat) + n % 10) as char)
    }
}

/// The character of a decimal digit.
fn digit_char(d: u16) -> (c: char)
    requires
        d < 10,
    ensures
        c == (('0' as nat) + d as nat) as char,
{
    if d == 0 {
        '0'
    } else if d == 1 {
        '1'
    } else if d == 2 {
        '2'
    } else if d == 3 {
        '3'
    } else if d == 4 {
        '4'
    } else if d == 5 {
        '5'
    } else if d == 6 {
        '6'
    } else if d == 7 {
        '7'
    } else if d == 8 {
        '8'
    } else {
        '9'
    }
}

/// Appends the decimal digits of `n` to `out`.
pub fn push_decimal(out: &mut String, n: u16)
    ensures
        final(out)@ == old(out)@ + decimal(n as nat),
    decreases n,
{
    if n < 10 {
        out.push(digit_char(n));
        assert(out@ =~= old(out)@ + decimal(n as nat));
    } else {
        push_decimal(out, n / 10);
        out.push(digit_char(n % 10));
        assert(out@ =~= old(out)@ + decimal(n as nat));
    }
}

impl MatterError {
    /// The message of the error.
    pub open spec fn message_spec(&self) -> Seq<char> {
        match self {
            MatterError::PortInUse(port) => "bridge port "@ + decimal(*port as nat)
                + " already in use"@,
            MatterError::Io(text) => "io error: "@ + text@,
            MatterError::Runtime(text) => "runtime error: "@ + text@,
            MatterError::NotImplemented => "not implemented"@,
        }
    }

    /// The message of the error, as it is shown and stored with a failed operation.
    pub fn message(&self) -> (r: String)
        ensures
            r@ == self.message_spec(),
    {
        match self {
            MatterError::PortInUse(port) => {
                let mut out = "bridge port ".to_owned();
                push_decimal(&mut out, *port);
                out.append(" already in use");
                out
            },
            MatterError::Io(text) => {
                let mut out = "io error: ".to_owned();
                out.append(text.as_str());
                out
            },
            MatterError::Runtime(text) => {
                let mut out = "runtime error: ".to_owned();
                out.append(text.as_str());
                out
            },
            MatterError::NotImplemented => "not implemented".to_owned(),
        }
    }
}

/// Whether an error of reading or writing is of the kind that says that an address is
/// in use already.
pub uninterp spec fn io_addr_in_use(err: std::io::Error) -> bool;

/// `std::io::Error::kind`, compared with `ErrorKind::AddrInUse`: whether the error is
/// of that kind. The kind is a matter of the error alone: it is the kind that the
/// error was made with, or the one that its system code stands for.
#[verifier::external_body]
fn is_addr_in_use(err: &std::io::Error) -> (r: bool)
    ensures
        r == io_addr_in_use(*err),
{
    err.kind() == std::io::ErrorKind::AddrInUse
}

/// The error of a bridge whose socket could not be bound to `port`: the port is in use
/// where the system said so, and any other failure is handed on with its text.
pub fn bind_failure(addr_in_use: bool, text: String, port: u16) -> (r: MatterError)
    ensures
        addr_in_use ==> r == MatterError::PortInUse(port),
        !addr_in_use ==> r == MatterError::Io(text),
{
    if addr_in_use {
        MatterError::PortInUse(port)
    } else {
        MatterError::Io(text)
    }
}

/// The error of a bridge whose socket could not be bound to `port`, from the error of
/// the system: the port is in use where the error is of that kind, and any other
/// error is handed on as an I/O error with the text that it prints.
pub fn map_io_error(err: std::io::Error, port: u16) -> (r: MatterError)
    ensures
        io_addr_in_use(err) ==> r == MatterError::PortInUse(port),
        !io_addr_in_use(err) ==> r is Io,
{
    let addr_in_use = is_addr_in_use(&err);
    let text = io_error_message(&err);
    bind_failure(addr_in_use, text, port)
}

/// The name of the directory, under the root of the store, that holds the Matter state
/// of the bridges.
pub const PERSIST_DIR_NAME: &'static str = "matter";

/// The name of the file that holds the Matter state of a bridge.
pub open spec fn persist_file_name_spec(bridge_id: u128) -> Seq<char> {
    "bridge-"@ + uuid_text(bridge_id) + ".psm"@
}

/// The name of the file that holds the Matter state of a bridge.
pub fn persist_file_name(bridge_id: u128) -> (r: String)
    ensures
        r@ == persist_file_name_spec(bridge_id),
{
    let mut out = "bridge-".to_owned();
    let id = format_uuid(bridge_id);
    out.append(id.as_str());
    out.append(".psm");
    out
}

/// The name under which a bridge shows itself to commissioners.
pub fn device_name(bridge_id: u128) -> (r: String)
    ensures
        r@ == "HAMH "@ + uuid_text(bridge_id),
{
    let mut out = "HAMH ".to_owned();
    let id = format_uuid(bridge_id);
    out.append(id.as_str());
    out
}

/// The serial number of a bridge, which is its unique id as well.
pub fn serial_number(bridge_id: u128) -> (r: String)
    ensures
        r@ == "hamh-"@ + uuid_text(bridge_id),
{
    let mut out = "hamh-".to_owned();
    let id = format_uuid(bridge_id);
    out.append(id.as_str());
    out
}

/// One entry of the table from entities to endpoints.
#[derive(Debug, Clone)]
pub struct EntityEndpoint {
    pub entity_id: String,
    pub endpoint_id: u16,
}

/// The table from entities to the endpoints of their devices. Where an entity is
/// listed more than once, its last entry counts.
#[derive(Debug, Clone)]
pub struct EntityMap {
    pub entries: Vec<EntityEndpoint>,
}

/// The endpoint of an entity among `devices`: that of the last device of the entity.
pub open spec fn endpoint_of(devices: Seq<BridgeDevice>, entity_id: Seq<char>) -> Option<u16>
    decreases devices.len(),
{
    if devices.len() == 0 {
        None
    } else if devices.last().entity_id@ == entity_id {
        Some(devices.last().endpoint_id)
    } else {
        endpoint_of(devices.drop_last(), entity_id)
    }
}

impl EntityMap {
    /// The endpoint that the table gives for an entity.
    pub open spec fn lookup(&self, entity_id: Seq<char>) -> Option<u16>
        decreases self.entries@.len(),
    {
        lookup_in(self.entries@, entity_id)
    }

    /// The endpoint of an entity; `None` for an entity that the table does not list.
    pub fn get(&self, entity_id: &str) -> (r: Option<u16>)
        ensures
            r == self.lookup(entity_id@),
    {
        let mut i: usize = self.entries.len();
        assert(self.entries@.take(i as int) =~= self.entries@);
        while i > 0
            invariant
                i <= self.entries.len(),
                lookup_in(self.entries@, entity_id@) == lookup_in(
                    self.entries@.take(i as int),
                    entity_id@,
                ),
            decreases i,
        {
            assert(self.entries@.take(i as int).drop_last() =~= self.entries@.take(i - 1));
            if str_eq(self.entries[i - 1].entity_id.as_str(), entity_id) {
                return Some(self.entries[i - 1].endpoint_id);
            }
            i -= 1;
        }
        None
    }
}

/// The endpoint of an entity among the entries of a table: that of its last entry.
pub open spec fn lookup_in(entries: Seq<EntityEndpoint>, entity_id: Seq<char>) -> Option<u16>
    decreases entries.len(),
{
    if entries.len() == 0 {
        None
    } else if entries.last().entity_id@ == entity_id {
        Some(entries.last().endpoint_id)
    } else {
        lookup_in(entries.drop_last(), entity_id)
    }
}

/// The table from the entities of `devices` to their endpoints.
pub fn build_entity_map(devices: &Vec<BridgeDevice>) -> (map: EntityMap)
    ensures
        forall|entity_id: Seq<char>| map.lookup(entity_id) == endpoint_of(devices@, entity_id),
{
    let mut entries: Vec<EntityEndpoint> = Vec::new();
    let mut i: usize = 0;
    while i < devices.len()
        invariant
            i <= devices.len(),
            entries.len() == i,
            forall|m: int|
                0 <= m < i ==> (#[trigger] entries[m]).entity_id@ == devices[m].entity_id@
                    && entries[m].endpoint_id == devices[m].endpoint_id,
        decreases devices.len() - i,
    {
        entries.push(
            EntityEndpoint {
                entity_id: devices[i].entity_id.clone(),
                endpoint_id: devices[i].endpoint_id,
            },
        );
        i += 1;
    }
    let map = EntityMap { entries };
    proof {
        assert forall|entity_id: Seq<char>| map.lookup(entity_id) == endpoint_of(
            devices@,
            entity_id,
        ) by {
            lemma_lookup_agrees(map.entries@, devices@, entity_id);
        }
    }
    map
}

proof fn lemma_lookup_agrees(
    entries: Seq<EntityEndpoint>,
    devices: Seq<BridgeDevice>,
    entity_id: Seq<char>,
)
    requires
        entries.len() == devices.len(),
        forall|m: int|
            0 <= m < entries.len() ==> (#[trigger] entries[m]).entity_id@ == devices[m].entity_id@
                && entries[m].endpoint_id == devices[m].endpoint_id,
    ensures
        lookup_in(entries, entity_id) == endpoint_of(devices, entity_id),
    decreases entries.len(),
{
    if entries.len() > 0 {
        assert(entries.last() == entries[entries.len() - 1]);
        lemma_lookup_agrees(entries.drop_last(), devices.drop_last(), entity_id);
    }
}

} // verus!
