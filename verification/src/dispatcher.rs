//! The dispatcher's decisions: what to do next for an operation, given what the last
//! step brought back, and which bridges have a running runtime.
//!
//! The dispatcher does no work itself. For each operation it is stepped from
//! `Phase::Begin` with `Event::Begin`; each step names an action, whoever runs the
//! dispatcher performs it and hands back what came of it, until the action is
//! `Action::Finish`.

use vstd::prelude::*;

use crate::devices::{bridge_devices, build_bridge_devices};
use crate::filter::EntityDescriptor;
use crate::models::{device_views, BridgeConfig, BridgeDevice, BridgeOperation, OperationType};
use crate::seqs::{
    distinct_keys, first_with_key, lemma_filter_step, lemma_first_after_replace,
    lemma_first_after_without, lemma_replace_distinct, other_key, without_key,
};
use crate::storage::clone_devices;

verus! {

/// The handle of the runtime of one bridge.
#[derive(Debug)]
pub struct RunningBridge<H> {
    pub bridge_id: u128,
    pub handle: H,
}

/// The dispatcher's own state: the handles of the runtimes that run, at most one for
/// each bridge.
#[derive(Debug)]
pub struct Dispatcher<H> {
    pub handles: Vec<RunningBridge<H>>,
}

/// Where the work on an operation stands.
#[derive(Debug)]
pub enum Phase {
    Begin,
    LoadingBridge,
    FetchingDescriptors { bridge: BridgeConfig },
    StoringDevices { bridge: BridgeConfig, devices: Vec<BridgeDevice> },
    Starting,
    Refreshing,
    Stopping,
    Resetting,
    ShuttingDown,
    Deleting,
    Done,
}

/// What the last action brought back.
#[derive(Debug)]
pub enum Event<H> {
    Begin,
    BridgeLoaded(Result<Option<BridgeConfig>, String>),
    Descriptors(Result<Vec<EntityDescriptor>, String>),
    Started(Result<H, String>),
    Done(Result<(), String>),
}

/// What is to be done next.
#[derive(Debug)]
pub enum Action<H> {
    /// Read the bridge from the store; answered by `Event::BridgeLoaded`.
    LoadBridge { bridge_id: u128 },
    /// Ask the upstream controller for its entities; answered by `Event::Descriptors`.
    FetchDescriptors,
    /// Store the devices of the bridge; answered by `Event::Done`.
    StoreDevices { bridge_id: u128, devices: Vec<BridgeDevice> },
    /// Start the runtime of the bridge; answered by `Event::Started`.
    StartRuntime { bridge: BridgeConfig, devices: Vec<BridgeDevice> },
    /// Tell the running runtime of the bridge its new devices; answered by
    /// `Event::Done`.
    SendUpdateDevices { bridge_id: u128, devices: Vec<BridgeDevice> },
    /// Tell the running runtime of the bridge to reset; answered by `Event::Done`.
    SendFactoryReset { bridge_id: u128 },
    /// Tell the runtime behind the handle to shut down, and drop the handle; answered
    /// by `Event::Done`.
    SendShutdown { handle: H },
    /// Delete the bridge from the store; answered by `Event::Done`.
    DeleteBridge { bridge_id: u128 },
    /// The operation is over, with this result.
    Finish(Result<(), String>),
}

/// The bridge of a handle.
pub open spec fn handle_key<H>() -> spec_fn(RunningBridge<H>) -> u128 {
    |r: RunningBridge<H>| r.bridge_id
}

/// Whether an action ends the operation with the given message as its error.
pub open spec fn fails_with<H>(action: Action<H>, message: Seq<char>) -> bool {
    action matches Action::Finish(Err(m)) && m@ == message
}

/// Whether an action ends the operation without an error.
pub open spec fn ends_well<H>(action: Action<H>) -> bool {
    action matches Action::Finish(Ok(_))
}

/// Whether the operation builds the devices of its bridge.
pub open spec fn builds_devices(op_type: OperationType) -> bool {
    op_type is Create || op_type is Update || op_type is Start || op_type is Refresh
}

impl<H> Dispatcher<H> {
    /// Whether no bridge has two handles.
    pub open spec fn wf(&self) -> bool {
        distinct_keys(self.handles@, handle_key::<H>())
    }

    /// The handle of a bridge's runtime, where it runs.
    pub open spec fn handle_of(&self, bridge_id: u128) -> Option<H> {
        match first_with_key(self.handles@, handle_key::<H>(), bridge_id) {
            Some(r) => Some(r.handle),
            None => None,
        }
    }

    /// Whether the runtime of a bridge runs.
    pub open spec fn has_handle(&self, bridge_id: u128) -> bool {
        self.handle_of(bridge_id) is Some
    }

    /// Whether a phase fits the operation and the handles: the phases after a handle
    /// was taken belong to the operation that took it, and the handle is gone.
    pub open spec fn fits(&self, op: BridgeOperation, phase: Phase) -> bool {
        match phase {
            Phase::Stopping => op.op_type is Stop && !self.has_handle(op.bridge_id),
            Phase::ShuttingDown | Phase::Deleting => op.op_type is Delete && !self.has_handle(
                op.bridge_id,
            ),
            _ => true,
        }
    }

    /// A dispatcher without any running bridge.
    pub fn new() -> (r: Self)
        ensures
            r.handles@.len() == 0,
            r.wf(),
    {
        Dispatcher { handles: Vec::new() }
    }

    /// The handle of a bridge's runtime, where it runs.
    pub fn handle(&self, bridge_id: u128) -> (r: Option<&H>)
        ensures
            match r {
                Some(h) => self.handle_of(bridge_id) == Some(*h),
                None => self.handle_of(bridge_id) is None,
            },
    {
        let mut i: usize = 0;
        assert(self.handles@.skip(0) =~= self.handles@);
        while i < self.handles.len()
            invariant
                i <= self.handles.len(),
                first_with_key(self.handles@, handle_key::<H>(), bridge_id) == first_with_key(
                    self.handles@.skip(i as int),
                    handle_key::<H>(),
                    bridge_id,
                ),
            decreases self.handles.len() - i,
        {
            assert(self.handles@.skip(i as int).drop_first() =~= self.handles@.skip(i + 1));
            if self.handles[i].bridge_id == bridge_id {
                return Some(&self.handles[i].handle);
            }
            i += 1;
        }
        None
    }

    /// Takes the handle of a bridge out, where there is one.
    pub fn take_handle(&mut self, bridge_id: u128) -> (r: Option<H>)
        ensures
            r == old(self).handle_of(bridge_id),
            final(self).handles@ == without_key(old(self).handles@, handle_key::<H>(), bridge_id),
            !final(self).has_handle(bridge_id),
            forall|other: u128|
                other != bridge_id ==> final(self).handle_of(other) == old(self).handle_of(other),
            old(self).wf() ==> final(self).wf(),
    {
        let mut list: Vec<RunningBridge<H>> = Vec::new();
        core::mem::swap(&mut self.handles, &mut list);
        let ghost all = list@;
        let ghost pred = other_key(handle_key::<H>(), bridge_id);
        let mut kept: Vec<RunningBridge<H>> = Vec::new();
        let mut found: Option<H> = None;
        proof {
            reveal(Seq::filter);
            assert(all.take(0).filter(pred) =~= Seq::empty());
            lemma_first_after_without(all, handle_key::<H>(), bridge_id, bridge_id);
            assert forall|other: u128| other != bridge_id implies first_with_key(
                without_key(all, handle_key::<H>(), bridge_id),
                handle_key::<H>(),
                other,
            ) == first_with_key(all, handle_key::<H>(), other) by {
                lemma_first_after_without(all, handle_key::<H>(), bridge_id, other);
            }
            if old(self).wf() {
                crate::seqs::lemma_filter_distinct(all, handle_key::<H>(), pred);
            }
        }
        for entry in it: list
            invariant
                it.seq() == all,
                pred == other_key(handle_key::<H>(), bridge_id),
                kept@ == all.take(it.index() as int).filter(pred),
                found == match first_with_key(
                    all.take(it.index() as int),
                    handle_key::<H>(),
                    bridge_id,
                ) {
                    Some(r) => Some(r.handle),
                    None => None,
                },
        {
            proof {
                let k = it.index() as int;
                lemma_filter_step(all, k, pred);
                assert(all.take(k + 1) =~= all.take(k).push(all[k]));
                crate::seqs::lemma_first_after_push(
                    all.take(k),
                    handle_key::<H>(),
                    all[k],
                    bridge_id,
                );
            }
            if entry.bridge_id != bridge_id {
                kept.push(entry);
            } else if found.is_none() {
                found = Some(entry.handle);
            }
        }
        assert(all.take(all.len() as int) =~= all);
        self.handles = kept;
        found
    }

    /// Stores the handle of a bridge's runtime in place of the one held before.
    pub fn insert_handle(&mut self, bridge_id: u128, handle: H)
        ensures
            final(self).handles@ == without_key(
                old(self).handles@,
                handle_key::<H>(),
                bridge_id,
            ).push(RunningBridge { bridge_id, handle }),
            final(self).handle_of(bridge_id) == Some(handle),
            forall|other: u128|
                other != bridge_id ==> final(self).handle_of(other) == old(self).handle_of(other),
            old(self).wf() ==> final(self).wf(),
    {
        let ghost before = self.handles@;
        let dropped = self.take_handle(bridge_id);
        let entry = RunningBridge { bridge_id, handle };
        proof {
            lemma_first_after_replace(before, handle_key::<H>(), entry, bridge_id);
            assert forall|other: u128| other != bridge_id implies first_with_key(
                without_key(before, handle_key::<H>(), bridge_id).push(entry),
                handle_key::<H>(),
                other,
            ) == first_with_key(before, handle_key::<H>(), other) by {
                lemma_first_after_replace(before, handle_key::<H>(), entry, other);
            }
            if old(self).wf() {
                lemma_replace_distinct(before, handle_key::<H>(), entry);
            }
        }
        self.handles.push(entry);
    }
}

/// What the first step of an operation does. An operation that builds devices reads
/// its bridge. Stop and Delete take the handle of the bridge and send it a shutdown;
/// without a handle Stop fails and Delete goes on to the store. FactoryReset needs a
/// running bridge, and fails without one.
pub open spec fn begin_step<H>(
    before: Dispatcher<H>,
    after: Dispatcher<H>,
    op: BridgeOperation,
    next: Phase,
    action: Action<H>,
) -> bool {
    let id = op.bridge_id;
    let taken = without_key(before.handles@, handle_key::<H>(), id);
    match op.op_type {
        OperationType::Stop => match before.handle_of(id) {
            Some(h) => next is Stopping && action == (Action::SendShutdown { handle: h })
                && after.handles@ == taken,
            None => next is Done && fails_with(action, "bridge not running"@) && after.handles@
                == before.handles@,
        },
        OperationType::Delete => match before.handle_of(id) {
            Some(h) => next is ShuttingDown && action == (Action::SendShutdown { handle: h })
                && after.handles@ == taken,
            None => next is Deleting && action == (Action::<H>::DeleteBridge { bridge_id: id })
                && after.handles@ == before.handles@,
        },
        OperationType::FactoryReset => after.handles@ == before.handles@ && if before.has_handle(
            id,
        ) {
            next is Resetting && action == (Action::<H>::SendFactoryReset { bridge_id: id })
        } else {
            next is Done && fails_with(action, "bridge not running"@)
        },
        _ => next is LoadingBridge && action == (Action::<H>::LoadBridge { bridge_id: id })
            && after.handles@ == before.handles@,
    }
}

/// What follows the reading of the bridge: with the bridge, the entities are asked
/// for; without it the operation fails.
pub open spec fn loaded_step<H>(
    loaded: Result<Option<BridgeConfig>, String>,
    next: Phase,
    action: Action<H>,
) -> bool {
    match loaded {
        Ok(Some(bridge)) => next == (Phase::FetchingDescriptors { bridge }) && action
            is FetchDescriptors,
        Ok(None) => next is Done && fails_with(action, "bridge not found"@),
        Err(e) => next is Done && action == Action::<H>::Finish(Err(e)),
    }
}

/// What follows the entities: the devices of the bridge are built from them and handed
/// to the store, and a copy is kept for the steps after.
pub open spec fn descriptors_step<H>(
    bridge: BridgeConfig,
    fetched: Result<Vec<EntityDescriptor>, String>,
    next: Phase,
    action: Action<H>,
) -> bool {
    match fetched {
        Ok(descs) => {
            &&& action matches Action::StoreDevices { bridge_id, devices }
            &&& bridge_id == bridge.id
            &&& device_views(devices@) == bridge_devices(bridge.filter, descs@)
            &&& next matches Phase::StoringDevices { bridge: kept_bridge, devices: kept }
            &&& kept_bridge == bridge
            &&& device_views(kept@) == bridge_devices(bridge.filter, descs@)
        },
        Err(e) => next is Done && action == Action::<H>::Finish(Err(e)),
    }
}

/// What follows the storing of the devices: Create and Update are done, Start starts
/// the runtime, Refresh tells a running runtime its new devices and is done without one.
pub open spec fn stored_step<H>(
    before: Dispatcher<H>,
    op: BridgeOperation,
    bridge: BridgeConfig,
    devices: Vec<BridgeDevice>,
    stored: Result<(), String>,
    next: Phase,
    action: Action<H>,
) -> bool {
    match stored {
        Err(e) => next is Done && action == Action::<H>::Finish(Err(e)),
        Ok(_) => match op.op_type {
            OperationType::Start => next is Starting && action == (Action::<H>::StartRuntime {
                bridge,
                devices,
            }),
            OperationType::Refresh => if before.has_handle(op.bridge_id) {
                next is Refreshing && action == (Action::<H>::SendUpdateDevices {
                    bridge_id: op.bridge_id,
                    devices,
                })
            } else {
                next is Done && action == Action::<H>::Finish(Ok(()))
            },
            _ => next is Done && action == Action::<H>::Finish(Ok(())),
        },
    }
}

/// Whether the phase waits for the last answer of the operation.
pub open spec fn is_last_phase(op_type: OperationType, phase: Phase) -> bool {
    ||| phase is Refreshing && op_type is Refresh
    ||| phase is Stopping && op_type is Stop
    ||| phase is Resetting && op_type is FactoryReset
    ||| phase is Deleting && op_type is Delete
}

/// What one step does, for each phase and the event that answers it. A phase that does
/// not belong to the operation, or an event that does not answer the phase, ends the
/// operation with an error.
pub open spec fn step_relation<H>(
    before: Dispatcher<H>,
    after: Dispatcher<H>,
    op: BridgeOperation,
    phase: Phase,
    event: Event<H>,
    next: Phase,
    action: Action<H>,
) -> bool {
    let same = after.handles@ == before.handles@;
    let unexpected = same && next is Done && fails_with(action, "unexpected event"@);
    match (phase, event) {
        (Phase::Begin, _) => begin_step(before, after, op, next, action),
        (Phase::LoadingBridge, Event::BridgeLoaded(loaded)) => if builds_devices(op.op_type) {
            same && loaded_step(loaded, next, action)
        } else {
            unexpected
        },
        (Phase::FetchingDescriptors { bridge }, Event::Descriptors(fetched)) => if builds_devices(
            op.op_type,
        ) {
            same && descriptors_step(bridge, fetched, next, action)
        } else {
            unexpected
        },
        (Phase::StoringDevices { bridge, devices }, Event::Done(stored)) => if builds_devices(
            op.op_type,
        ) {
            same && stored_step(before, op, bridge, devices, stored, next, action)
        } else {
            unexpected
        },
        (Phase::Starting, Event::Started(started)) => if op.op_type is Start {
            match started {
                Ok(handle) => after.handles@ == without_key(
                    before.handles@,
                    handle_key::<H>(),
                    op.bridge_id,
                ).push(RunningBridge { bridge_id: op.bridge_id, handle }) && next is Done
                    && action == Action::<H>::Finish(Ok(())),
                Err(e) => same && next is Done && action == Action::<H>::Finish(Err(e)),
            }
        } else {
            unexpected
        },
        (Phase::ShuttingDown, Event::Done(_)) => if op.op_type is Delete {
            same && next is Deleting && action == (Action::<H>::DeleteBridge {
                bridge_id: op.bridge_id,
            })
        } else {
            unexpected
        },
        (last, Event::Done(result)) => if is_last_phase(op.op_type, last) {
            same && next is Done && action == Action::<H>::Finish(result)
        } else {
            unexpected
        },
        _ => unexpected,
    }
}

/// The action that ends an operation with an error of the given message.
fn fail<H>(message: &str) -> (r: (Phase, Action<H>))
    ensures
        r.0 is Done,
        fails_with(r.1, message@),
{
    (Phase::Done, Action::Finish(Err(message.to_owned())))
}

impl<H> Dispatcher<H> {
    /// The first step of an operation.
    fn begin(&mut self, op: &BridgeOperation) -> (r: (Phase, Action<H>))
        ensures
            begin_step(*old(self), *final(self), *op, r.0, r.1),
            old(self).wf() ==> final(self).wf(),
            final(self).fits(*op, r.0),
            !ends_well(r.1),
    {
        let id = op.bridge_id;
        match op.op_type {
            OperationType::Stop => match self.take_handle(id) {
                Some(handle) => (Phase::Stopping, Action::SendShutdown { handle }),
                None => {
                    assert(self.handles@ =~= old(self).handles@) by {
                        lemma_without_absent(old(self).handles@, id);
                    }
                    fail("bridge not running")
                },
            },
            OperationType::Delete => match self.take_handle(id) {
                Some(handle) => (Phase::ShuttingDown, Action::SendShutdown { handle }),
                None => {
                    assert(self.handles@ =~= old(self).handles@) by {
                        lemma_without_absent(old(self).handles@, id);
                    }
                    (Phase::Deleting, Action::DeleteBridge { bridge_id: id })
                },
            },
            OperationType::FactoryReset => {
                if self.handle(id).is_some() {
                    (Phase::Resetting, Action::SendFactoryReset { bridge_id: id })
                } else {
                    fail("bridge not running")
                }
            },
            _ => (Phase::LoadingBridge, Action::LoadBridge { bridge_id: id }),
        }
    }

    /// Decides what to do next for the operation `op`, which stands at `phase` and
    /// whose last action brought back `event`.
    ///
    /// A Start that ends well leaves the bridge with a handle. A Stop or a Delete that
    /// ends well leaves it without one, as long as the phases are those that the steps
    /// before handed out.
    pub fn step(&mut self, op: &BridgeOperation, phase: Phase, event: Event<H>) -> (r: (
        Phase,
        Action<H>,
    ))
        ensures
            step_relation(*old(self), *final(self), *op, phase, event, r.0, r.1),
            old(self).wf() ==> final(self).wf(),
            old(self).fits(*op, phase) ==> final(self).fits(*op, r.0),
            op.op_type is Start && ends_well(r.1) ==> final(self).has_handle(op.bridge_id),
            (op.op_type is Stop || op.op_type is Delete) && old(self).fits(*op, phase) && ends_well(
                r.1,
            ) ==> !final(self).has_handle(op.bridge_id),
            r.1 is Finish <==> r.0 is Done,
    {
        let builds = match op.op_type {
            OperationType::Create
            | OperationType::Update
            | OperationType::Start
            | OperationType::Refresh => true,
            _ => false,
        };
        match (phase, event) {
            (Phase::Begin, _) => self.begin(op),
            (Phase::LoadingBridge, Event::BridgeLoaded(loaded)) => {
                if !builds {
                    return fail("unexpected event");
                }
                match loaded {
                    Ok(Some(bridge)) => (
                        Phase::FetchingDescriptors { bridge },
                        Action::FetchDescriptors,
                    ),
                    Ok(None) => fail("bridge not found"),
                    Err(e) => (Phase::Done, Action::Finish(Err(e))),
                }
            },
            (Phase::FetchingDescriptors { bridge }, Event::Descriptors(fetched)) => {
                if !builds {
                    return fail("unexpected event");
                }
                match fetched {
                    Ok(descs) => {
                        let devices = build_bridge_devices(&bridge.filter, &descs);
                        let copy = clone_devices(&devices);
                        let bridge_id = bridge.id;
                        (
                            Phase::StoringDevices { bridge, devices },
                            Action::StoreDevices { bridge_id, devices: copy },
                        )
                    },
                    Err(e) => (Phase::Done, Action::Finish(Err(e))),
                }
            },
            (Phase::StoringDevices { bridge, devices }, Event::Done(stored)) => {
                if !builds {
                    return fail("unexpected event");
                }
                match stored {
                    Err(e) => (Phase::Done, Action::Finish(Err(e))),
                    Ok(_) => match op.op_type {
                        OperationType::Start => (
                            Phase::Starting,
                            Action::StartRuntime { bridge, devices },
                        ),
                        OperationType::Refresh => {
                            if self.handle(op.bridge_id).is_some() {
                                (
                                    Phase::Refreshing,
                                    Action::SendUpdateDevices { bridge_id: op.bridge_id, devices },
                                )
                            } else {
                                (Phase::Done, Action::Finish(Ok(())))
                            }
                        },
                        _ => (Phase::Done, Action::Finish(Ok(()))),
                    },
                }
            },
            (Phase::Starting, Event::Started(started)) => {
                match op.op_type {
                    OperationType::Start => match started {
                        Ok(handle) => {
                            self.insert_handle(op.bridge_id, handle);
                            (Phase::Done, Action::Finish(Ok(())))
                        },
                        Err(e) => (Phase::Done, Action::Finish(Err(e))),
                    },
                    _ => fail("unexpected event"),
                }
            },
            (Phase::ShuttingDown, Event::Done(_)) => {
                match op.op_type {
                    OperationType::Delete => (
                        Phase::Deleting,
                        Action::DeleteBridge { bridge_id: op.bridge_id },
                    ),
                    _ => fail("unexpected event"),
                }
            },
            (last, Event::Done(result)) => {
                let fitting = match (&last, op.op_type) {
                    (Phase::Refreshing, OperationType::Refresh) => true,
                    (Phase::Stopping, OperationType::Stop) => true,
                    (Phase::Resetting, OperationType::FactoryReset) => true,
                    (Phase::Deleting, OperationType::Delete) => true,
                    _ => false,
                };
                if fitting {
                    (Phase::Done, Action::Finish(result))
                } else {
                    fail("unexpected event")
                }
            },
            _ => fail("unexpected event"),
        }
    }
}

/// Taking out a bridge that has no handle changes nothing.
proof fn lemma_without_absent<H>(handles: Seq<RunningBridge<H>>, bridge_id: u128)
    requires
        first_with_key(handles, handle_key::<H>(), bridge_id) is None,
    ensures
        without_key(handles, handle_key::<H>(), bridge_id) =~= handles,
    decreases handles.len(),
{
    let pred = other_key(handle_key::<H>(), bridge_id);
    if handles.len() == 0 {
        reveal(Seq::filter);
    } else {
        let head = seq![handles[0]];
        let rest = handles.drop_first();
        assert(handles =~= head + rest);
        Seq::filter_distributes_over_add(head, rest, pred);
        assert(head.filter(pred) =~= head) by {
            reveal(Seq::filter);
            assert(head.drop_last() =~= Seq::<RunningBridge<H>>::empty());
            assert(head.drop_last().filter(pred) =~= Seq::<RunningBridge<H>>::empty());
        }
        lemma_without_absent(rest, bridge_id);
    }
}

} // verus!
