//! The operation queue: how an operation enters the log and how its record changes
//! while it runs.

use vstd::prelude::*;

use crate::models::{BridgeOperation, OperationStatus, OperationType};
use crate::storage::{FileStorage, StorageState};

verus! {

/// The operation that is queued for a bridge at the instant `now`.
pub open spec fn queued_operation(
    operation_id: u128,
    bridge_id: u128,
    op_type: OperationType,
    now: i128,
) -> BridgeOperation {
    BridgeOperation {
        operation_id,
        bridge_id,
        op_type,
        status: OperationStatus::Queued,
        queued_at: now,
        started_at: None,
        finished_at: None,
        error: None,
    }
}

/// Whether the instants of an operation follow each other: it was queued before it
/// started and started before it finished, as far as these are set.
pub open spec fn instants_ordered(op: BridgeOperation) -> bool {
    &&& op.started_at is Some ==> op.queued_at <= op.started_at->0
    &&& op.finished_at is Some ==> op.queued_at <= op.finished_at->0
    &&& op.started_at is Some && op.finished_at is Some ==> op.started_at->0 <= op.finished_at->0
}

/// A new operation, queued at the instant `now`.
pub fn new_operation(operation_id: u128, bridge_id: u128, op_type: OperationType, now: i128) -> (op:
    BridgeOperation)
    ensures
        op == queued_operation(operation_id, bridge_id, op_type, now),
        instants_ordered(op),
{
    BridgeOperation {
        operation_id,
        bridge_id,
        op_type,
        status: OperationStatus::Queued,
        queued_at: now,
        started_at: None,
        finished_at: None,
        error: None,
    }
}

/// The record of an operation that starts to run at the instant `now`.
pub fn mark_running(op: BridgeOperation, now: i128) -> (r: BridgeOperation)
    ensures
        r == (BridgeOperation {
            status: OperationStatus::Running,
            started_at: Some(now),
            ..op
        }),
        instants_ordered(op) && op.finished_at is None && op.queued_at <= now ==> instants_ordered(
            r,
        ),
{
    let mut r = op;
    r.status = OperationStatus::Running;
    r.started_at = Some(now);
    r
}

/// The record of an operation that ends at the instant `now`: completed where it
/// succeeded, failed with the message of the error where it did not.
pub fn finish_operation(op: BridgeOperation, now: i128, result: Result<(), String>) -> (r:
    BridgeOperation)
    ensures
        result is Ok ==> r == (BridgeOperation {
            status: OperationStatus::Completed,
            finished_at: Some(now),
            ..op
        }),
        result is Err ==> r == (BridgeOperation {
            status: OperationStatus::Failed,
            finished_at: Some(now),
            error: Some(result->Err_0),
            ..op
        }),
        instants_ordered(op) && op.queued_at <= now && (op.started_at is Some ==> op.started_at->0
            <= now) ==> instants_ordered(r),
{
    let mut r = op;
    r.finished_at = Some(now);
    match result {
        Ok(_) => {
            r.status = OperationStatus::Completed;
        },
        Err(message) => {
            r.status = OperationStatus::Failed;
            r.error = Some(message);
        },
    }
    r
}

/// The queue of operations of one store.
#[derive(Debug, Clone)]
pub struct OperationQueue {
    pub storage: FileStorage,
}

impl OperationQueue {
    pub fn new(storage: FileStorage) -> (r: Self)
        ensures
            r.storage == storage,
    {
        OperationQueue { storage }
    }

    /// Queues an operation against a bridge: the operation with the given fresh
    /// identifier goes to the head of the log, queued at the instant `now`, and is
    /// handed back.
    pub fn enqueue(
        &self,
        state: &mut StorageState,
        operation_id: u128,
        bridge_id: u128,
        op_type: OperationType,
        now: i128,
    ) -> (op: BridgeOperation)
        ensures
            op == queued_operation(operation_id, bridge_id, op_type, now),
            final(state).operations@ == seq![op] + old(state).operations@,
            final(state).bridges == old(state).bridges,
            final(state).devices == old(state).devices,
            final(state).runtime == old(state).runtime,
    {
        state.add_operation(new_operation(operation_id, bridge_id, op_type, now));
        new_operation(operation_id, bridge_id, op_type, now)
    }
}

} // verus!
