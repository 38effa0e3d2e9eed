//! The owner's explicit status changes.
use vstd::prelude::*;
use crate::address::{batch_address, derive_batch_address, Identity};
use crate::error::ErrorCode;
use crate::events::{BatchStatusUpdated, Event};
use crate::registry::{with_status, Registry};
use crate::state::{check_transition, transition_error, BatchStatus};
use crate::UpdateBatchStatus;

verus! {

/// Why `signer` may not move the batch that `owner` registered as `batch_id`
/// to `new_status`, if anything: no such batch, then a signer other than the
/// batch's owner, then a move outside the transition table.
pub open spec fn update_error(
    registry: Registry,
    owner: Seq<u8>,
    signer: Seq<u8>,
    batch_id: Seq<char>,
    new_status: BatchStatus,
) -> Option<ErrorCode> {
    let address = batch_address(owner, batch_id);
    if !registry.has_batch(address) {
        Some(ErrorCode::BatchNotFound)
    } else if registry.batch_at(address).manufacturer@ != signer {
        Some(ErrorCode::UnauthorizedManufacturer)
    } else {
        transition_error(registry.batch_at(address).status, new_status)
    }
}

/// Whether `e` records the move of the batch at `address` from `old_status`
/// to `new_status` by `signer` at `now`.
pub open spec fn is_status_event(
    e: Event,
    batch_id: Seq<char>,
    address: Seq<u8>,
    old_status: BatchStatus,
    new_status: BatchStatus,
    signer: Identity,
    now: i64,
) -> bool {
    match e {
        Event::StatusUpdated(u) => {
            &&& u.batch_id@ == batch_id
            &&& u.batch_pda@ == address
            &&& u.old_status == old_status
            &&& u.new_status == new_status
            &&& u.updated_by == signer
            &&& u.timestamp == now
        },
        _ => false,
    }
}

/// The result `r` and state `post` of an update attempted on `pre`: the error
/// that `update_error` gives with nothing changed, or the batch moved to
/// `new_status` and stamped with `now`, and one event recording the move.
pub open spec fn update_outcome(
    pre: Registry,
    post: Registry,
    owner: Identity,
    signer: Identity,
    batch_id: Seq<char>,
    new_status: BatchStatus,
    now: i64,
    r: Result<(), ErrorCode>,
) -> bool {
    let address = batch_address(owner@, batch_id);
    match update_error(pre, owner@, signer@, batch_id, new_status) {
        Some(e) => r == Err::<(), ErrorCode>(e) && post == pre,
        None => {
            let i = pre.batch_index(address);
            &&& r == Ok::<(), ErrorCode>(())
            &&& post.manufacturer_gate == pre.manufacturer_gate
            &&& post.manufacturers == pre.manufacturers
            &&& post.batches@ == pre.batches@.update(i, with_status(pre.batches@[i], new_status, now))
            &&& post.has_batch(address)
            &&& post.batch_at(address).status == new_status
            &&& post.batch_at(address).updated_at == now
            &&& post.events@.len() == pre.events@.len() + 1
            &&& post.events@.drop_last() == pre.events@
            &&& is_status_event(
                post.events@.last(),
                batch_id,
                address,
                pre.batch_at(address).status,
                new_status,
                signer,
                now,
            )
        },
    }
}

/// Moves the batch that `ctx.manufacturer` registered as `batch_id` to
/// `new_status`, on behalf of `ctx.signer`.
pub fn handler(registry: &mut Registry, ctx: &UpdateBatchStatus, batch_id: String, new_status: BatchStatus) -> (r:
    Result<(), ErrorCode>)
    requires
        old(registry).wf(),
    ensures
        final(registry).wf(),
        update_outcome(
            *old(registry),
            *final(registry),
            ctx.manufacturer,
            ctx.signer,
            batch_id@,
            new_status,
            ctx.unix_timestamp,
            r,
        ),
{
    let address = derive_batch_address(&ctx.manufacturer, &batch_id);
    let i = match registry.find_batch(address.as_slice()) {
        Some(i) => i,
        None => {
            return Err(ErrorCode::BatchNotFound);
        },
    };
    if !registry.batches[i].batch.manufacturer.same_as(&ctx.signer) {
        return Err(ErrorCode::UnauthorizedManufacturer);
    }
    let old_status = registry.batches[i].batch.status;
    match check_transition(old_status, new_status) {
        Err(e) => {
            return Err(e);
        },
        Ok(()) => {},
    }
    let ghost pre = *registry;
    registry.set_status(i, new_status, ctx.unix_timestamp);
    let event = BatchStatusUpdated {
        batch_id,
        batch_pda: address,
        old_status,
        new_status,
        updated_by: ctx.signer,
        timestamp: ctx.unix_timestamp,
    };
    registry.events.push(Event::StatusUpdated(event));
    proof {
        assert(registry.events@.drop_last() =~= pre.events@);
    }
    Ok(())
}

} // verus!
