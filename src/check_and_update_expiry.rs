//! The automatic transition of an active batch to expired.
use vstd::prelude::*;
use crate::address::{batch_address, derive_batch_address, Identity};
use crate::error::ErrorCode;
use crate::events::{BatchExpired, Event};
use crate::registry::{with_status, Registry};
use crate::state::BatchStatus;
use crate::CheckAndUpdateExpiry;

verus! {

/// Whether the batch at `address` is due to expire at `now`: it is active and
/// past its expiry date.
pub open spec fn expiry_due(registry: Registry, address: Seq<u8>, now: i64) -> bool {
    &&& registry.batch_at(address).status == BatchStatus::Active
    &&& registry.batch_at(address).spec_is_expired(now)
}

/// Whether `e` announces that the batch `batch_id` at `address` expired at `now`.
pub open spec fn is_expired_event(e: Event, batch_id: Seq<char>, address: Seq<u8>, now: i64) -> bool {
    match e {
        Event::Expired(x) => x.batch_id@ == batch_id && x.batch_pda@ == address && x.expired_at == now,
        _ => false,
    }
}

/// The result `r` and state `post` of an expiry check on `pre` for the batch
/// that `owner` registered as `batch_id`: `BatchNotFound` with nothing changed
/// when there is no such batch; otherwise `Ok`, and when the batch was due the
/// batch is now expired, stamped with `now`, with one event announcing it, and
/// when it was not due nothing changed.
pub open spec fn expiry_outcome(
    pre: Registry,
    post: Registry,
    owner: Identity,
    batch_id: Seq<char>,
    now: i64,
    r: Result<(), ErrorCode>,
) -> bool {
    let address = batch_address(owner@, batch_id);
    if !pre.has_batch(address) {
        r == Err::<(), ErrorCode>(ErrorCode::BatchNotFound) && post == pre
    } else if expiry_due(pre, address, now) {
        let i = pre.batch_index(address);
        &&& r == Ok::<(), ErrorCode>(())
        &&& post.manufacturer_gate == pre.manufacturer_gate
        &&& post.manufacturers == pre.manufacturers
        &&& post.batches@ == pre.batches@.update(
            i,
            with_status(pre.batches@[i], BatchStatus::Expired, now),
        )
        &&& post.has_batch(address)
        &&& post.batch_at(address).status == BatchStatus::Expired
        &&& post.batch_at(address).updated_at == now
        &&& post.events@.len() == pre.events@.len() + 1
        &&& post.events@.drop_last() == pre.events@
        &&& is_expired_event(post.events@.last(), batch_id, address, now)
    } else {
        r == Ok::<(), ErrorCode>(()) && post == pre
    }
}

/// Marks the batch that `ctx.manufacturer` registered as `batch_id` expired
/// when it is active and past its expiry date at `ctx.unix_timestamp`. Anyone
/// may call this; calling it again changes nothing.
pub fn handler(registry: &mut Registry, ctx: &CheckAndUpdateExpiry, batch_id: String) -> (r: Result<
    (),
    ErrorCode,
>)
    requires
        old(registry).wf(),
    ensures
        final(registry).wf(),
        expiry_outcome(
            *old(registry),
            *final(registry),
            ctx.manufacturer,
            batch_id@,
            ctx.unix_timestamp,
            r,
        ),
{
    let now = ctx.unix_timestamp;
    let address = derive_batch_address(&ctx.manufacturer, &batch_id);
    let i = match registry.find_batch(address.as_slice()) {
        Some(i) => i,
        None => {
            return Err(ErrorCode::BatchNotFound);
        },
    };
    if registry.batches[i].batch.status == BatchStatus::Active && registry.batches[i].batch.is_expired(
        now,
    ) {
        let ghost pre = *registry;
        registry.set_status(i, BatchStatus::Expired, now);
        let event = BatchExpired { batch_id, batch_pda: address, expired_at: now };
        registry.events.push(Event::Expired(event));
        proof {
            assert(registry.events@.drop_last() =~= pre.events@);
        }
    }
    Ok(())
}

} // verus!
