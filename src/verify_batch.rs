//! Read-only verification of a batch.
use vstd::prelude::*;
use crate::address::{append_bytes, batch_address, derive_batch_address};
use crate::error::ErrorCode;
use crate::events::{BatchVerified, Event};
use crate::registry::Registry;
use crate::state::Batch;
use crate::VerifyBatch;

verus! {

/// Whether `e` reports batch `b`, stored at `address`, as seen at `now`.
pub open spec fn is_verified_event(e: Event, b: Batch, address: Seq<u8>, now: i64) -> bool {
    match e {
        Event::Verified(v) => {
            &&& v.batch_id == b.batch_id
            &&& v.batch_pda@ == address
            &&& v.brand_name == b.brand_name
            &&& v.generic_name == b.generic_name
            &&& v.manufacturer == b.manufacturer
            &&& v.status == b.status
            &&& v.is_expired == b.spec_is_expired(now)
            &&& v.is_valid == b.spec_is_valid(now)
            &&& v.verified_at == now
        },
        _ => false,
    }
}

/// The result `r` and state `post` of verifying the batch at `address` on
/// `pre`: `BatchNotFound` with nothing changed, or the batches untouched and one
/// event reporting the batch and its predicates at `now`.
pub open spec fn verify_outcome(
    pre: Registry,
    post: Registry,
    address: Seq<u8>,
    now: i64,
    r: Result<(), ErrorCode>,
) -> bool {
    if !pre.has_batch(address) {
        r == Err::<(), ErrorCode>(ErrorCode::BatchNotFound) && post == pre
    } else {
        &&& r == Ok::<(), ErrorCode>(())
        &&& post.manufacturer_gate == pre.manufacturer_gate
        &&& post.manufacturers == pre.manufacturers
        &&& post.batches == pre.batches
        &&& post.events@.len() == pre.events@.len() + 1
        &&& post.events@.drop_last() == pre.events@
        &&& is_verified_event(post.events@.last(), pre.batch_at(address), address, now)
    }
}

/// Reports the batch stored at `address` as seen at `now`.
pub fn verify_at(registry: &mut Registry, address: &[u8], now: i64) -> (r: Result<(), ErrorCode>)
    requires
        old(registry).wf(),
    ensures
        final(registry).wf(),
        verify_outcome(*old(registry), *final(registry), address@, now, r),
{
    let i = match registry.find_batch(address) {
        Some(i) => i,
        None => {
            return Err(ErrorCode::BatchNotFound);
        },
    };
    let mut batch_pda: Vec<u8> = Vec::new();
    append_bytes(&mut batch_pda, address);
    assert(batch_pda@ =~= address@);
    let batch = &registry.batches[i].batch;
    let event = BatchVerified {
        batch_id: batch.batch_id.clone(),
        batch_pda,
        brand_name: batch.brand_name.clone(),
        generic_name: batch.generic_name.clone(),
        manufacturer: batch.manufacturer,
        status: batch.status,
        is_expired: batch.is_expired(now),
        is_valid: batch.is_valid(now),
        verified_at: now,
    };
    let ghost pre = *registry;
    registry.events.push(Event::Verified(event));
    proof {
        assert(registry.events@.drop_last() =~= pre.events@);
    }
    Ok(())
}

/// Reports the batch that `ctx.manufacturer` registered as `batch_id`.
pub fn handler(registry: &mut Registry, ctx: &VerifyBatch, batch_id: String) -> (r: Result<
    (),
    ErrorCode,
>)
    requires
        old(registry).wf(),
    ensures
        final(registry).wf(),
        verify_outcome(
            *old(registry),
            *final(registry),
            batch_address(ctx.manufacturer@, batch_id@),
            ctx.unix_timestamp,
            r,
        ),
{
    let address = derive_batch_address(&ctx.manufacturer, &batch_id);
    verify_at(registry, address.as_slice(), ctx.unix_timestamp)
}

} // verus!
