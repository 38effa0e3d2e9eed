//! Creating a batch record.
use vstd::prelude::*;
use crate::address::{batch_address, derive_batch_address, Identity};
use crate::error::ErrorCode;
use crate::events::{BatchRegistered, Event};
use crate::registry::{BatchAccount, Registry};
use crate::state::{Batch, BatchStatus, DosageForm, PhysicalCondition, StorageCondition};
use crate::RegisterBatch;
use crate::validation::{
    days_until_expiry, input_error, validate_batch_input, whole_days, BatchInput,
    NEAR_EXPIRY_DAYS,
};

verus! {

/// A notice that goes with an accepted registration and does not affect it.
#[derive(Clone, Copy, Debug, PartialEq, Eq, Structural)]
pub enum Advisory {
    Clear,
    /// The batch expires within the near-expiry window.
    NearExpiry { days_until_expiry: i64 },
}

/// The advisory for a batch expiring at `expiry_date`, registered at `now`.
pub open spec fn advisory_for(expiry_date: i64, now: i64) -> Advisory {
    let days = whole_days(expiry_date - now);
    if days <= NEAR_EXPIRY_DAYS {
        Advisory::NearExpiry { days_until_expiry: days as i64 }
    } else {
        Advisory::Clear
    }
}

/// Why `owner` may not create a batch from `input` at `now`, if anything:
/// a broken field rule first, then a missing verified manufacturer entry (when
/// the registry is gated), then an address already in use.
pub open spec fn register_error(
    registry: Registry,
    owner: Seq<u8>,
    input: BatchInput,
    now: i64,
) -> Option<ErrorCode> {
    if input_error(input, now) is Some {
        input_error(input, now)
    } else if registry.manufacturer_gate && !registry.is_verified(owner) {
        Some(ErrorCode::ManufacturerNotVerified)
    } else if registry.has_batch(batch_address(owner, input.batch_id@)) {
        Some(ErrorCode::BatchAlreadyExists)
    } else {
        None
    }
}

/// The record created from `input` for `owner` at `now`.
pub open spec fn new_batch(input: BatchInput, owner: Identity, now: i64) -> Batch {
    Batch {
        brand_name: input.brand_name,
        generic_name: input.generic_name,
        batch_id: input.batch_id,
        manufacturing_date: input.manufacturing_date,
        expiry_date: input.expiry_date,
        mrp: input.mrp,
        quantity_received: input.quantity_received,
        dosage_form: input.dosage_form,
        strength: input.strength,
        composition: input.composition,
        manufacturer: owner,
        manufacturer_name: input.manufacturer_name,
        manufacturer_license: input.manufacturer_license,
        manufacturer_address: input.manufacturer_address,
        storage_condition: input.storage_condition,
        physical_condition: input.physical_condition,
        invoice_number: input.invoice_number,
        invoice_date: input.invoice_date,
        gst_number: input.gst_number,
        status: BatchStatus::Active,
        created_at: now,
        updated_at: now,
    }
}

/// Whether `e` announces the creation of `b` at `address` at time `now`.
pub open spec fn is_registered_event(e: Event, b: Batch, address: Seq<u8>, now: i64) -> bool {
    match e {
        Event::Registered(r) => {
            &&& r.batch_id == b.batch_id
            &&& r.brand_name == b.brand_name
            &&& r.generic_name == b.generic_name
            &&& r.manufacturer == b.manufacturer
            &&& r.batch_pda@ == address
            &&& r.manufacturing_date == b.manufacturing_date
            &&& r.expiry_date == b.expiry_date
            &&& r.mrp == b.mrp
            &&& r.quantity_received == b.quantity_received
            &&& r.dosage_form == b.dosage_form
            &&& r.strength == b.strength
            &&& r.composition == b.composition
            &&& r.timestamp == now
        },
        _ => false,
    }
}

/// What a successful registration leaves behind: `post` is `pre` with one more
/// batch, `new_batch(input, owner, now)`, at the owner's address for the
/// identifier, every earlier batch where it was, and one more event
/// announcing it.
pub open spec fn registered(
    pre: Registry,
    post: Registry,
    owner: Identity,
    input: BatchInput,
    now: i64,
) -> bool {
    let address = batch_address(owner@, input.batch_id@);
    let b = new_batch(input, owner, now);
    &&& post.manufacturer_gate == pre.manufacturer_gate
    &&& post.manufacturers == pre.manufacturers
    &&& post.batches@.len() == pre.batches@.len() + 1
    &&& post.batches@.drop_last() == pre.batches@
    &&& post.batches@.last().address@ == address
    &&& post.batches@.last().batch == b
    &&& post.has_batch(address)
    &&& post.batch_at(address) == b
    &&& forall|a: Seq<u8>| #[trigger] post.has_batch(a) <==> (pre.has_batch(a) || a == address)
    &&& forall|a: Seq<u8>| pre.has_batch(a) ==> #[trigger] post.batch_at(a) == pre.batch_at(a)
    &&& post.events@.len() == pre.events@.len() + 1
    &&& post.events@.drop_last() == pre.events@
    &&& is_registered_event(post.events@.last(), b, address, now)
}

/// The result `r` and the state `post` of a registration attempted on `pre`:
/// either the error that `register_error` gives and nothing changed, or the
/// advisory for the expiry date and the new batch in place.
pub open spec fn register_outcome(
    pre: Registry,
    post: Registry,
    owner: Identity,
    input: BatchInput,
    now: i64,
    r: Result<Advisory, ErrorCode>,
) -> bool {
    match register_error(pre, owner@, input, now) {
        Some(e) => r == Err::<Advisory, ErrorCode>(e) && post == pre,
        None => r == Ok::<Advisory, ErrorCode>(advisory_for(input.expiry_date, now))
            && registered(pre, post, owner, input, now),
    }
}

/// Creates the batch that `owner` describes in `input`, at time `now`.
/// Fails, changing nothing, with the error `register_error` gives.
pub fn register(registry: &mut Registry, owner: &Identity, input: BatchInput, now: i64) -> (r: Result<
    Advisory,
    ErrorCode,
>)
    requires
        old(registry).wf(),
    ensures
        final(registry).wf(),
        register_outcome(*old(registry), *final(registry), *owner, input, now, r),
{
    match validate_batch_input(&input, now) {
        Err(e) => {
            return Err(e);
        },
        Ok(()) => {},
    }
    if registry.manufacturer_gate && !registry.manufacturer_verified(owner) {
        return Err(ErrorCode::ManufacturerNotVerified);
    }
    let address = derive_batch_address(owner, &input.batch_id);
    if registry.find_batch(address.as_slice()).is_some() {
        return Err(ErrorCode::BatchAlreadyExists);
    }
    let days = days_until_expiry(input.expiry_date, now);
    let advisory = if days <= NEAR_EXPIRY_DAYS {
        Advisory::NearExpiry { days_until_expiry: days }
    } else {
        Advisory::Clear
    };
    let event = BatchRegistered {
        batch_id: input.batch_id.clone(),
        brand_name: input.brand_name.clone(),
        generic_name: input.generic_name.clone(),
        manufacturer: *owner,
        batch_pda: derive_batch_address(owner, &input.batch_id),
        manufacturing_date: input.manufacturing_date,
        expiry_date: input.expiry_date,
        mrp: input.mrp,
        quantity_received: input.quantity_received,
        dosage_form: input.dosage_form,
        strength: input.strength.clone(),
        composition: input.composition.clone(),
        timestamp: now,
    };
    let batch = Batch {
        brand_name: input.brand_name,
        generic_name: input.generic_name,
        batch_id: input.batch_id,
        manufacturing_date: input.manufacturing_date,
        expiry_date: input.expiry_date,
        mrp: input.mrp,
        quantity_received: input.quantity_received,
        dosage_form: input.dosage_form,
        strength: input.strength,
        composition: input.composition,
        manufacturer: *owner,
        manufacturer_name: input.manufacturer_name,
        manufacturer_license: input.manufacturer_license,
        manufacturer_address: input.manufacturer_address,
        storage_condition: input.storage_condition,
        physical_condition: input.physical_condition,
        invoice_number: input.invoice_number,
        invoice_date: input.invoice_date,
        gst_number: input.gst_number,
        status: BatchStatus::Active,
        created_at: now,
        updated_at: now,
    };
    let ghost pre = *registry;
    registry.batches.push(BatchAccount { address, batch });
    registry.events.push(Event::Registered(event));
    proof {
        let n = pre.batches@.len() as int;
        assert(registry.batches@.drop_last() =~= pre.batches@);
        assert(registry.events@.drop_last() =~= pre.events@);
        assert forall|i: int, j: int|
            0 <= i < registry.batches@.len() && 0 <= j < registry.batches@.len() && i != j
                implies #[trigger] registry.batches@[i].address@
            != #[trigger] registry.batches@[j].address@ by {
            if i == n {
                assert(pre.batches@[j].address@ == registry.batches@[j].address@);
            } else if j == n {
                assert(pre.batches@[i].address@ == registry.batches@[i].address@);
            } else {
                assert(pre.batches@[i] == registry.batches@[i]);
                assert(pre.batches@[j] == registry.batches@[j]);
            }
        }
        assert(registry.wf());
        registry.lemma_index_of_address(n);
        assert forall|a: Seq<u8>| pre.has_batch(a) implies registry.has_batch(a)
            && registry.batch_at(a) == pre.batch_at(a) by {
            let j = pre.batch_index(a);
            assert(registry.batches@[j] == pre.batches@[j]);
            registry.lemma_index_of_address(j);
        }
        assert forall|a: Seq<u8>| registry.has_batch(a) implies pre.has_batch(a)
            || a == batch_address(owner@, input.batch_id@) by {
            let j = registry.batch_index(a);
            if j < n {
                assert(registry.batches@[j] == pre.batches@[j]);
            }
        }
    }
    Ok(advisory)
}

/// Registers a batch for the signing manufacturer at the time given by `ctx`.
pub fn handler(
    registry: &mut Registry,
    ctx: &RegisterBatch,
    brand_name: String,
    generic_name: String,
    batch_id: String,
    manufacturing_date: i64,
    expiry_date: i64,
    mrp: u64,
    quantity_received: u32,
    dosage_form: DosageForm,
    strength: String,
    composition: String,
    manufacturer_name: String,
    manufacturer_license: String,
    manufacturer_address: String,
    storage_condition: StorageCondition,
    physical_condition: PhysicalCondition,
    invoice_number: String,
    invoice_date: i64,
    gst_number: String,
) -> (r: Result<Advisory, ErrorCode>)
    requires
        old(registry).wf(),
    ensures
        final(registry).wf(),
        register_outcome(
            *old(registry),
            *final(registry),
            ctx.manufacturer,
            (BatchInput {
                brand_name,
                generic_name,
                batch_id,
                manufacturing_date,
                expiry_date,
                mrp,
                quantity_received,
                dosage_form,
                strength,
                composition,
                manufacturer_name,
                manufacturer_license,
                manufacturer_address,
                storage_condition,
                physical_condition,
                invoice_number,
                invoice_date,
                gst_number,
            }),
            ctx.unix_timestamp,
            r,
        ),
{
    let input = BatchInput {
        brand_name,
        generic_name,
        batch_id,
        manufacturing_date,
        expiry_date,
        mrp,
        quantity_received,
        dosage_form,
        strength,
        composition,
        manufacturer_name,
        manufacturer_license,
        manufacturer_address,
        storage_condition,
        physical_condition,
        invoice_number,
        invoice_date,
        gst_number,
    };
    register(registry, &ctx.manufacturer, input, ctx.unix_timestamp)
}

} // verus!
