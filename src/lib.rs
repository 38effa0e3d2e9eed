//! A tamper-evident registry of pharmaceutical batches: deterministic record
//! addressing, field validation at creation, an owner-only status state
//! machine with an automatic expiry transition, and an append-only audit log.

pub mod address;
pub mod error;
pub mod state;
pub mod events;
pub mod validation;
pub mod registry;
pub mod register_batch;
pub mod update_batch_status;
pub mod check_and_update_expiry;
pub mod verify_batch;
pub mod verify_batch_by_pda;
pub mod register_manufacturer;
pub mod guarantees;

use vstd::prelude::*;
use crate::address::{batch_address, Identity};
use crate::check_and_update_expiry::expiry_outcome;
use crate::error::ErrorCode;
use crate::register_batch::{register_outcome, Advisory};
use crate::registry::Registry;
use crate::state::{BatchStatus, DosageForm, PhysicalCondition, StorageCondition};
use crate::update_batch_status::update_outcome;
use crate::validation::BatchInput;
use crate::verify_batch::verify_outcome;

verus! {

/// Who registers a batch (the signer, who becomes its owner) and when.
#[derive(Clone, Copy, Debug)]
pub struct RegisterBatch {
    pub manufacturer: Identity,
    pub unix_timestamp: i64,
}

/// The owner whose address space holds the batch, who signs the update, and when.
#[derive(Clone, Copy, Debug)]
pub struct UpdateBatchStatus {
    pub manufacturer: Identity,
    pub signer: Identity,
    pub unix_timestamp: i64,
}

/// The owner whose address space holds the batch, and the time of the check.
#[derive(Clone, Copy, Debug)]
pub struct CheckAndUpdateExpiry {
    pub manufacturer: Identity,
    pub unix_timestamp: i64,
}

/// The owner whose address space holds the batch to verify, and when.
#[derive(Clone, Copy, Debug)]
pub struct VerifyBatch {
    pub manufacturer: Identity,
    pub unix_timestamp: i64,
}

/// The address of the batch to verify, and when.
#[derive(Clone, Debug)]
pub struct VerifyBatchByPda {
    pub batch: Vec<u8>,
    pub unix_timestamp: i64,
}

/// The manufacturer entering the registry, and when.
#[derive(Clone, Copy, Debug)]
pub struct RegisterManufacturer {
    pub manufacturer: Identity,
    pub unix_timestamp: i64,
}

/// A request that carries nothing.
#[derive(Clone, Copy, Debug)]
pub struct Hello {}

/// A liveness probe: always succeeds and changes nothing.
pub fn hello(_ctx: &Hello) -> (r: Result<(), ErrorCode>)
    ensures
        r == Ok::<(), ErrorCode>(()),
{
    Ok(())
}

/// Registers a batch; see `register_batch::handler`.
pub fn register_batch(
    registry: &mut Registry,
    ctx: &RegisterBatch,
    brand_name: String,
    generic_name: String,
    batch_id: String,
    manufacturing_date: i64,
    expiry_date: i64,
    mrp: u64,
    quantity_received: u32,
    dosage_form: DosageForm,
    strength: String,
    composition: String,
    manufacturer_name: String,
    manufacturer_license: String,
    manufacturer_address: String,
    storage_condition: StorageCondition,
    physical_condition: PhysicalCondition,
    invoice_number: String,
    invoice_date: i64,
    gst_number: String,
) -> (r: Result<Advisory, ErrorCode>)
    requires
        old(registry).wf(),
    ensures
        final(registry).wf(),
        register_outcome(
            *old(registry),
            *final(registry),
            ctx.manufacturer,
            (BatchInput {
                brand_name,
                generic_name,
                batch_id,
                manufacturing_date,
                expiry_date,
                mrp,
                quantity_received,
                dosage_form,
                strength,
                composition,
                manufacturer_name,
                manufacturer_license,
                manufacturer_address,
                storage_condition,
                physical_condition,
                invoice_number,
                invoice_date,
                gst_number,
            }),
            ctx.unix_timestamp,
            r,
        ),
{
    register_batch::handler(
        registry,
        ctx,
        brand_name,
        generic_name,
        batch_id,
        manufacturing_date,
        expiry_date,
        mrp,
        quantity_received,
        dosage_form,
        strength,
        composition,
        manufacturer_name,
        manufacturer_license,
        manufacturer_address,
        storage_condition,
        physical_condition,
        invoice_number,
        invoice_date,
        gst_number,
    )
}

/// Moves a batch to another status; see `update_batch_status::handler`.
pub fn update_batch_status(
    registry: &mut Registry,
    ctx: &UpdateBatchStatus,
    batch_id: String,
    new_status: BatchStatus,
) -> (r: Result<(), ErrorCode>)
    requires
        old(registry).wf(),
    ensures
        final(registry).wf(),
        update_outcome(
            *old(registry),
            *final(registry),
            ctx.manufacturer,
            ctx.signer,
            batch_id@,
            new_status,
            ctx.unix_timestamp,
            r,
        ),
{
    update_batch_status::handler(registry, ctx, batch_id, new_status)
}

/// Reports a batch by owner and identifier; see `verify_batch::handler`.
pub fn verify_batch(registry: &mut Registry, ctx: &VerifyBatch, batch_id: String) -> (r: Result<
    (),
    ErrorCode,
>)
    requires
        old(registry).wf(),
    ensures
        final(registry).wf(),
        verify_outcome(
            *old(registry),
            *final(registry),
            batch_address(ctx.manufacturer@, batch_id@),
            ctx.unix_timestamp,
            r,
        ),
{
    verify_batch::handler(registry, ctx, batch_id)
}

/// Reports a batch by address; see `verify_batch_by_pda::handler`.
pub fn verify_batch_by_pda(registry: &mut Registry, ctx: &VerifyBatchByPda) -> (r: Result<
    (),
    ErrorCode,
>)
    requires
        old(registry).wf(),
    ensures
        final(registry).wf(),
        verify_outcome(*old(registry), *final(registry), ctx.batch@, ctx.unix_timestamp, r),
{
    verify_batch_by_pda::handler(registry, ctx)
}

/// Runs the expiry check on a batch; see `check_and_update_expiry::handler`.
pub fn check_and_update_expiry(
    registry: &mut Registry,
    ctx: &CheckAndUpdateExpiry,
    batch_id: String,
) -> (r: Result<(), ErrorCode>)
    requires
        old(registry).wf(),
    ensures
        final(registry).wf(),
        expiry_outcome(*old(registry), *final(registry), ctx.manufacturer, batch_id@, ctx.unix_timestamp, r),
{
    check_and_update_expiry::handler(registry, ctx, batch_id)
}

} // verus!
