//! Batch records and their derived predicates.
use vstd::prelude::*;
use crate::address::Identity;
use crate::error::ErrorCode;

verus! {

/// Lifecycle status of a batch.
#[derive(Clone, Copy, Debug, PartialEq, Eq, Structural)]
pub enum BatchStatus {
    Active,
    Suspended,
    Recalled,
    Expired,
}

#[derive(Clone, Copy, Debug, PartialEq, Eq, Structural)]
pub enum DosageForm {
    Tablet,
    Capsule,
    Syrup,
    Injection,
    Ointment,
}

#[derive(Clone, Copy, Debug, PartialEq, Eq, Structural)]
pub enum StorageCondition {
    Normal,
    CoolPlace,
    /// Kept between 2 and 8 degrees Celsius.
    Refrigerated,
}

#[derive(Clone, Copy, Debug, PartialEq, Eq, Structural)]
pub enum PhysicalCondition {
    Good,
    BrokenStrips,
    LeakingBottles,
    FadedLabels,
    TornPackaging,
}

/// One registered batch. Only `status` and `updated_at` ever change after creation.
#[derive(Clone, Debug)]
pub struct Batch {
    pub brand_name: String,
    pub generic_name: String,
    pub batch_id: String,
    pub manufacturing_date: i64,
    pub expiry_date: i64,
    /// Maximum retail price, in the smallest currency unit.
    pub mrp: u64,
    pub quantity_received: u32,
    pub dosage_form: DosageForm,
    pub strength: String,
    pub composition: String,
    /// The owner: the only identity allowed to change this record.
    pub manufacturer: Identity,
    pub manufacturer_name: String,
    pub manufacturer_license: String,
    pub manufacturer_address: String,
    pub storage_condition: StorageCondition,
    pub physical_condition: PhysicalCondition,
    pub invoice_number: String,
    pub invoice_date: i64,
    pub gst_number: String,
    pub status: BatchStatus,
    pub created_at: i64,
    pub updated_at: i64,
}

impl Batch {
    pub open spec fn spec_is_expired(&self, now: i64) -> bool {
        now > self.expiry_date
    }

    pub open spec fn spec_is_valid(&self, now: i64) -> bool {
        &&& self.status != BatchStatus::Recalled
        &&& !self.spec_is_expired(now)
        &&& self.physical_condition == PhysicalCondition::Good
    }

    /// Whether the batch is past its expiry date at `current_timestamp`.
    pub fn is_expired(&self, current_timestamp: i64) -> (r: bool)
        ensures
            r == self.spec_is_expired(current_timestamp),
    {
        current_timestamp > self.expiry_date
    }

    /// Whether the batch may be dispensed at `current_timestamp`: not recalled, not
    /// expired, and in good physical condition.
    pub fn is_valid(&self, current_timestamp: i64) -> (r: bool)
        ensures
            r == self.spec_is_valid(current_timestamp),
    {
        self.status != BatchStatus::Recalled && !self.is_expired(current_timestamp)
            && self.physical_condition == PhysicalCondition::Good
    }
}

/// Whether the owner may move a batch from `from` to `to` by an explicit
/// update: between Active and Suspended, and from either to Recalled.
pub open spec fn is_legal_transition(from: BatchStatus, to: BatchStatus) -> bool {
    ||| from == BatchStatus::Active && (to == BatchStatus::Suspended || to == BatchStatus::Recalled)
    ||| from == BatchStatus::Suspended && (to == BatchStatus::Active || to == BatchStatus::Recalled)
}

/// Why an explicit update from `from` to `to` is refused, if it is: a recalled
/// batch never changes again; any other move outside the table is invalid.
pub open spec fn transition_error(from: BatchStatus, to: BatchStatus) -> Option<ErrorCode> {
    if from == BatchStatus::Recalled {
        Some(ErrorCode::BatchAlreadyRecalled)
    } else if is_legal_transition(from, to) {
        None
    } else {
        Some(ErrorCode::InvalidBatchStatus)
    }
}

/// Checks an explicit status update against the transition table.
pub fn check_transition(from: BatchStatus, to: BatchStatus) -> (r: Result<(), ErrorCode>)
    ensures
        r == match transition_error(from, to) {
            Some(e) => Err::<(), ErrorCode>(e),
            None => Ok(()),
        },
{
    match (from, to) {
        (BatchStatus::Recalled, _) => Err(ErrorCode::BatchAlreadyRecalled),
        (BatchStatus::Active, BatchStatus::Suspended)
        | (BatchStatus::Active, BatchStatus::Recalled)
        | (BatchStatus::Suspended, BatchStatus::Active)
        | (BatchStatus::Suspended, BatchStatus::Recalled) => Ok(()),
        _ => Err(ErrorCode::InvalidBatchStatus),
    }
}

} // verus!
