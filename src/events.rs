//! Audit events, appended once per accepted operation.
use vstd::prelude::*;
use crate::address::Identity;
use crate::state::{BatchStatus, DosageForm};

verus! {

/// A batch was created.
#[derive(Clone, Debug)]
pub struct BatchRegistered {
    pub batch_id: String,
    pub brand_name: String,
    pub generic_name: String,
    pub manufacturer: Identity,
    pub batch_pda: Vec<u8>,
    pub manufacturing_date: i64,
    pub expiry_date: i64,
    pub mrp: u64,
    pub quantity_received: u32,
    pub dosage_form: DosageForm,
    pub strength: String,
    pub composition: String,
    pub timestamp: i64,
}

/// The owner moved a batch to another status.
#[derive(Clone, Debug)]
pub struct BatchStatusUpdated {
    pub batch_id: String,
    pub batch_pda: Vec<u8>,
    pub old_status: BatchStatus,
    pub new_status: BatchStatus,
    pub updated_by: Identity,
    pub timestamp: i64,
}

/// A batch was looked up and its derived predicates reported.
#[derive(Clone, Debug)]
pub struct BatchVerified {
    pub batch_id: String,
    pub batch_pda: Vec<u8>,
    pub brand_name: String,
    pub generic_name: String,
    pub manufacturer: Identity,
    pub status: BatchStatus,
    pub is_expired: bool,
    pub is_valid: bool,
    pub verified_at: i64,
}

/// An active batch passed its expiry date and was marked expired.
#[derive(Clone, Debug)]
pub struct BatchExpired {
    pub batch_id: String,
    pub batch_pda: Vec<u8>,
    pub expired_at: i64,
}

/// One entry of the audit log.
#[derive(Clone, Debug)]
pub enum Event {
    Registered(BatchRegistered),
    StatusUpdated(BatchStatusUpdated),
    Verified(BatchVerified),
    Expired(BatchExpired),
}

} // verus!
