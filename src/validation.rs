//! Field rules checked before a batch is created.
use vstd::prelude::*;
use vstd::string::StringSliceAdditionalSpecFns;
use vstd::utf8::encode_utf8;
use crate::error::ErrorCode;
use crate::state::{Batch, DosageForm, PhysicalCondition, StorageCondition};

verus! {

pub const MAX_BRAND_NAME_LEN: usize = 100;
pub const MAX_GENERIC_NAME_LEN: usize = 100;
pub const MAX_BATCH_ID_LEN: usize = 50;
pub const MAX_STRENGTH_LEN: usize = 50;
pub const MAX_COMPOSITION_LEN: usize = 100;
pub const MAX_MANUFACTURER_NAME_LEN: usize = 100;
pub const MAX_MANUFACTURER_LICENSE_LEN: usize = 50;
pub const MAX_MANUFACTURER_ADDRESS_LEN: usize = 200;
pub const MAX_INVOICE_NUMBER_LEN: usize = 50;
pub const MAX_GST_NUMBER_LEN: usize = 20;
pub const SECONDS_PER_DAY: i64 = 86400;
/// A batch expiring within this many whole days is flagged as near expiry.
pub const NEAR_EXPIRY_DAYS: i64 = 30;

/// What a manufacturer submits to create a batch.
#[derive(Clone, Debug)]
pub struct BatchInput {
    pub brand_name: String,
    pub generic_name: String,
    pub batch_id: String,
    pub manufacturing_date: i64,
    pub expiry_date: i64,
    pub mrp: u64,
    pub quantity_received: u32,
    pub dosage_form: DosageForm,
    pub strength: String,
    pub composition: String,
    pub manufacturer_name: String,
    pub manufacturer_license: String,
    pub manufacturer_address: String,
    pub storage_condition: StorageCondition,
    pub physical_condition: PhysicalCondition,
    pub invoice_number: String,
    pub invoice_date: i64,
    pub gst_number: String,
}

/// Length in bytes of the UTF-8 encoding of `s`.
pub open spec fn byte_len(s: Seq<char>) -> usize {
    encode_utf8(s).len() as usize
}

/// The first rule that `i` breaks when submitted at time `now`, if any. The rules
/// are tried in this order and the first failure is the one reported.
pub open spec fn input_error(i: BatchInput, now: i64) -> Option<ErrorCode> {
    if i.brand_name@.len() == 0 {
        Some(ErrorCode::EmptyBrandName)
    } else if i.generic_name@.len() == 0 {
        Some(ErrorCode::EmptyGenericName)
    } else if byte_len(i.brand_name@) > MAX_BRAND_NAME_LEN {
        Some(ErrorCode::BrandNameTooLong)
    } else if byte_len(i.generic_name@) > MAX_GENERIC_NAME_LEN {
        Some(ErrorCode::GenericNameTooLong)
    } else if i.batch_id@.len() == 0 {
        Some(ErrorCode::EmptyBatchId)
    } else if byte_len(i.batch_id@) > MAX_BATCH_ID_LEN {
        Some(ErrorCode::BatchIdTooLong)
    } else if i.expiry_date <= i.manufacturing_date {
        Some(ErrorCode::InvalidDateRange)
    } else if i.expiry_date <= now {
        Some(ErrorCode::ExpiredMedicine)
    } else if i.mrp == 0 {
        Some(ErrorCode::InvalidMrp)
    } else if i.quantity_received == 0 {
        Some(ErrorCode::InvalidQuantity)
    } else if i.strength@.len() == 0 {
        Some(ErrorCode::EmptyStrength)
    } else if i.composition@.len() == 0 {
        Some(ErrorCode::EmptyComposition)
    } else if byte_len(i.strength@) > MAX_STRENGTH_LEN {
        Some(ErrorCode::StrengthTooLong)
    } else if byte_len(i.composition@) > MAX_COMPOSITION_LEN {
        Some(ErrorCode::CompositionTooLong)
    } else if i.manufacturer_name@.len() == 0 {
        Some(ErrorCode::EmptyManufacturerName)
    } else if i.manufacturer_license@.len() == 0 {
        Some(ErrorCode::EmptyManufacturerLicense)
    } else if i.manufacturer_address@.len() == 0 {
        Some(ErrorCode::EmptyManufacturerAddress)
    } else if byte_len(i.manufacturer_name@) > MAX_MANUFACTURER_NAME_LEN {
        Some(ErrorCode::ManufacturerNameTooLong)
    } else if byte_len(i.manufacturer_license@) > MAX_MANUFACTURER_LICENSE_LEN {
        Some(ErrorCode::ManufacturerLicenseTooLong)
    } else if byte_len(i.manufacturer_address@) > MAX_MANUFACTURER_ADDRESS_LEN {
        Some(ErrorCode::ManufacturerAddressTooLong)
    } else if i.physical_condition != PhysicalCondition::Good {
        Some(ErrorCode::InvalidPhysicalCondition)
    } else if i.invoice_number@.len() == 0 {
        Some(ErrorCode::EmptyInvoiceNumber)
    } else if i.gst_number@.len() == 0 {
        Some(ErrorCode::EmptyGstNumber)
    } else if byte_len(i.invoice_number@) > MAX_INVOICE_NUMBER_LEN {
        Some(ErrorCode::InvoiceNumberTooLong)
    } else if byte_len(i.gst_number@) > MAX_GST_NUMBER_LEN {
        Some(ErrorCode::GstNumberTooLong)
    } else if i.invoice_date > now {
        Some(ErrorCode::InvalidDateRange)
    } else {
        None
    }
}

/// The field rules that do not depend on the time of creation, as they hold
/// of every stored batch: required text present and within its bound, dates
/// ordered, price and quantity positive, physical condition good.
pub open spec fn stored_fields_ok(b: Batch) -> bool {
    &&& 0 < b.brand_name@.len() && byte_len(b.brand_name@) <= MAX_BRAND_NAME_LEN
    &&& 0 < b.generic_name@.len() && byte_len(b.generic_name@) <= MAX_GENERIC_NAME_LEN
    &&& 0 < b.batch_id@.len() && byte_len(b.batch_id@) <= MAX_BATCH_ID_LEN
    &&& b.expiry_date > b.manufacturing_date
    &&& b.mrp > 0
    &&& b.quantity_received > 0
    &&& 0 < b.strength@.len() && byte_len(b.strength@) <= MAX_STRENGTH_LEN
    &&& 0 < b.composition@.len() && byte_len(b.composition@) <= MAX_COMPOSITION_LEN
    &&& 0 < b.manufacturer_name@.len() && byte_len(b.manufacturer_name@) <= MAX_MANUFACTURER_NAME_LEN
    &&& 0 < b.manufacturer_license@.len() && byte_len(b.manufacturer_license@)
        <= MAX_MANUFACTURER_LICENSE_LEN
    &&& 0 < b.manufacturer_address@.len() && byte_len(b.manufacturer_address@)
        <= MAX_MANUFACTURER_ADDRESS_LEN
    &&& b.physical_condition == PhysicalCondition::Good
    &&& 0 < b.invoice_number@.len() && byte_len(b.invoice_number@) <= MAX_INVOICE_NUMBER_LEN
    &&& 0 < b.gst_number@.len() && byte_len(b.gst_number@) <= MAX_GST_NUMBER_LEN
}

/// `Ok(())` when there is no error, `Err(e)` for the error `e`.
pub open spec fn as_result(e: Option<ErrorCode>) -> Result<(), ErrorCode> {
    match e {
        Some(e) => Err(e),
        None => Ok(()),
    }
}

fn is_empty(s: &String) -> (r: bool)
    ensures
        r == (s@.len() == 0),
{
    s.as_str().is_empty()
}

fn longer_than(s: &String, max: usize) -> (r: bool)
    ensures
        r == (byte_len(s@) > max),
{
    s.as_str().len() > max
}

/// Checks every field rule in order and reports the first one broken.
pub fn validate_batch_input(input: &BatchInput, now: i64) -> (r: Result<(), ErrorCode>)
    ensures
        r == as_result(input_error(*input, now)),
{
    if is_empty(&input.brand_name) {
        return Err(ErrorCode::EmptyBrandName);
    }
    if is_empty(&input.generic_name) {
        return Err(ErrorCode::EmptyGenericName);
    }
    if longer_than(&input.brand_name, MAX_BRAND_NAME_LEN) {
        return Err(ErrorCode::BrandNameTooLong);
    }
    if longer_than(&input.generic_name, MAX_GENERIC_NAME_LEN) {
        return Err(ErrorCode::GenericNameTooLong);
    }
    if is_empty(&input.batch_id) {
        return Err(ErrorCode::EmptyBatchId);
    }
    if longer_than(&input.batch_id, MAX_BATCH_ID_LEN) {
        return Err(ErrorCode::BatchIdTooLong);
    }
    if input.expiry_date <= input.manufacturing_date {
        return Err(ErrorCode::InvalidDateRange);
    }
    if input.expiry_date <= now {
        return Err(ErrorCode::ExpiredMedicine);
    }
    if input.mrp == 0 {
        return Err(ErrorCode::InvalidMrp);
    }
    if input.quantity_received == 0 {
        return Err(ErrorCode::InvalidQuantity);
    }
    if is_empty(&input.strength) {
        return Err(ErrorCode::EmptyStrength);
    }
    if is_empty(&input.composition) {
        return Err(ErrorCode::EmptyComposition);
    }
    if longer_than(&input.strength, MAX_STRENGTH_LEN) {
        return Err(ErrorCode::StrengthTooLong);
    }
    if longer_than(&input.composition, MAX_COMPOSITION_LEN) {
        return Err(ErrorCode::CompositionTooLong);
    }
    if is_empty(&input.manufacturer_name) {
        return Err(ErrorCode::EmptyManufacturerName);
    }
    if is_empty(&input.manufacturer_license) {
        return Err(ErrorCode::EmptyManufacturerLicense);
    }
    if is_empty(&input.manufacturer_address) {
        return Err(ErrorCode::EmptyManufacturerAddress);
    }
    if longer_than(&input.manufacturer_name, MAX_MANUFACTURER_NAME_LEN) {
        return Err(ErrorCode::ManufacturerNameTooLong);
    }
    if longer_than(&input.manufacturer_license, MAX_MANUFACTURER_LICENSE_LEN) {
        return Err(ErrorCode::ManufacturerLicenseTooLong);
    }
    if longer_than(&input.manufacturer_address, MAX_MANUFACTURER_ADDRESS_LEN) {
        return Err(ErrorCode::ManufacturerAddressTooLong);
    }
    if input.physical_condition != PhysicalCondition::Good {
        return Err(ErrorCode::InvalidPhysicalCondition);
    }
    if is_empty(&input.invoice_number) {
        return Err(ErrorCode::EmptyInvoiceNumber);
    }
    if is_empty(&input.gst_number) {
        return Err(ErrorCode::EmptyGstNumber);
    }
    if longer_than(&input.invoice_number, MAX_INVOICE_NUMBER_LEN) {
        return Err(ErrorCode::InvoiceNumberTooLong);
    }
    if longer_than(&input.gst_number, MAX_GST_NUMBER_LEN) {
        return Err(ErrorCode::GstNumberTooLong);
    }
    if input.invoice_date > now {
        return Err(ErrorCode::InvalidDateRange);
    }
    Ok(())
}

/// The whole days in `seconds`, rounded toward zero (negative when the
/// time lies in the past).
pub open spec fn whole_days(seconds: int) -> int {
    if seconds >= 0 {
        seconds / (SECONDS_PER_DAY as int)
    } else {
        -((-seconds) / (SECONDS_PER_DAY as int))
    }
}

/// Whole days from `now` until `expiry_date`, rounded toward zero.
pub fn days_until_expiry(expiry_date: i64, now: i64) -> (r: i64)
    ensures
        r == whole_days(expiry_date - now),
{
    let diff: i128 = expiry_date as i128 - now as i128;
    if diff >= 0 {
        let days: i128 = diff / (SECONDS_PER_DAY as i128);
        assert(days <= diff) by (nonlinear_arith)
            requires
                days == diff / 86400,
                diff >= 0,
        ;
        days as i64
    } else {
        let magnitude: i128 = -diff;
        let days: i128 = magnitude / (SECONDS_PER_DAY as i128);
        assert(0 <= days <= magnitude / 2) by (nonlinear_arith)
            requires
                days == magnitude / 86400,
                magnitude > 0,
        ;
        (-days) as i64
    }
}

/// Whether a batch expiring at `expiry_date` is within the near-expiry window
/// at `now` (an advisory only: such a batch is still accepted).
pub fn is_near_expiry(expiry_date: i64, now: i64) -> (r: bool)
    ensures
        r == (whole_days(expiry_date - now) <= NEAR_EXPIRY_DAYS),
{
    days_until_expiry(expiry_date, now) <= NEAR_EXPIRY_DAYS
}

} // verus!
