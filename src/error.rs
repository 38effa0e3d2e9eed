//! The registry's error kinds.
use vstd::prelude::*;

verus! {

/// Why an operation was rejected. A rejected operation changes nothing.
#[derive(Clone, Copy, Debug, PartialEq, Eq, Structural)]
pub enum ErrorCode {
    EmptyBatchId,
    EmptyBrandName,
    EmptyGenericName,
    InvalidDateRange,
    ExpiredMedicine,
    NearExpiryMedicine,
    UnauthorizedManufacturer,
    BatchNotFound,
    BatchIdTooLong,
    BrandNameTooLong,
    GenericNameTooLong,
    StrengthTooLong,
    CompositionTooLong,
    ManufacturerNameTooLong,
    ManufacturerLicenseTooLong,
    ManufacturerAddressTooLong,
    InvoiceNumberTooLong,
    GstNumberTooLong,
    InvalidBatchStatus,
    InvalidMrp,
    InvalidQuantity,
    EmptyStrength,
    EmptyComposition,
    EmptyManufacturerName,
    EmptyManufacturerLicense,
    EmptyManufacturerAddress,
    EmptyInvoiceNumber,
    EmptyGstNumber,
    InvalidPhysicalCondition,
    ManufacturerNotVerified,
    ManufacturerAlreadyRegistered,
    BatchAlreadyRecalled,
    BatchAlreadyExists,
}

impl ErrorCode {
    /// The human-readable message reported with this error.
    pub fn message(&self) -> &'static str {
        match self {
            ErrorCode::EmptyBatchId => "Batch ID cannot be empty",
            ErrorCode::EmptyBrandName => "Brand name cannot be empty",
            ErrorCode::EmptyGenericName => "Generic name cannot be empty",
            ErrorCode::InvalidDateRange => "Expiry date must be after manufacturing date",
            ErrorCode::ExpiredMedicine => "Expired medicine cannot be registered",
            ErrorCode::NearExpiryMedicine => "Near-expiry medicine detected",
            ErrorCode::UnauthorizedManufacturer => "Only the manufacturer can perform this action",
            ErrorCode::BatchNotFound => "Batch not found",
            ErrorCode::BatchIdTooLong => "Batch ID exceeds maximum length",
            ErrorCode::BrandNameTooLong => "Brand name exceeds maximum length",
            ErrorCode::GenericNameTooLong => "Generic name exceeds maximum length",
            ErrorCode::StrengthTooLong => "Strength exceeds maximum length",
            ErrorCode::CompositionTooLong => "Composition exceeds maximum length",
            ErrorCode::ManufacturerNameTooLong => "Manufacturer name exceeds maximum length",
            ErrorCode::ManufacturerLicenseTooLong => "Manufacturer license exceeds maximum length",
            ErrorCode::ManufacturerAddressTooLong => "Manufacturer address exceeds maximum length",
            ErrorCode::InvoiceNumberTooLong => "Invoice number exceeds maximum length",
            ErrorCode::GstNumberTooLong => "GST number exceeds maximum length",
            ErrorCode::InvalidBatchStatus => "Invalid batch status",
            ErrorCode::InvalidMrp => "MRP cannot be zero",
            ErrorCode::InvalidQuantity => "Quantity received cannot be zero",
            ErrorCode::EmptyStrength => "Strength cannot be empty",
            ErrorCode::EmptyComposition => "Composition cannot be empty",
            ErrorCode::EmptyManufacturerName => "Manufacturer name cannot be empty",
            ErrorCode::EmptyManufacturerLicense => "Manufacturer license cannot be empty",
            ErrorCode::EmptyManufacturerAddress => "Manufacturer address cannot be empty",
            ErrorCode::EmptyInvoiceNumber => "Invoice number cannot be empty",
            ErrorCode::EmptyGstNumber => "GST number cannot be empty",
            ErrorCode::InvalidPhysicalCondition => "Invalid physical condition - medicine must be in good condition",
            ErrorCode::ManufacturerNotVerified => "Manufacturer is not verified in the registry",
            ErrorCode::ManufacturerAlreadyRegistered => "Manufacturer is already registered",
            ErrorCode::BatchAlreadyRecalled => "Batch has been recalled and can no longer change status",
            ErrorCode::BatchAlreadyExists => "A batch with this ID is already registered by this manufacturer",
        }
    }
}

} // verus!
