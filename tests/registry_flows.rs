use batch_registry::address::{derive_batch_address, derive_manufacturer_address, Identity};
use batch_registry::error::ErrorCode;
use batch_registry::events::Event;
use batch_registry::register_batch::Advisory;
use batch_registry::registry::Registry;
use batch_registry::state::{BatchStatus, DosageForm, PhysicalCondition, StorageCondition};
use batch_registry::validation::{days_until_expiry, is_near_expiry};
use batch_registry::{
    check_and_update_expiry, hello, register_batch, register_manufacturer, update_batch_status,
    verify_batch, verify_batch_by_pda, CheckAndUpdateExpiry, Hello, RegisterBatch,
    RegisterManufacturer, UpdateBatchStatus, VerifyBatch, VerifyBatchByPda,
};

const T0: i64 = 1_700_000_000;
const DAY: i64 = 86_400;

fn alice() -> Identity {
    Identity::new([1u8; 32])
}

fn bob() -> Identity {
    Identity::new([2u8; 32])
}

struct Fields {
    brand_name: String,
    generic_name: String,
    batch_id: String,
    manufacturing_date: i64,
    expiry_date: i64,
    mrp: u64,
    quantity_received: u32,
    strength: String,
    composition: String,
    manufacturer_name: String,
    manufacturer_license: String,
    manufacturer_address: String,
    physical_condition: PhysicalCondition,
    invoice_number: String,
    invoice_date: i64,
    gst_number: String,
}

fn good_fields(batch_id: &str) -> Fields {
    Fields {
        brand_name: "Calpol".to_string(),
        generic_name: "Paracetamol".to_string(),
        batch_id: batch_id.to_string(),
        manufacturing_date: T0 - 10 * DAY,
        expiry_date: T0 + 365 * DAY,
        mrp: 2500,
        quantity_received: 100,
        strength: "500 mg".to_string(),
        composition: "Paracetamol 500mg".to_string(),
        manufacturer_name: "Acme Pharma".to_string(),
        manufacturer_license: "LIC-123".to_string(),
        manufacturer_address: "1 Main Road".to_string(),
        physical_condition: PhysicalCondition::Good,
        invoice_number: "INV-1".to_string(),
        invoice_date: T0 - DAY,
        gst_number: "GST-1".to_string(),
    }
}

fn register(
    registry: &mut Registry,
    who: Identity,
    now: i64,
    f: Fields,
) -> Result<Advisory, ErrorCode> {
    let ctx = RegisterBatch { manufacturer: who, unix_timestamp: now };
    register_batch(
        registry,
        &ctx,
        f.brand_name,
        f.generic_name,
        f.batch_id,
        f.manufacturing_date,
        f.expiry_date,
        f.mrp,
        f.quantity_received,
        DosageForm::Tablet,
        f.strength,
        f.composition,
        f.manufacturer_name,
        f.manufacturer_license,
        f.manufacturer_address,
        StorageCondition::Normal,
        f.physical_condition,
        f.invoice_number,
        f.invoice_date,
        f.gst_number,
    )
}

fn status_of(registry: &Registry, owner: Identity, batch_id: &str) -> BatchStatus {
    let address = derive_batch_address(&owner, &batch_id.to_string());
    registry.get_batch(&address).expect("batch exists").status
}

fn update(
    registry: &mut Registry,
    owner: Identity,
    signer: Identity,
    now: i64,
    batch_id: &str,
    status: BatchStatus,
) -> Result<(), ErrorCode> {
    let ctx = UpdateBatchStatus { manufacturer: owner, signer, unix_timestamp: now };
    update_batch_status(registry, &ctx, batch_id.to_string(), status)
}

fn expiry_check(registry: &mut Registry, owner: Identity, now: i64, batch_id: &str) -> Result<(), ErrorCode> {
    let ctx = CheckAndUpdateExpiry { manufacturer: owner, unix_timestamp: now };
    check_and_update_expiry(registry, &ctx, batch_id.to_string())
}

#[test]
fn expiry_scenario_active_then_expired_once() {
    let mut registry = Registry::new(false);
    let mut f = good_fields("B-1");
    f.manufacturing_date = T0;
    f.expiry_date = T0 + 1000;
    f.invoice_date = T0;
    assert!(register(&mut registry, alice(), T0, f).is_ok());
    assert_eq!(status_of(&registry, alice(), "B-1"), BatchStatus::Active);
    let events_before = registry.events.len();

    assert_eq!(expiry_check(&mut registry, alice(), T0 + 1001, "B-1"), Ok(()));
    assert_eq!(status_of(&registry, alice(), "B-1"), BatchStatus::Expired);
    assert_eq!(registry.events.len(), events_before + 1);
    match registry.events.last().unwrap() {
        Event::Expired(e) => {
            assert_eq!(e.batch_id, "B-1");
            assert_eq!(e.expired_at, T0 + 1001);
        }
        other => panic!("unexpected event {:?}", other),
    }

    assert_eq!(expiry_check(&mut registry, alice(), T0 + 1001, "B-1"), Ok(()));
    assert_eq!(status_of(&registry, alice(), "B-1"), BatchStatus::Expired);
    assert_eq!(registry.events.len(), events_before + 1);
}

#[test]
fn expiry_check_before_expiry_changes_nothing() {
    let mut registry = Registry::new(false);
    let mut f = good_fields("B-1");
    f.manufacturing_date = T0;
    f.expiry_date = T0 + 1000;
    f.invoice_date = T0;
    assert!(register(&mut registry, alice(), T0, f).is_ok());
    let events_before = registry.events.len();
    assert_eq!(expiry_check(&mut registry, alice(), T0 + 1000, "B-1"), Ok(()));
    assert_eq!(status_of(&registry, alice(), "B-1"), BatchStatus::Active);
    assert_eq!(registry.events.len(), events_before);
}

#[test]
fn expiry_check_on_unknown_batch_fails() {
    let mut registry = Registry::new(false);
    assert_eq!(expiry_check(&mut registry, alice(), T0, "missing"), Err(ErrorCode::BatchNotFound));
}

#[test]
fn empty_batch_id_is_rejected_without_record_or_event() {
    let mut registry = Registry::new(false);
    let r = register(&mut registry, alice(), T0, good_fields(""));
    assert_eq!(r, Err(ErrorCode::EmptyBatchId));
    assert_eq!(registry.batches.len(), 0);
    assert_eq!(registry.events.len(), 0);
}

#[test]
fn non_owner_cannot_update_status() {
    let mut registry = Registry::new(false);
    assert!(register(&mut registry, alice(), T0, good_fields("B-1")).is_ok());
    let events_before = registry.events.len();
    let r = update(&mut registry, alice(), bob(), T0 + 5, "B-1", BatchStatus::Recalled);
    assert_eq!(r, Err(ErrorCode::UnauthorizedManufacturer));
    assert_eq!(status_of(&registry, alice(), "B-1"), BatchStatus::Active);
    assert_eq!(registry.events.len(), events_before);
}

#[test]
fn owner_updates_status_and_event_is_recorded() {
    let mut registry = Registry::new(false);
    assert!(register(&mut registry, alice(), T0, good_fields("B-1")).is_ok());
    assert_eq!(update(&mut registry, alice(), alice(), T0 + 5, "B-1", BatchStatus::Suspended), Ok(()));
    assert_eq!(status_of(&registry, alice(), "B-1"), BatchStatus::Suspended);
    match registry.events.last().unwrap() {
        Event::StatusUpdated(e) => {
            assert_eq!(e.old_status, BatchStatus::Active);
            assert_eq!(e.new_status, BatchStatus::Suspended);
            assert_eq!(e.updated_by.bytes, [1u8; 32]);
            assert_eq!(e.timestamp, T0 + 5);
        }
        other => panic!("unexpected event {:?}", other),
    }
    let address = derive_batch_address(&alice(), &"B-1".to_string());
    assert_eq!(registry.get_batch(&address).unwrap().updated_at, T0 + 5);
    assert_eq!(update(&mut registry, alice(), alice(), T0 + 6, "B-1", BatchStatus::Active), Ok(()));
    assert_eq!(status_of(&registry, alice(), "B-1"), BatchStatus::Active);
}

#[test]
fn recalled_batch_never_changes_again() {
    let mut registry = Registry::new(false);
    assert!(register(&mut registry, alice(), T0, good_fields("B-1")).is_ok());
    assert_eq!(update(&mut registry, alice(), alice(), T0 + 1, "B-1", BatchStatus::Recalled), Ok(()));
    for s in [BatchStatus::Active, BatchStatus::Suspended, BatchStatus::Recalled, BatchStatus::Expired] {
        let r = update(&mut registry, alice(), alice(), T0 + 2, "B-1", s);
        assert_eq!(r, Err(ErrorCode::BatchAlreadyRecalled));
        assert_eq!(status_of(&registry, alice(), "B-1"), BatchStatus::Recalled);
    }
    assert_eq!(expiry_check(&mut registry, alice(), T0 + 400 * DAY, "B-1"), Ok(()));
    assert_eq!(status_of(&registry, alice(), "B-1"), BatchStatus::Recalled);
}

#[test]
fn illegal_transitions_are_invalid_status() {
    let mut registry = Registry::new(false);
    assert!(register(&mut registry, alice(), T0, good_fields("B-1")).is_ok());
    assert_eq!(
        update(&mut registry, alice(), alice(), T0 + 1, "B-1", BatchStatus::Expired),
        Err(ErrorCode::InvalidBatchStatus)
    );
    assert_eq!(
        update(&mut registry, alice(), alice(), T0 + 1, "B-1", BatchStatus::Active),
        Err(ErrorCode::InvalidBatchStatus)
    );
    assert_eq!(status_of(&registry, alice(), "B-1"), BatchStatus::Active);
}

#[test]
fn expired_batch_cannot_be_updated() {
    let mut registry = Registry::new(false);
    let mut f = good_fields("B-1");
    f.expiry_date = T0 + 10;
    assert!(register(&mut registry, alice(), T0, f).is_ok());
    assert_eq!(expiry_check(&mut registry, alice(), T0 + 11, "B-1"), Ok(()));
    assert_eq!(
        update(&mut registry, alice(), alice(), T0 + 12, "B-1", BatchStatus::Active),
        Err(ErrorCode::InvalidBatchStatus)
    );
}

#[test]
fn update_of_unknown_batch_fails() {
    let mut registry = Registry::new(false);
    assert_eq!(
        update(&mut registry, alice(), alice(), T0, "nope", BatchStatus::Recalled),
        Err(ErrorCode::BatchNotFound)
    );
}

#[test]
fn same_pair_registers_once_and_is_not_overwritten() {
    let mut registry = Registry::new(false);
    assert!(register(&mut registry, alice(), T0, good_fields("B-1")).is_ok());
    let mut second = good_fields("B-1");
    second.brand_name = "Other".to_string();
    assert_eq!(register(&mut registry, alice(), T0 + 1, second), Err(ErrorCode::BatchAlreadyExists));
    assert_eq!(registry.batches.len(), 1);
    let address = derive_batch_address(&alice(), &"B-1".to_string());
    assert_eq!(registry.get_batch(&address).unwrap().brand_name, "Calpol");
    // Another owner may use the same identifier.
    assert!(register(&mut registry, bob(), T0, good_fields("B-1")).is_ok());
    assert_eq!(registry.batches.len(), 2);
}

#[test]
fn registration_records_every_field() {
    let mut registry = Registry::new(false);
    assert_eq!(register(&mut registry, alice(), T0, good_fields("B-7")), Ok(Advisory::Clear));
    let address = derive_batch_address(&alice(), &"B-7".to_string());
    let b = registry.get_batch(&address).unwrap();
    assert_eq!(b.batch_id, "B-7");
    assert_eq!(b.brand_name, "Calpol");
    assert_eq!(b.generic_name, "Paracetamol");
    assert_eq!(b.mrp, 2500);
    assert_eq!(b.quantity_received, 100);
    assert_eq!(b.manufacturer.bytes, [1u8; 32]);
    assert_eq!(b.status, BatchStatus::Active);
    assert_eq!(b.created_at, T0);
    assert_eq!(b.updated_at, T0);
    assert_eq!(registry.events.len(), 1);
    match &registry.events[0] {
        Event::Registered(e) => {
            assert_eq!(e.batch_id, "B-7");
            assert_eq!(e.batch_pda, address);
            assert_eq!(e.timestamp, T0);
            assert_eq!(e.dosage_form, DosageForm::Tablet);
        }
        other => panic!("unexpected event {:?}", other),
    }
}

#[test]
fn near_expiry_is_advisory_only() {
    let mut registry = Registry::new(false);
    let mut f = good_fields("B-1");
    f.expiry_date = T0 + 10 * DAY + 5;
    assert_eq!(
        register(&mut registry, alice(), T0, f),
        Ok(Advisory::NearExpiry { days_until_expiry: 10 })
    );
    let mut g = good_fields("B-2");
    g.expiry_date = T0 + 31 * DAY;
    assert_eq!(register(&mut registry, alice(), T0, g), Ok(Advisory::Clear));
    let mut h = good_fields("B-3");
    h.expiry_date = T0 + 31 * DAY - 1;
    assert_eq!(
        register(&mut registry, alice(), T0, h),
        Ok(Advisory::NearExpiry { days_until_expiry: 30 })
    );
}

#[test]
fn days_until_expiry_rounds_toward_zero() {
    assert_eq!(days_until_expiry(T0 + 3 * DAY + 7, T0), 3);
    assert_eq!(days_until_expiry(T0 + 1, T0), 0);
    assert_eq!(days_until_expiry(i64::MAX, i64::MIN), 213_503_982_334_601);
    assert_eq!(days_until_expiry(T0 - 3 * DAY - 7, T0), -3);
    assert_eq!(days_until_expiry(T0 - 1, T0), 0);
    assert_eq!(days_until_expiry(i64::MIN, i64::MAX), -213_503_982_334_601);
    assert!(is_near_expiry(T0 - DAY, T0));
    assert!(is_near_expiry(T0 + 30 * DAY, T0));
    assert!(!is_near_expiry(T0 + 31 * DAY, T0));
}

#[test]
fn date_rules() {
    let mut registry = Registry::new(false);
    let mut f = good_fields("B-1");
    f.expiry_date = f.manufacturing_date;
    assert_eq!(register(&mut registry, alice(), T0, f), Err(ErrorCode::InvalidDateRange));
    let mut f = good_fields("B-1");
    f.expiry_date = T0;
    assert_eq!(register(&mut registry, alice(), T0, f), Err(ErrorCode::ExpiredMedicine));
    let mut f = good_fields("B-1");
    f.manufacturing_date = T0 - 100;
    f.expiry_date = T0 - 50;
    assert_eq!(register(&mut registry, alice(), T0, f), Err(ErrorCode::ExpiredMedicine));
    let mut f = good_fields("B-1");
    f.invoice_date = T0 + 1;
    assert_eq!(register(&mut registry, alice(), T0, f), Err(ErrorCode::InvalidDateRange));
    assert_eq!(registry.batches.len(), 0);
    assert_eq!(registry.events.len(), 0);
}

#[test]
fn each_field_rule_has_its_error() {
    let cases: Vec<(Box<dyn Fn(&mut Fields)>, ErrorCode)> = vec![
        (Box::new(|f: &mut Fields| f.brand_name.clear()), ErrorCode::EmptyBrandName),
        (Box::new(|f: &mut Fields| f.generic_name.clear()), ErrorCode::EmptyGenericName),
        (Box::new(|f: &mut Fields| f.brand_name = "x".repeat(101)), ErrorCode::BrandNameTooLong),
        (Box::new(|f: &mut Fields| f.generic_name = "x".repeat(101)), ErrorCode::GenericNameTooLong),
        (Box::new(|f: &mut Fields| f.batch_id = "x".repeat(51)), ErrorCode::BatchIdTooLong),
        (Box::new(|f: &mut Fields| f.mrp = 0), ErrorCode::InvalidMrp),
        (Box::new(|f: &mut Fields| f.quantity_received = 0), ErrorCode::InvalidQuantity),
        (Box::new(|f: &mut Fields| f.strength.clear()), ErrorCode::EmptyStrength),
        (Box::new(|f: &mut Fields| f.composition.clear()), ErrorCode::EmptyComposition),
        (Box::new(|f: &mut Fields| f.strength = "x".repeat(51)), ErrorCode::StrengthTooLong),
        (Box::new(|f: &mut Fields| f.composition = "x".repeat(101)), ErrorCode::CompositionTooLong),
        (Box::new(|f: &mut Fields| f.manufacturer_name.clear()), ErrorCode::EmptyManufacturerName),
        (Box::new(|f: &mut Fields| f.manufacturer_license.clear()), ErrorCode::EmptyManufacturerLicense),
        (Box::new(|f: &mut Fields| f.manufacturer_address.clear()), ErrorCode::EmptyManufacturerAddress),
        (Box::new(|f: &mut Fields| f.manufacturer_name = "x".repeat(101)), ErrorCode::ManufacturerNameTooLong),
        (Box::new(|f: &mut Fields| f.manufacturer_license = "x".repeat(51)), ErrorCode::ManufacturerLicenseTooLong),
        (Box::new(|f: &mut Fields| f.manufacturer_address = "x".repeat(201)), ErrorCode::ManufacturerAddressTooLong),
        (
            Box::new(|f: &mut Fields| f.physical_condition = PhysicalCondition::LeakingBottles),
            ErrorCode::InvalidPhysicalCondition,
        ),
        (Box::new(|f: &mut Fields| f.invoice_number.clear()), ErrorCode::EmptyInvoiceNumber),
        (Box::new(|f: &mut Fields| f.gst_number.clear()), ErrorCode::EmptyGstNumber),
        (Box::new(|f: &mut Fields| f.invoice_number = "x".repeat(51)), ErrorCode::InvoiceNumberTooLong),
        (Box::new(|f: &mut Fields| f.gst_number = "x".repeat(21)), ErrorCode::GstNumberTooLong),
    ];
    for (change, expected) in cases {
        let mut registry = Registry::new(false);
        let mut f = good_fields("B-1");
        change(&mut f);
        assert_eq!(register(&mut registry, alice(), T0, f), Err(expected));
        assert_eq!(registry.batches.len(), 0);
        assert_eq!(registry.events.len(), 0);
    }
}

#[test]
fn length_limits_are_inclusive_and_count_bytes() {
    let mut registry = Registry::new(false);
    let mut f = good_fields(&"x".repeat(50));
    f.brand_name = "x".repeat(100);
    f.gst_number = "x".repeat(20);
    assert!(register(&mut registry, alice(), T0, f).is_ok());
    // 26 two-byte characters: 52 bytes, over the 50-byte limit.
    let f = good_fields(&"é".repeat(26));
    assert_eq!(register(&mut registry, alice(), T0, f), Err(ErrorCode::BatchIdTooLong));
}

#[test]
fn first_failing_rule_is_reported() {
    let mut registry = Registry::new(false);
    let mut f = good_fields("");
    f.brand_name.clear();
    f.mrp = 0;
    assert_eq!(register(&mut registry, alice(), T0, f), Err(ErrorCode::EmptyBrandName));
}

#[test]
fn gated_registry_requires_verified_manufacturer() {
    let mut registry = Registry::new(true);
    assert_eq!(
        register(&mut registry, alice(), T0, good_fields("B-1")),
        Err(ErrorCode::ManufacturerNotVerified)
    );
    let ctx = RegisterManufacturer { manufacturer: alice(), unix_timestamp: T0 };
    assert_eq!(register_manufacturer::handler(&mut registry, &ctx), Ok(()));
    assert_eq!(registry.manufacturers.len(), 1);
    assert!(registry.manufacturers[0].is_verified);
    assert_eq!(registry.manufacturers[0].registered_at, T0);
    assert_eq!(
        register_manufacturer::handler(&mut registry, &ctx),
        Err(ErrorCode::ManufacturerAlreadyRegistered)
    );
    assert!(register(&mut registry, alice(), T0, good_fields("B-1")).is_ok());
    assert_eq!(
        register(&mut registry, bob(), T0, good_fields("B-1")),
        Err(ErrorCode::ManufacturerNotVerified)
    );
}

#[test]
fn verification_reports_predicates() {
    let mut registry = Registry::new(false);
    let mut f = good_fields("B-1");
    f.expiry_date = T0 + 100;
    assert!(register(&mut registry, alice(), T0, f).is_ok());
    let ctx = VerifyBatch { manufacturer: alice(), unix_timestamp: T0 + 50 };
    assert_eq!(verify_batch(&mut registry, &ctx, "B-1".to_string()), Ok(()));
    match registry.events.last().unwrap() {
        Event::Verified(v) => {
            assert!(!v.is_expired);
            assert!(v.is_valid);
            assert_eq!(v.status, BatchStatus::Active);
            assert_eq!(v.verified_at, T0 + 50);
        }
        other => panic!("unexpected event {:?}", other),
    }
    let address = derive_batch_address(&alice(), &"B-1".to_string());
    let ctx = VerifyBatchByPda { batch: address.clone(), unix_timestamp: T0 + 101 };
    assert_eq!(verify_batch_by_pda(&mut registry, &ctx), Ok(()));
    match registry.events.last().unwrap() {
        Event::Verified(v) => {
            assert!(v.is_expired);
            assert!(!v.is_valid);
            assert_eq!(v.batch_pda, address);
        }
        other => panic!("unexpected event {:?}", other),
    }
    // Verification never changes the record.
    assert_eq!(status_of(&registry, alice(), "B-1"), BatchStatus::Active);
    let ctx = VerifyBatch { manufacturer: bob(), unix_timestamp: T0 };
    assert_eq!(verify_batch(&mut registry, &ctx, "B-1".to_string()), Err(ErrorCode::BatchNotFound));
}

#[test]
fn recalled_batch_is_not_valid() {
    let mut registry = Registry::new(false);
    assert!(register(&mut registry, alice(), T0, good_fields("B-1")).is_ok());
    assert_eq!(update(&mut registry, alice(), alice(), T0 + 1, "B-1", BatchStatus::Recalled), Ok(()));
    let address = derive_batch_address(&alice(), &"B-1".to_string());
    let b = registry.get_batch(&address).unwrap();
    assert!(!b.is_expired(T0 + 2));
    assert!(!b.is_valid(T0 + 2));
}

#[test]
fn expiry_is_monotonic_on_examples() {
    let mut registry = Registry::new(false);
    let mut f = good_fields("B-1");
    f.expiry_date = T0 + 100;
    assert!(register(&mut registry, alice(), T0, f).is_ok());
    let address = derive_batch_address(&alice(), &"B-1".to_string());
    let b = registry.get_batch(&address).unwrap();
    assert!(!b.is_expired(T0 + 100));
    for t in [T0 + 101, T0 + 102, T0 + 10_000, i64::MAX] {
        assert!(b.is_expired(t));
    }
}

#[test]
fn addresses_are_namespace_owner_then_id_bytes() {
    let a = derive_batch_address(&alice(), &"B1".to_string());
    let mut expected = b"batch".to_vec();
    expected.extend_from_slice(&[1u8; 32]);
    expected.extend_from_slice(b"B1");
    assert_eq!(a, expected);
    assert_ne!(a, derive_batch_address(&bob(), &"B1".to_string()));
    assert_ne!(a, derive_batch_address(&alice(), &"B2".to_string()));
    let m = derive_manufacturer_address(&alice());
    let mut expected = b"manufacturer".to_vec();
    expected.extend_from_slice(&[1u8; 32]);
    assert_eq!(m, expected);
}

#[test]
fn identities_compare_by_bytes() {
    assert!(alice().same_as(&Identity::new([1u8; 32])));
    let mut bytes = [1u8; 32];
    bytes[31] = 9;
    assert!(!alice().same_as(&Identity::new(bytes)));
}

#[test]
fn hello_succeeds() {
    assert_eq!(hello(&Hello {}), Ok(()));
}

#[test]
fn error_messages() {
    assert_eq!(ErrorCode::EmptyBatchId.message(), "Batch ID cannot be empty");
    assert_eq!(ErrorCode::StrengthTooLong.message(), "Strength exceeds maximum length");
    assert_eq!(
        ErrorCode::UnauthorizedManufacturer.message(),
        "Only the manufacturer can perform this action"
    );
}
