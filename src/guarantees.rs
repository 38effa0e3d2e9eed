//! Facts about sequences of operations, proved from the operations' contracts.
use vstd::prelude::*;
use crate::address::{batch_address, lemma_batch_address_injective, Identity};
use crate::check_and_update_expiry::expiry_outcome;
use crate::error::ErrorCode;
use crate::register_batch::{new_batch, register_outcome, Advisory};
use crate::registry::Registry;
use crate::state::{Batch, BatchStatus};
use crate::update_batch_status::update_outcome;
use crate::verify_batch::verify_outcome;
use crate::validation::{byte_len, input_error, BatchInput, MAX_BATCH_ID_LEN, MAX_BRAND_NAME_LEN, MAX_GENERIC_NAME_LEN};

verus! {

/// A valid batch is created once per (owner, identifier): the first
/// registration on a registry without that pair succeeds, and a second one
/// with the same pair fails with `BatchAlreadyExists`, leaving the first
/// record and everything else as it was.
pub proof fn law_register_once_per_pair(
    pre: Registry,
    mid: Registry,
    post: Registry,
    owner: Identity,
    first: BatchInput,
    second: BatchInput,
    t1: i64,
    t2: i64,
    r1: Result<Advisory, ErrorCode>,
    r2: Result<Advisory, ErrorCode>,
)
    requires
        input_error(first, t1) is None,
        input_error(second, t2) is None,
        second.batch_id@ == first.batch_id@,
        !pre.manufacturer_gate || pre.is_verified(owner@),
        !pre.has_batch(batch_address(owner@, first.batch_id@)),
        register_outcome(pre, mid, owner, first, t1, r1),
        register_outcome(mid, post, owner, second, t2, r2),
    ensures
        r1 is Ok,
        r2 == Err::<Advisory, ErrorCode>(ErrorCode::BatchAlreadyExists),
        post == mid,
        post.has_batch(batch_address(owner@, first.batch_id@)),
        post.batch_at(batch_address(owner@, first.batch_id@)) == new_batch(first, owner, t1),
        forall|a: Seq<u8>|
            #[trigger] mid.has_batch(a) <==> (pre.has_batch(a) || a == batch_address(
                owner@,
                first.batch_id@,
            )),
{
    assert(mid.manufacturers == pre.manufacturers);
}

/// A batch whose expiry date is not after its manufacturing date is refused
/// with `InvalidDateRange`; one whose dates are ordered but whose expiry date
/// is not after the time of registration is refused with `ExpiredMedicine`.
/// Neither refusal changes anything. (The name and identifier rules are
/// checked before the dates, so they are taken to hold.)
pub proof fn law_date_rules(
    pre: Registry,
    post: Registry,
    owner: Identity,
    input: BatchInput,
    now: i64,
    r: Result<Advisory, ErrorCode>,
)
    requires
        input.brand_name@.len() > 0,
        input.generic_name@.len() > 0,
        byte_len(input.brand_name@) <= MAX_BRAND_NAME_LEN,
        byte_len(input.generic_name@) <= MAX_GENERIC_NAME_LEN,
        input.batch_id@.len() > 0,
        byte_len(input.batch_id@) <= MAX_BATCH_ID_LEN,
        register_outcome(pre, post, owner, input, now, r),
    ensures
        input.expiry_date <= input.manufacturing_date ==> r == Err::<
            Advisory,
            ErrorCode,
        >(ErrorCode::InvalidDateRange) && post == pre,
        input.expiry_date > input.manufacturing_date && input.expiry_date <= now ==> r == Err::<
            Advisory,
            ErrorCode,
        >(ErrorCode::ExpiredMedicine) && post == pre,
        input.expiry_date > input.manufacturing_date && input.expiry_date <= now && !pre.has_batch(
            batch_address(owner@, input.batch_id@),
        ) ==> !post.has_batch(batch_address(owner@, input.batch_id@)),
{
}

/// A registered pair never blocks a different one: with a batch stored for
/// `(holder, held_id)`, a valid registration by another owner or under
/// another identifier, for which nothing is stored yet, succeeds at an
/// address of its own and leaves the stored batch as it was.
pub proof fn law_distinct_pair_not_blocked(
    pre: Registry,
    post: Registry,
    holder: Identity,
    held_id: Seq<char>,
    owner: Identity,
    input: BatchInput,
    now: i64,
    r: Result<Advisory, ErrorCode>,
)
    requires
        pre.has_batch(batch_address(holder@, held_id)),
        owner@ != holder@ || input.batch_id@ != held_id,
        !pre.has_batch(batch_address(owner@, input.batch_id@)),
        input_error(input, now) is None,
        !pre.manufacturer_gate || pre.is_verified(owner@),
        register_outcome(pre, post, owner, input, now, r),
    ensures
        r is Ok,
        batch_address(owner@, input.batch_id@) != batch_address(holder@, held_id),
        post.has_batch(batch_address(holder@, held_id)),
        post.batch_at(batch_address(holder@, held_id)) == pre.batch_at(batch_address(holder@, held_id)),
{
    if batch_address(owner@, input.batch_id@) == batch_address(holder@, held_id) {
        lemma_batch_address_injective(owner@, input.batch_id@, holder@, held_id);
    }
}

/// Expiry is monotonic in time: a batch expired at `t` is expired at every
/// later time `t + delta`.
pub proof fn law_expiry_monotonic(b: Batch, t: i64, delta: int)
    requires
        b.spec_is_expired(t),
        delta > 0,
        t + delta <= i64::MAX,
    ensures
        b.spec_is_expired((t + delta) as i64),
{
}

/// Running the expiry check twice in a row at the same time leaves the state
/// of the first run: the second run changes nothing and emits nothing, and
/// the two together emit at most one event.
pub proof fn law_expiry_check_idempotent(
    pre: Registry,
    mid: Registry,
    post: Registry,
    owner: Identity,
    batch_id: Seq<char>,
    now: i64,
    r1: Result<(), ErrorCode>,
    r2: Result<(), ErrorCode>,
)
    requires
        pre.wf(),
        expiry_outcome(pre, mid, owner, batch_id, now, r1),
        expiry_outcome(mid, post, owner, batch_id, now, r2),
    ensures
        post == mid,
        r2 == r1,
        post.events@.len() <= pre.events@.len() + 1,
{
}

/// The expiry check on a batch that is already expired changes nothing and
/// emits nothing.
pub proof fn law_expired_batch_is_fixed(
    pre: Registry,
    post: Registry,
    owner: Identity,
    batch_id: Seq<char>,
    now: i64,
    r: Result<(), ErrorCode>,
)
    requires
        pre.has_batch(batch_address(owner@, batch_id)),
        pre.batch_at(batch_address(owner@, batch_id)).status == BatchStatus::Expired,
        expiry_outcome(pre, post, owner, batch_id, now, r),
    ensures
        r == Ok::<(), ErrorCode>(()),
        post == pre,
{
}

/// Recalled is absorbing: every status update of a recalled batch fails with
/// `BatchAlreadyRecalled` or `UnauthorizedManufacturer`, and the batch stays
/// recalled with nothing changed.
pub proof fn law_recalled_is_absorbing(
    pre: Registry,
    post: Registry,
    owner: Identity,
    signer: Identity,
    batch_id: Seq<char>,
    new_status: BatchStatus,
    now: i64,
    r: Result<(), ErrorCode>,
)
    requires
        pre.has_batch(batch_address(owner@, batch_id)),
        pre.batch_at(batch_address(owner@, batch_id)).status == BatchStatus::Recalled,
        update_outcome(pre, post, owner, signer, batch_id, new_status, now, r),
    ensures
        r == Err::<(), ErrorCode>(ErrorCode::BatchAlreadyRecalled) || r == Err::<(), ErrorCode>(
            ErrorCode::UnauthorizedManufacturer,
        ),
        post == pre,
        post.batch_at(batch_address(owner@, batch_id)).status == BatchStatus::Recalled,
{
}

/// A status update signed by anyone but the batch's owner fails with
/// `UnauthorizedManufacturer` and changes nothing.
pub proof fn law_only_owner_updates(
    pre: Registry,
    post: Registry,
    owner: Identity,
    signer: Identity,
    batch_id: Seq<char>,
    new_status: BatchStatus,
    now: i64,
    r: Result<(), ErrorCode>,
)
    requires
        pre.has_batch(batch_address(owner@, batch_id)),
        pre.batch_at(batch_address(owner@, batch_id)).manufacturer@ != signer@,
        update_outcome(pre, post, owner, signer, batch_id, new_status, now, r),
    ensures
        r == Err::<(), ErrorCode>(ErrorCode::UnauthorizedManufacturer),
        post == pre,
{
}

/// No operation removes a record: every address that holds a batch before a
/// registration, a status update, an expiry check or a verification still
/// holds one after it.
pub proof fn law_records_persist(
    pre: Registry,
    post: Registry,
    owner: Identity,
    signer: Identity,
    input: BatchInput,
    batch_id: Seq<char>,
    new_status: BatchStatus,
    address: Seq<u8>,
    now: i64,
    r_reg: Result<Advisory, ErrorCode>,
    r: Result<(), ErrorCode>,
    kept: Seq<u8>,
)
    requires
        pre.has_batch(kept),
        register_outcome(pre, post, owner, input, now, r_reg)
            || update_outcome(pre, post, owner, signer, batch_id, new_status, now, r)
            || expiry_outcome(pre, post, owner, batch_id, now, r)
            || verify_outcome(pre, post, address, now, r),
    ensures
        post.has_batch(kept),
{
    let i = choose|i: int| 0 <= i < pre.batches@.len() && #[trigger] pre.batches@[i].address@ == kept;
    if post.batches@.len() > pre.batches@.len() {
        assert(post.batches@.drop_last()[i] == post.batches@[i]);
    }
    assert(post.batches@[i].address@ == kept);
}

} // verus!
