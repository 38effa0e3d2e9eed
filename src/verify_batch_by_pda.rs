//! Verification of a batch named directly by its address.
use vstd::prelude::*;
use crate::error::ErrorCode;
use crate::registry::Registry;
use crate::verify_batch::{verify_at, verify_outcome};
use crate::VerifyBatchByPda;

verus! {

/// Reports the batch stored at `ctx.batch`.
pub fn handler(registry: &mut Registry, ctx: &VerifyBatchByPda) -> (r: Result<(), ErrorCode>)
    requires
        old(registry).wf(),
    ensures
        final(registry).wf(),
        verify_outcome(*old(registry), *final(registry), ctx.batch@, ctx.unix_timestamp, r),
{
    verify_at(registry, ctx.batch.as_slice(), ctx.unix_timestamp)
}

} // verus!
