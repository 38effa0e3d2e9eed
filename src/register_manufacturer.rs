//! Entering a manufacturer in the registry.
use vstd::prelude::*;
use crate::error::ErrorCode;
use crate::registry::{ManufacturerRegistry, Registry};
use crate::RegisterManufacturer;

verus! {

/// Enters `ctx.manufacturer` in the registry as verified, once.
pub fn handler(registry: &mut Registry, ctx: &RegisterManufacturer) -> (r: Result<(), ErrorCode>)
    requires
        old(registry).wf(),
    ensures
        final(registry).wf(),
        old(registry).has_manufacturer(ctx.manufacturer@) ==> r == Err::<(), ErrorCode>(
            ErrorCode::ManufacturerAlreadyRegistered,
        ) && *final(registry) == *old(registry),
        !old(registry).has_manufacturer(ctx.manufacturer@) ==> {
            &&& r == Ok::<(), ErrorCode>(())
            &&& final(registry).manufacturers@ == old(registry).manufacturers@.push(
                (ManufacturerRegistry {
                    manufacturer: ctx.manufacturer,
                    is_verified: true,
                    registered_at: ctx.unix_timestamp,
                }),
            )
            &&& final(registry).is_verified(ctx.manufacturer@)
            &&& final(registry).manufacturer_gate == old(registry).manufacturer_gate
            &&& final(registry).batches == old(registry).batches
            &&& final(registry).events == old(registry).events
        },
{
    if registry.manufacturer_registered(&ctx.manufacturer) {
        return Err(ErrorCode::ManufacturerAlreadyRegistered);
    }
    let ghost pre = *registry;
    let entry = ManufacturerRegistry {
        manufacturer: ctx.manufacturer,
        is_verified: true,
        registered_at: ctx.unix_timestamp,
    };
    registry.manufacturers.push(entry);
    proof {
        let n = pre.manufacturers@.len() as int;
        assert(registry.manufacturers@[n].manufacturer@ == ctx.manufacturer@);
        assert forall|i: int, j: int|
            0 <= i < registry.manufacturers@.len() && 0 <= j < registry.manufacturers@.len() && i
                != j implies #[trigger] registry.manufacturers@[i].manufacturer@
            != #[trigger] registry.manufacturers@[j].manufacturer@ by {
            if i == n {
                assert(pre.manufacturers@[j] == registry.manufacturers@[j]);
            } else if j == n {
                assert(pre.manufacturers@[i] == registry.manufacturers@[i]);
            } else {
                assert(pre.manufacturers@[i] == registry.manufacturers@[i]);
                assert(pre.manufacturers@[j] == registry.manufacturers@[j]);
            }
        }
    }
    Ok(())
}

} // verus!
