use vstd::prelude::*;

use crate::address::Address;
use crate::derivation::{content_address_with_bump, content_seeds, program_address, with_bump};
use crate::registry::content::{ContentRecord, Registry, RegistryFailure, RegistryView};

verus! {

/// The accounts of an ownership check: the record to check.
#[derive(Clone, Copy, Debug)]
pub struct VerifyOwnership {
    pub content_record: Address,
}

/// Whether `record` holds content at the address derived from its own
/// creator, hash and bump.
pub open spec fn ownership_holds(s: RegistryView, record: Seq<u8>) -> bool {
    &&& s.records.contains_key(record)
    &&& program_address(
        with_bump(
            content_seeds(s.records[record].creator@, s.records[record].content_hash@),
            s.records[record].bump,
        ),
        s.program,
    ) == Some(record)
}

/// Checks the record against its derived address and hands it back: its
/// creator is the owner of the content.
pub fn handler(registry: &Registry, ctx: &VerifyOwnership) -> (r: Result<ContentRecord, RegistryFailure>)
    requires
        registry.wf(),
    ensures
        ownership_holds(registry@, ctx.content_record@) ==> r == Ok::<ContentRecord, RegistryFailure>(
            registry@.records[ctx.content_record@],
        ),
        !ownership_holds(registry@, ctx.content_record@) ==> r == Err::<ContentRecord, RegistryFailure>(
            RegistryFailure::AccountMismatch,
        ),
{
    let record = match registry.record_at(&ctx.content_record) {
        Some(c) => c,
        None => return Err(RegistryFailure::AccountMismatch),
    };
    let program = registry.program_id();
    match content_address_with_bump(&program, &record.creator, &record.content_hash, record.bump) {
        Some(a) => {
            if !a.same_as(&ctx.content_record) {
                return Err(RegistryFailure::AccountMismatch);
            }
        },
        None => return Err(RegistryFailure::AccountMismatch),
    }
    Ok(record.clone())
}

} // verus!
