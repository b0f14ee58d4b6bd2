use vstd::prelude::*;

use crate::address::Address;
use crate::derivation::{content_address_with_bump, content_seeds, program_address, with_bump};
use crate::registry::content::{texts_fit, ContentRecord, Registry, RegistryError, RegistryFailure, RegistryView};

verus! {

/// The accounts of a metadata update: the creator and the record to edit.
#[derive(Clone, Copy, Debug)]
pub struct UpdateMetadata {
    pub creator: Address,
    pub content_record: Address,
}

/// `record` with each given text replaced.
pub open spec fn with_metadata(
    record: ContentRecord,
    new_title: Option<String>,
    new_category: Option<String>,
    new_uri: Option<String>,
) -> ContentRecord {
    ContentRecord {
        title: match new_title {
            Some(t) => t,
            None => record.title,
        },
        category: match new_category {
            Some(c) => c,
            None => record.category,
        },
        uri: match new_uri {
            Some(u) => u,
            None => record.uri,
        },
        ..record
    }
}

/// Why an update fails on `s`, if it does, checked in this order: no record
/// at `record`, a caller who is not its creator, a record not at the address
/// derived from the caller and its hash, or texts that do not fit.
pub open spec fn update_error(
    s: RegistryView,
    creator: Seq<u8>,
    record: Seq<u8>,
    new_title: Option<String>,
    new_category: Option<String>,
    new_uri: Option<String>,
) -> Option<RegistryFailure> {
    if !s.records.contains_key(record) {
        Some(RegistryFailure::AccountMismatch)
    } else {
        let c = s.records[record];
        if c.creator@ != creator {
            Some(RegistryFailure::Registry(RegistryError::Unauthorized))
        } else if program_address(with_bump(content_seeds(creator, c.content_hash@), c.bump), s.program)
            != Some(record) {
            Some(RegistryFailure::AccountMismatch)
        } else if !with_metadata(c, new_title, new_category, new_uri).fits() {
            Some(RegistryFailure::Registry(RegistryError::InvalidContent))
        } else {
            None
        }
    }
}

/// Replaces the given texts of the creator's record.
pub fn handler(
    registry: &mut Registry,
    ctx: &UpdateMetadata,
    new_title: Option<String>,
    new_category: Option<String>,
    new_uri: Option<String>,
) -> (r: Result<(), RegistryFailure>)
    requires
        old(registry).wf(),
    ensures
        final(registry).wf(),
        match update_error(
            old(registry)@,
            ctx.creator@,
            ctx.content_record@,
            new_title,
            new_category,
            new_uri,
        ) {
            Some(e) => r == Err::<(), RegistryFailure>(e) && final(registry)@ == old(registry)@,
            None => r is Ok && final(registry)@ == (RegistryView {
                records: old(registry)@.records.insert(
                    ctx.content_record@,
                    with_metadata(
                        old(registry)@.records[ctx.content_record@],
                        new_title,
                        new_category,
                        new_uri,
                    ),
                ),
                ..old(registry)@
            }),
        },
{
    let current = match registry.record_at(&ctx.content_record) {
        Some(c) => c,
        None => return Err(RegistryFailure::AccountMismatch),
    };
    if !current.creator.same_as(&ctx.creator) {
        return Err(RegistryFailure::Registry(RegistryError::Unauthorized));
    }
    let program = registry.program_id();
    match content_address_with_bump(&program, &ctx.creator, &current.content_hash, current.bump) {
        Some(a) => {
            if !a.same_as(&ctx.content_record) {
                return Err(RegistryFailure::AccountMismatch);
            }
        },
        None => return Err(RegistryFailure::AccountMismatch),
    }
    let title = match new_title {
        Some(t) => t,
        None => current.title.clone(),
    };
    let category = match new_category {
        Some(c) => c,
        None => current.category.clone(),
    };
    let uri = match new_uri {
        Some(u) => u,
        None => current.uri.clone(),
    };
    if !texts_fit(&uri, &title, &category) {
        return Err(RegistryFailure::Registry(RegistryError::InvalidContent));
    }
    let record = ContentRecord {
        creator: current.creator,
        content_hash: current.content_hash,
        uri,
        title,
        category,
        registered_at: current.registered_at,
        bump: current.bump,
    };
    registry.store(ctx.content_record, record);
    Ok(())
}

} // verus!
