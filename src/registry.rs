//! The content registry: creators register content by its hash, edit its
//! metadata, and anyone can check a record against its derived address.

pub mod content;
pub mod register_content;
pub mod update_metadata;
pub mod verify_ownership;
pub mod utils;

use vstd::prelude::*;

use crate::registry::content::{ContentRecord, Registry, RegistryFailure, RegistryView};
use crate::registry::register_content::{register_error, registered, RegisterContent};
use crate::registry::update_metadata::{update_error, with_metadata, UpdateMetadata};
use crate::registry::verify_ownership::{ownership_holds, VerifyOwnership};

verus! {

/// Entry point: registers content (see `register_content::handler`).
pub fn register_content(
    registry: &mut Registry,
    ctx: &RegisterContent,
    content_hash: [u8; 32],
    uri: String,
    title: String,
    category: String,
    now: i64,
) -> (r: Result<(), RegistryFailure>)
    requires
        old(registry).wf(),
    ensures
        final(registry).wf(),
        match register_error(old(registry)@, ctx.creator@, content_hash@, uri@, title@, category@) {
            Some(e) => r == Err::<(), RegistryFailure>(e) && final(registry)@ == old(registry)@,
            None => r is Ok && final(registry)@ == registered(
                old(registry)@,
                ctx.creator,
                content_hash,
                uri,
                title,
                category,
                now,
            ),
        },
{
    register_content::handler(registry, ctx, content_hash, uri, title, category, now)
}

/// Entry point: edits a record's texts (see `update_metadata::handler`).
pub fn update_metadata(
    registry: &mut Registry,
    ctx: &UpdateMetadata,
    new_title: Option<String>,
    new_category: Option<String>,
    new_uri: Option<String>,
) -> (r: Result<(), RegistryFailure>)
    requires
        old(registry).wf(),
    ensures
        final(registry).wf(),
        match update_error(
            old(registry)@,
            ctx.creator@,
            ctx.content_record@,
            new_title,
            new_category,
            new_uri,
        ) {
            Some(e) => r == Err::<(), RegistryFailure>(e) && final(registry)@ == old(registry)@,
            None => r is Ok && final(registry)@ == (RegistryView {
                records: old(registry)@.records.insert(
                    ctx.content_record@,
                    with_metadata(
                        old(registry)@.records[ctx.content_record@],
                        new_title,
                        new_category,
                        new_uri,
                    ),
                ),
                ..old(registry)@
            }),
        },
{
    update_metadata::handler(registry, ctx, new_title, new_category, new_uri)
}

/// Entry point: checks a record's ownership (see `verify_ownership::handler`).
pub fn verify_ownership(registry: &Registry, ctx: &VerifyOwnership) -> (r: Result<ContentRecord, RegistryFailure>)
    requires
        registry.wf(),
    ensures
        ownership_holds(registry@, ctx.content_record@) ==> r == Ok::<ContentRecord, RegistryFailure>(
            registry@.records[ctx.content_record@],
        ),
        !ownership_holds(registry@, ctx.content_record@) ==> r == Err::<ContentRecord, RegistryFailure>(
            RegistryFailure::AccountMismatch,
        ),
{
    verify_ownership::handler(registry, ctx)
}

} // verus!
