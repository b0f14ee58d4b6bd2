use vstd::prelude::*;

use crate::address::Address;
use crate::derivation::{canonical_address, content_seeds, find_content_address, lemma_canonical_is_valid};
use crate::registry::content::{
    byte_len,
    texts_fit,
    ContentRecord,
    Registry,
    RegistryError,
    RegistryFailure,
    RegistryView,
    MAX_CATEGORY_LEN,
    MAX_TITLE_LEN,
    MAX_URI_LEN,
};

verus! {

/// The accounts of a registration: the creator.
#[derive(Clone, Copy, Debug)]
pub struct RegisterContent {
    pub creator: Address,
}

/// Why registration fails on `s`, if it does: the record address cannot be
/// derived, is occupied, or the texts do not fit the record.
pub open spec fn register_error(
    s: RegistryView,
    creator: Seq<u8>,
    content_hash: Seq<u8>,
    uri: Seq<char>,
    title: Seq<char>,
    category: Seq<char>,
) -> Option<RegistryFailure> {
    match canonical_address(content_seeds(creator, content_hash), s.program) {
        None => Some(RegistryFailure::AccountMismatch),
        Some((a, _)) => if s.records.contains_key(a) {
            Some(RegistryFailure::AccountInUse)
        } else if !(byte_len(uri) <= MAX_URI_LEN && byte_len(title) <= MAX_TITLE_LEN && byte_len(
            category,
        ) <= MAX_CATEGORY_LEN) {
            Some(RegistryFailure::Registry(RegistryError::InvalidContent))
        } else {
            None
        },
    }
}

/// The registry after a successful registration at time `now`.
pub open spec fn registered(
    s: RegistryView,
    creator: Address,
    content_hash: [u8; 32],
    uri: String,
    title: String,
    category: String,
    now: i64,
) -> RegistryView {
    match canonical_address(content_seeds(creator@, content_hash@), s.program) {
        Some((a, b)) => RegistryView {
            records: s.records.insert(
                a,
                ContentRecord {
                    creator,
                    content_hash,
                    uri,
                    title,
                    category,
                    registered_at: now,
                    bump: b,
                },
            ),
            ..s
        },
        None => s,
    }
}

/// Registers content under its hash for the creator at time `now`.
pub fn handler(
    registry: &mut Registry,
    ctx: &RegisterContent,
    content_hash: [u8; 32],
    uri: String,
    title: String,
    category: String,
    now: i64,
) -> (r: Result<(), RegistryFailure>)
    requires
        old(registry).wf(),
    ensures
        final(registry).wf(),
        match register_error(old(registry)@, ctx.creator@, content_hash@, uri@, title@, category@) {
            Some(e) => r == Err::<(), RegistryFailure>(e) && final(registry)@ == old(registry)@,
            None => r is Ok && final(registry)@ == registered(
                old(registry)@,
                ctx.creator,
                content_hash,
                uri,
                title,
                category,
                now,
            ),
        },
{
    let program = registry.program_id();
    let (address, bump) = match find_content_address(&program, &ctx.creator, &content_hash) {
        Some(found) => found,
        None => return Err(RegistryFailure::AccountMismatch),
    };
    if registry.record_at(&address).is_some() {
        return Err(RegistryFailure::AccountInUse);
    }
    if !texts_fit(&uri, &title, &category) {
        return Err(RegistryFailure::Registry(RegistryError::InvalidContent));
    }
    proof {
        lemma_canonical_is_valid(content_seeds(ctx.creator@, content_hash@), program@, 255);
    }
    let record = ContentRecord {
        creator: ctx.creator,
        content_hash,
        uri,
        title,
        category,
        registered_at: now,
        bump,
    };
    registry.store(address, record);
    Ok(())
}

} // verus!
