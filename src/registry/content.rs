use vstd::prelude::*;

use crate::address::Address;
use crate::derivation::{content_seeds, program_address, with_bump};
use crate::table::AccountTable;

verus! {

/// The registry's business errors.
#[derive(Clone, Copy, Debug, PartialEq, Eq, Structural)]
pub enum RegistryError {
    Unauthorized,
    InvalidContent,
}

impl RegistryError {
    /// The human-readable message of the error.
    pub fn message(&self) -> (r: &'static str) {
        match self {
            RegistryError::Unauthorized => "Unauthorized action",
            RegistryError::InvalidContent => "Invalid content data",
        }
    }
}

/// Why the ledger rejected a registry transaction.
#[derive(Clone, Copy, Debug, PartialEq, Eq, Structural)]
pub enum RegistryFailure {
    /// A referenced record is missing or does not sit at its derived address.
    AccountMismatch,
    /// The record's address is already occupied.
    AccountInUse,
    Registry(RegistryError),
}

/// Largest stored URI, in UTF-8 bytes.
pub const MAX_URI_LEN: usize = 200;

/// Largest stored title, in UTF-8 bytes.
pub const MAX_TITLE_LEN: usize = 100;

/// Largest stored category, in UTF-8 bytes.
pub const MAX_CATEGORY_LEN: usize = 50;

/// The length of a text in UTF-8 bytes, as `str::len` gives it.
pub open spec fn byte_len(s: Seq<char>) -> usize {
    vstd::utf8::encode_utf8(s).len() as usize
}

/// Registered content: who registered it, the hash of the content, where it
/// lives and how it is described.
#[derive(Debug)]
pub struct ContentRecord {
    pub creator: Address,
    pub content_hash: [u8; 32],
    pub uri: String,
    pub title: String,
    pub category: String,
    pub registered_at: i64,
    pub bump: u8,
}

impl ContentRecord {
    /// Size of the persisted record at its longest, without the type tag.
    pub const MAX_SIZE: usize = 32 + 32 + 4 + 200 + 4 + 100 + 4 + 50 + 8 + 1;

    /// Whether the texts fit the record's storage.
    pub open spec fn fits(self) -> bool {
        &&& byte_len(self.uri@) <= MAX_URI_LEN
        &&& byte_len(self.title@) <= MAX_TITLE_LEN
        &&& byte_len(self.category@) <= MAX_CATEGORY_LEN
    }
}

impl Clone for ContentRecord {
    fn clone(&self) -> (r: ContentRecord)
        ensures
            r == *self,
    {
        ContentRecord {
            creator: self.creator,
            content_hash: self.content_hash,
            uri: self.uri.clone(),
            title: self.title.clone(),
            category: self.category.clone(),
            registered_at: self.registered_at,
            bump: self.bump,
        }
    }
}

/// Whether texts of these lengths fit a content record.
pub fn texts_fit(uri: &String, title: &String, category: &String) -> (r: bool)
    ensures
        r == (byte_len(uri@) <= MAX_URI_LEN && byte_len(title@) <= MAX_TITLE_LEN && byte_len(
            category@,
        ) <= MAX_CATEGORY_LEN),
{
    uri.as_str().len() <= MAX_URI_LEN && title.as_str().len() <= MAX_TITLE_LEN
        && category.as_str().len() <= MAX_CATEGORY_LEN
}

/// The registry as values: the owning program and the records by address.
pub ghost struct RegistryView {
    pub program: Seq<u8>,
    pub records: Map<Seq<u8>, ContentRecord>,
}

impl RegistryView {
    /// Each record fits its storage and sits at the address derived from its
    /// creator, its hash and its bump.
    pub open spec fn wf(self) -> bool {
        forall|a: Seq<u8>| #[trigger]
            self.records.contains_key(a) ==> {
                &&& self.records[a].fits()
                &&& program_address(
                    with_bump(
                        content_seeds(self.records[a].creator@, self.records[a].content_hash@),
                        self.records[a].bump,
                    ),
                    self.program,
                ) == Some(a)
            }
    }
}

/// The content records of one program.
pub struct Registry {
    program_id: Address,
    records: AccountTable<ContentRecord>,
}

impl View for Registry {
    type V = RegistryView;

    closed spec fn view(&self) -> RegistryView {
        RegistryView { program: self.program_id@, records: self.records@ }
    }
}

impl Registry {
    /// The record table keeps one entry per address.
    pub closed spec fn table_wf(&self) -> bool {
        self.records.wf()
    }

    pub open spec fn wf(&self) -> bool {
        self.table_wf() && self@.wf()
    }

    /// An empty registry of the program `program_id`.
    pub fn new(program_id: Address) -> (r: Registry)
        ensures
            r.wf(),
            r@.program == program_id@,
            r@.records == Map::<Seq<u8>, ContentRecord>::empty(),
    {
        Registry { program_id, records: AccountTable::new() }
    }

    pub fn program_id(&self) -> (r: Address)
        ensures
            r@ == self@.program,
    {
        self.program_id
    }

    /// The record stored at `a`, if any.
    pub fn record_at(&self, a: &Address) -> (r: Option<&ContentRecord>)
        requires
            self.wf(),
        ensures
            match r {
                Some(c) => self@.records.contains_key(a@) && self@.records[a@] == *c,
                None => !self@.records.contains_key(a@),
            },
    {
        self.records.get(a)
    }

    /// Stores a record that fits at the address that its seeds and bump derive.
    pub(crate) fn store(&mut self, a: Address, record: ContentRecord)
        requires
            old(self).wf(),
            record.fits(),
            program_address(
                with_bump(content_seeds(record.creator@, record.content_hash@), record.bump),
                old(self)@.program,
            ) == Some(a@),
        ensures
            final(self).wf(),
            final(self)@ == (RegistryView {
                records: old(self)@.records.insert(a@, record),
                ..old(self)@
            }),
    {
        self.records.insert(a, record);
    }
}

} // verus!
