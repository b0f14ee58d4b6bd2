use vstd::prelude::*;

use crate::address::Address;
use crate::derivation::{config_seeds, license_seeds, program_address, with_bump};
use crate::state::{ActiveLicense, LicenseConfig, BPS_DENOMINATOR};
use crate::table::AccountTable;

verus! {

/// The ledger as values: the program that owns the records, the records by
/// address, and the balance of each funded account.
pub ghost struct LedgerView {
    pub program: Seq<u8>,
    pub configs: Map<Seq<u8>, LicenseConfig>,
    pub licenses: Map<Seq<u8>, ActiveLicense>,
    pub balances: Map<Seq<u8>, u64>,
}

impl LedgerView {
    /// The balance of an account; an account never funded holds nothing.
    pub open spec fn balance(self, a: Seq<u8>) -> u64 {
        if self.balances.contains_key(a) {
            self.balances[a]
        } else {
            0
        }
    }

    /// Whether a record of either kind is stored at `a`.
    pub open spec fn occupied(self, a: Seq<u8>) -> bool {
        self.configs.contains_key(a) || self.licenses.contains_key(a)
    }

    /// Each address holds at most one record, and each record sits at the
    /// address derived from its own seeds and bump.
    pub open spec fn wf(self) -> bool {
        &&& forall|a: Seq<u8>| #[trigger]
            self.configs.contains_key(a) ==> !self.licenses.contains_key(a)
        &&& forall|a: Seq<u8>| #[trigger]
            self.configs.contains_key(a) ==> {
                &&& self.configs[a].platform_fee_bps <= BPS_DENOMINATOR
                &&& program_address(with_bump(config_seeds(), self.configs[a].bump), self.program)
                    == Some(a)
            }
        &&& forall|a: Seq<u8>| #[trigger]
            self.licenses.contains_key(a) ==> program_address(
                with_bump(
                    license_seeds(self.licenses[a].mint_manager@, self.licenses[a].licensee@),
                    self.licenses[a].bump,
                ),
                self.program,
            ) == Some(a)
    }
}

/// The host ledger of one program: its records and the accounts' balances.
pub struct Ledger {
    program_id: Address,
    configs: AccountTable<LicenseConfig>,
    licenses: AccountTable<ActiveLicense>,
    balances: AccountTable<u64>,
}

impl View for Ledger {
    type V = LedgerView;

    closed spec fn view(&self) -> LedgerView {
        LedgerView {
            program: self.program_id@,
            configs: self.configs@,
            licenses: self.licenses@,
            balances: self.balances@,
        }
    }
}

impl Ledger {
    /// The record tables keep one entry per address.
    pub closed spec fn tables_wf(&self) -> bool {
        self.configs.wf() && self.licenses.wf() && self.balances.wf()
    }

    pub open spec fn wf(&self) -> bool {
        self.tables_wf() && self@.wf()
    }

    /// An empty ledger for the program `program_id`.
    pub fn new(program_id: Address) -> (r: Ledger)
        ensures
            r.wf(),
            r@.program == program_id@,
            r@.configs == Map::<Seq<u8>, LicenseConfig>::empty(),
            r@.licenses == Map::<Seq<u8>, ActiveLicense>::empty(),
            r@.balances == Map::<Seq<u8>, u64>::empty(),
    {
        Ledger {
            program_id,
            configs: AccountTable::new(),
            licenses: AccountTable::new(),
            balances: AccountTable::new(),
        }
    }

    pub fn program_id(&self) -> (r: Address)
        ensures
            r@ == self@.program,
    {
        self.program_id
    }

    /// The balance of `a`, in lamports.
    pub fn balance(&self, a: &Address) -> (r: u64)
        requires
            self.wf(),
        ensures
            r == self@.balance(a@),
    {
        match self.balances.get(a) {
            Some(b) => *b,
            None => 0,
        }
    }

    /// The fee configuration stored at `a`, if any.
    pub fn config_at(&self, a: &Address) -> (r: Option<LicenseConfig>)
        requires
            self.wf(),
        ensures
            match r {
                Some(c) => self@.configs.contains_key(a@) && self@.configs[a@] == c,
                None => !self@.configs.contains_key(a@),
            },
    {
        match self.configs.get(a) {
            Some(c) => Some(*c),
            None => None,
        }
    }

    /// The license record stored at `a`, if any.
    pub fn license_at(&self, a: &Address) -> (r: Option<ActiveLicense>)
        requires
            self.wf(),
        ensures
            match r {
                Some(l) => self@.licenses.contains_key(a@) && self@.licenses[a@] == l,
                None => !self@.licenses.contains_key(a@),
            },
    {
        match self.licenses.get(a) {
            Some(l) => Some(*l),
            None => None,
        }
    }

    /// Whether a record of either kind is stored at `a`.
    pub fn is_occupied(&self, a: &Address) -> (r: bool)
        requires
            self.wf(),
        ensures
            r == self@.occupied(a@),
    {
        self.configs.contains(a) || self.licenses.contains(a)
    }

    /// Credits `amount` lamports to `a`; refused where the balance would overflow.
    pub fn airdrop(&mut self, a: Address, amount: u64) -> (r: bool)
        requires
            old(self).wf(),
        ensures
            final(self).wf(),
            r == (old(self)@.balance(a@) + amount <= u64::MAX),
            r ==> final(self)@ == (LedgerView {
                balances: old(self)@.balances.insert(a@, (old(self)@.balance(a@) + amount) as u64),
                ..old(self)@
            }),
            !r ==> final(self)@ == old(self)@,
    {
        let b = self.balance(&a);
        if b > u64::MAX - amount {
            false
        } else {
            self.set_balance(a, b + amount);
            true
        }
    }

    /// Sets the balance of `a`.
    pub(crate) fn set_balance(&mut self, a: Address, amount: u64)
        requires
            old(self).wf(),
        ensures
            final(self).wf(),
            final(self)@ == (LedgerView {
                balances: old(self)@.balances.insert(a@, amount),
                ..old(self)@
            }),
    {
        self.balances.insert(a, amount);
    }

    /// Stores a fee configuration at the free address that its bump derives.
    pub(crate) fn create_config(&mut self, a: Address, c: LicenseConfig)
        requires
            old(self).wf(),
            !old(self)@.occupied(a@),
            c.platform_fee_bps <= BPS_DENOMINATOR,
            program_address(with_bump(config_seeds(), c.bump), old(self)@.program) == Some(a@),
        ensures
            final(self).wf(),
            final(self)@ == (LedgerView { configs: old(self)@.configs.insert(a@, c), ..old(self)@ }),
    {
        self.configs.insert(a, c);
    }

    /// Stores a license record at the free address that its seeds and bump derive.
    pub(crate) fn create_license(&mut self, a: Address, l: ActiveLicense)
        requires
            old(self).wf(),
            !old(self)@.occupied(a@),
            program_address(
                with_bump(license_seeds(l.mint_manager@, l.licensee@), l.bump),
                old(self)@.program,
            ) == Some(a@),
        ensures
            final(self).wf(),
            final(self)@ == (LedgerView { licenses: old(self)@.licenses.insert(a@, l), ..old(self)@ }),
    {
        self.licenses.insert(a, l);
    }
}

} // verus!
