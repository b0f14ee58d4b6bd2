use vstd::prelude::*;

use crate::address::Address;

verus! {

/// Fee charged per purchase by a fresh configuration, in lamports.
pub const DEFAULT_FEE: u64 = 1_000_000;

/// Platform share of a fresh configuration, in basis points.
pub const DEFAULT_PLATFORM_FEE_BPS: u16 = 300;

/// The basis points of the whole fee.
pub const BPS_DENOMINATOR: u64 = 10_000;

impl Default for Address {
    fn default() -> (r: Address)
        ensures
            r@ == Seq::new(32, |i: int| 0u8),
    {
        let r = Address { bytes: [0u8; 32] };
        assert(r@ =~= Seq::new(32, |i: int| 0u8));
        r
    }
}

/// The singleton fee configuration.
#[derive(Clone, Copy, Debug)]
pub struct LicenseConfig {
    pub authority: Address,
    pub default_fee: u64,
    pub platform_fee_bps: u16,
    pub bump: u8,
}

impl LicenseConfig {
    /// Size of the persisted record, with its 8-byte type tag.
    pub const SIZE: usize = 8 + 32 + 8 + 2 + 1;

    /// The configuration that initialization writes.
    pub open spec fn initial(authority: Address, bump: u8) -> LicenseConfig {
        LicenseConfig {
            authority,
            default_fee: DEFAULT_FEE,
            platform_fee_bps: DEFAULT_PLATFORM_FEE_BPS,
            bump,
        }
    }

    /// Fills the record with the caller as authority and the default fees.
    pub fn init(&mut self, authority: Address, bump: u8)
        ensures
            *final(self) == LicenseConfig::initial(authority, bump),
    {
        self.authority = authority;
        self.default_fee = DEFAULT_FEE;
        self.platform_fee_bps = DEFAULT_PLATFORM_FEE_BPS;
        self.bump = bump;
    }
}

impl Default for LicenseConfig {
    fn default() -> (r: LicenseConfig)
        ensures
            r.default_fee == 0,
            r.platform_fee_bps == 0,
            r.bump == 0,
    {
        LicenseConfig { authority: Address::default(), default_fee: 0, platform_fee_bps: 0, bump: 0 }
    }
}

/// A purchased license of `licensee` for the resource `mint_manager`.
#[derive(Clone, Copy, Debug)]
pub struct ActiveLicense {
    pub mint_manager: Address,
    pub licensee: Address,
    pub purchase_amount: u64,
    pub purchase_date: i64,
    pub is_active: bool,
    pub bump: u8,
}

impl ActiveLicense {
    /// Size of the persisted record, with its 8-byte type tag.
    pub const SIZE: usize = 8 + 32 + 32 + 8 + 8 + 1 + 1;

    /// The record that a purchase writes.
    pub open spec fn purchased(
        mint_manager: Address,
        licensee: Address,
        purchase_amount: u64,
        purchase_date: i64,
        bump: u8,
    ) -> ActiveLicense {
        ActiveLicense { mint_manager, licensee, purchase_amount, purchase_date, is_active: true, bump }
    }

    /// Fills the record of a purchase made at `purchase_date`; it starts active.
    pub fn init(
        &mut self,
        mint_manager: Address,
        licensee: Address,
        purchase_amount: u64,
        purchase_date: i64,
        bump: u8,
    )
        ensures
            *final(self) == ActiveLicense::purchased(
                mint_manager,
                licensee,
                purchase_amount,
                purchase_date,
                bump,
            ),
    {
        self.mint_manager = mint_manager;
        self.licensee = licensee;
        self.purchase_amount = purchase_amount;
        self.purchase_date = purchase_date;
        self.is_active = true;
        self.bump = bump;
    }
}

impl Default for ActiveLicense {
    fn default() -> (r: ActiveLicense)
        ensures
            r.purchase_amount == 0,
            r.purchase_date == 0,
            !r.is_active,
            r.bump == 0,
    {
        ActiveLicense {
            mint_manager: Address::default(),
            licensee: Address::default(),
            purchase_amount: 0,
            purchase_date: 0,
            is_active: false,
            bump: 0,
        }
    }
}

} // verus!
