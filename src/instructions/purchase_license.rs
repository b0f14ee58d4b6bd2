use vstd::prelude::*;

use crate::address::Address;
use crate::derivation::{
    canonical_address,
    config_address_with_bump,
    config_seeds,
    find_license_address,
    lemma_canonical_is_valid,
    license_seeds,
    program_address,
    with_bump,
};
use crate::errors::{LicenseError, TransactionError};
use crate::ledger::{Ledger, LedgerView};
use crate::state::{ActiveLicense, BPS_DENOMINATOR};

verus! {

/// The accounts of a purchase: the paying licensee, the fee configuration it
/// refers to, and the resource owner who receives the fee.
#[derive(Clone, Copy, Debug)]
pub struct PurchaseLicense {
    pub licensee: Address,
    pub license_config: Address,
    pub mint_manager: Address,
}

/// What a successful purchase reports.
#[derive(Clone, Copy, Debug)]
pub struct LicensePurchased {
    pub mint_manager: Address,
    pub licensee: Address,
    pub purchase_amount: u64,
    pub platform_fee: u64,
    pub creator_fee: u64,
    pub timestamp: i64,
}

/// The platform's share of `total_fee`: `platform_fee_bps` basis points,
/// rounded down.
pub open spec fn platform_share(total_fee: u64, platform_fee_bps: u16) -> int {
    (total_fee * platform_fee_bps) / (BPS_DENOMINATOR as int)
}

/// Splits `total_fee` into the platform's share and the creator's rest.
pub fn fee_split(total_fee: u64, platform_fee_bps: u16) -> (r: (u64, u64))
    requires
        platform_fee_bps <= BPS_DENOMINATOR,
    ensures
        r.0 == platform_share(total_fee, platform_fee_bps),
        r.1 == total_fee - r.0,
{
    proof {
        let t = total_fee as int;
        let b = platform_fee_bps as int;
        assert(t * b <= t * 10000) by (nonlinear_arith)
            requires
                0 <= t,
                0 <= b <= 10000,
        ;
        assert((t * b) / 10000 <= t) by (nonlinear_arith)
            requires
                0 <= t * b <= t * 10000,
                0 <= t,
        ;
        assert(t * 10000 <= u64::MAX * 10000) by (nonlinear_arith)
            requires
                0 <= t <= u64::MAX,
        ;
    }
    let product: u128 = (total_fee as u128) * (platform_fee_bps as u128);
    let platform: u128 = product / (BPS_DENOMINATOR as u128);
    let platform_fee = platform as u64;
    (platform_fee, total_fee - platform_fee)
}

/// The ledger after `amount` is taken from `payer`.
pub open spec fn debited(s: LedgerView, payer: Seq<u8>, amount: int) -> LedgerView {
    LedgerView { balances: s.balances.insert(payer, (s.balance(payer) - amount) as u64), ..s }
}

/// The ledger after `payer` pays `cost` to the host and `fee` to `payee`.
pub open spec fn paid(s: LedgerView, payer: Seq<u8>, payee: Seq<u8>, fee: u64, cost: u64) -> LedgerView {
    let debited = debited(s, payer, fee + cost);
    LedgerView {
        balances: debited.balances.insert(payee, (debited.balance(payee) + fee) as u64),
        ..debited
    }
}

/// Whether `config` holds a fee configuration at the address that its own bump derives.
pub open spec fn config_is_valid(s: LedgerView, config: Seq<u8>) -> bool {
    &&& s.configs.contains_key(config)
    &&& program_address(with_bump(config_seeds(), s.configs[config].bump), s.program) == Some(
        config,
    )
}

/// Why a purchase fails on `s`, if it does, checked in this order: the
/// configuration is missing or misplaced, the license address cannot be
/// derived, the license already exists, the licensee cannot pay the fee and
/// the storage cost, or the owner's balance would overflow.
pub open spec fn purchase_error(
    s: LedgerView,
    licensee: Seq<u8>,
    config: Seq<u8>,
    mint_manager: Seq<u8>,
    storage_cost: u64,
) -> Option<TransactionError> {
    if !config_is_valid(s, config) {
        Some(TransactionError::License(LicenseError::InvalidConfig))
    } else {
        let fee = s.configs[config].default_fee;
        match canonical_address(license_seeds(mint_manager, licensee), s.program) {
            None => Some(TransactionError::AccountMismatch),
            Some((a, _)) => if s.occupied(a) {
                Some(TransactionError::License(LicenseError::LicenseAlreadyExists))
            } else if s.balance(licensee) < fee + storage_cost {
                Some(TransactionError::License(LicenseError::InsufficientFunds))
            } else if debited(s, licensee, fee + storage_cost).balance(mint_manager) + fee
                > u64::MAX {
                Some(TransactionError::LamportOverflow)
            } else {
                None
            },
        }
    }
}

/// The ledger after a successful purchase: the fee paid to the owner, the
/// storage cost to the host, and an active license at its canonical address.
pub open spec fn purchased(
    s: LedgerView,
    licensee: Address,
    config: Seq<u8>,
    mint_manager: Address,
    storage_cost: u64,
    now: i64,
) -> LedgerView {
    let fee = s.configs[config].default_fee;
    match canonical_address(license_seeds(mint_manager@, licensee@), s.program) {
        Some((a, b)) => {
            let p = paid(s, licensee@, mint_manager@, fee, storage_cost);
            LedgerView {
                licenses: p.licenses.insert(
                    a,
                    ActiveLicense::purchased(mint_manager, licensee, fee, now, b),
                ),
                ..p
            }
        },
        None => s,
    }
}

/// What a successful purchase reports on `s`.
pub open spec fn purchase_event(
    s: LedgerView,
    licensee: Address,
    config: Seq<u8>,
    mint_manager: Address,
    now: i64,
) -> LicensePurchased {
    let c = s.configs[config];
    LicensePurchased {
        mint_manager,
        licensee,
        purchase_amount: c.default_fee,
        platform_fee: platform_share(c.default_fee, c.platform_fee_bps) as u64,
        creator_fee: (c.default_fee - platform_share(c.default_fee, c.platform_fee_bps)) as u64,
        timestamp: now,
    }
}

/// The ledger and the result of a purchase on `s`.
pub open spec fn purchase_outcome(
    s: LedgerView,
    licensee: Address,
    config: Seq<u8>,
    mint_manager: Address,
    storage_cost: u64,
    now: i64,
) -> (LedgerView, Result<LicensePurchased, TransactionError>) {
    match purchase_error(s, licensee@, config, mint_manager@, storage_cost) {
        Some(e) => (s, Err(e)),
        None => (
            purchased(s, licensee, config, mint_manager, storage_cost, now),
            Ok(purchase_event(s, licensee, config, mint_manager, now)),
        ),
    }
}

/// Buys the license of the licensee for the resource `mint_manager`: moves
/// the configured fee to the owner, charges `storage_cost` for the new
/// record, and records the purchase at time `now`.
pub fn purchase_license_handler(
    ledger: &mut Ledger,
    ctx: &PurchaseLicense,
    storage_cost: u64,
    now: i64,
) -> (r: Result<LicensePurchased, TransactionError>)
    requires
        old(ledger).wf(),
    ensures
        final(ledger).wf(),
        (final(ledger)@, r) == purchase_outcome(
            old(ledger)@,
            ctx.licensee,
            ctx.license_config@,
            ctx.mint_manager,
            storage_cost,
            now,
        ),
{
    let program = ledger.program_id();
    let config = match ledger.config_at(&ctx.license_config) {
        Some(c) => c,
        None => return Err(TransactionError::License(LicenseError::InvalidConfig)),
    };
    match config_address_with_bump(&program, config.bump) {
        Some(a) => {
            if !a.same_as(&ctx.license_config) {
                return Err(TransactionError::License(LicenseError::InvalidConfig));
            }
        },
        None => return Err(TransactionError::License(LicenseError::InvalidConfig)),
    }
    let (address, bump) = match find_license_address(&program, &ctx.mint_manager, &ctx.licensee) {
        Some(found) => found,
        None => return Err(TransactionError::AccountMismatch),
    };
    if ledger.is_occupied(&address) {
        return Err(TransactionError::License(LicenseError::LicenseAlreadyExists));
    }
    let total_fee = config.default_fee;
    let funds = ledger.balance(&ctx.licensee);
    if funds < total_fee || funds - total_fee < storage_cost {
        return Err(TransactionError::License(LicenseError::InsufficientFunds));
    }
    let remaining = funds - total_fee - storage_cost;
    let owner_funds = if ctx.mint_manager.same_as(&ctx.licensee) {
        remaining
    } else {
        ledger.balance(&ctx.mint_manager)
    };
    if owner_funds > u64::MAX - total_fee {
        return Err(TransactionError::LamportOverflow);
    }
    let (platform_fee, creator_fee) = fee_split(total_fee, config.platform_fee_bps);
    proof {
        lemma_canonical_is_valid(license_seeds(ctx.mint_manager@, ctx.licensee@), program@, 255);
    }
    ledger.set_balance(ctx.licensee, remaining);
    ledger.set_balance(ctx.mint_manager, owner_funds + total_fee);
    let mut record = ActiveLicense::default();
    record.init(ctx.mint_manager, ctx.licensee, total_fee, now, bump);
    ledger.create_license(address, record);
    Ok(
        LicensePurchased {
            mint_manager: ctx.mint_manager,
            licensee: ctx.licensee,
            purchase_amount: total_fee,
            platform_fee,
            creator_fee,
            timestamp: now,
        },
    )
}

} // verus!
