use vstd::prelude::*;

use crate::address::Address;
use crate::derivation::{canonical_address, config_seeds, find_config_address, lemma_canonical_is_valid};
use crate::errors::{LicenseError, TransactionError};
use crate::ledger::{Ledger, LedgerView};
use crate::state::{LicenseConfig, DEFAULT_FEE, DEFAULT_PLATFORM_FEE_BPS};

verus! {

/// The accounts of an initialization: the paying caller, who becomes the authority.
#[derive(Clone, Copy, Debug)]
pub struct InitializeConfig {
    pub authority: Address,
}

/// What a successful initialization reports.
#[derive(Clone, Copy, Debug)]
pub struct LicenseConfigInitialized {
    pub authority: Address,
    pub default_fee: u64,
    pub platform_fee_bps: u16,
    pub timestamp: i64,
}

/// Why initialization fails on `s`, if it does: the configuration address
/// cannot be derived, is already occupied, or the authority cannot pay for
/// the record's storage.
pub open spec fn initialize_error(s: LedgerView, authority: Seq<u8>, storage_cost: u64) -> Option<TransactionError> {
    match canonical_address(config_seeds(), s.program) {
        None => Some(TransactionError::AccountMismatch),
        Some((a, _)) => if s.occupied(a) {
            Some(TransactionError::License(LicenseError::AlreadyInitialized))
        } else if s.balance(authority) < storage_cost {
            Some(TransactionError::License(LicenseError::InsufficientFunds))
        } else {
            None
        },
    }
}

/// The ledger after a successful initialization: the fresh configuration at
/// its canonical address, and the storage cost taken from the authority.
pub open spec fn initialized(s: LedgerView, authority: Address, storage_cost: u64) -> LedgerView {
    match canonical_address(config_seeds(), s.program) {
        Some((a, b)) => LedgerView {
            configs: s.configs.insert(a, LicenseConfig::initial(authority, b)),
            balances: s.balances.insert(authority@, (s.balance(authority@) - storage_cost) as u64),
            ..s
        },
        None => s,
    }
}

/// The ledger and the result of an initialization by `authority` on `s`.
pub open spec fn initialize_outcome(s: LedgerView, authority: Address, storage_cost: u64, now: i64) -> (
    LedgerView,
    Result<LicenseConfigInitialized, TransactionError>,
) {
    match initialize_error(s, authority@, storage_cost) {
        Some(e) => (s, Err(e)),
        None => (
            initialized(s, authority, storage_cost),
            Ok(
                LicenseConfigInitialized {
                    authority,
                    default_fee: DEFAULT_FEE,
                    platform_fee_bps: DEFAULT_PLATFORM_FEE_BPS,
                    timestamp: now,
                },
            ),
        ),
    }
}

/// Creates the singleton fee configuration with the caller as authority,
/// charging the caller `storage_cost` for the record; `now` is the time of
/// the transaction.
pub fn initialize_license_config_handler(
    ledger: &mut Ledger,
    ctx: &InitializeConfig,
    storage_cost: u64,
    now: i64,
) -> (r: Result<LicenseConfigInitialized, TransactionError>)
    requires
        old(ledger).wf(),
    ensures
        final(ledger).wf(),
        (final(ledger)@, r) == initialize_outcome(old(ledger)@, ctx.authority, storage_cost, now),
{
    let program = ledger.program_id();
    let (address, bump) = match find_config_address(&program) {
        Some(found) => found,
        None => return Err(TransactionError::AccountMismatch),
    };
    if ledger.is_occupied(&address) {
        return Err(TransactionError::License(LicenseError::AlreadyInitialized));
    }
    let funds = ledger.balance(&ctx.authority);
    if funds < storage_cost {
        return Err(TransactionError::License(LicenseError::InsufficientFunds));
    }
    proof {
        lemma_canonical_is_valid(config_seeds(), program@, 255);
    }
    ledger.set_balance(ctx.authority, funds - storage_cost);
    let mut config = LicenseConfig::default();
    config.init(ctx.authority, bump);
    ledger.create_config(address, config);
    Ok(
        LicenseConfigInitialized {
            authority: ctx.authority,
            default_fee: config.default_fee,
            platform_fee_bps: config.platform_fee_bps,
            timestamp: now,
        },
    )
}

} // verus!
