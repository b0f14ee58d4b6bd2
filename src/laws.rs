//! Properties of the license lifecycle that hold for every ledger.

use vstd::prelude::*;

use crate::address::Address;
use crate::derivation::{canonical_address, config_seeds, license_seeds};
use crate::errors::{LicenseError, TransactionError};
use crate::instructions::initialize_config::{initialize_outcome, LicenseConfigInitialized};
use crate::instructions::purchase_license::{
    config_is_valid,
    purchase_error,
    purchase_outcome,
    purchased,
    LicensePurchased,
};
use crate::instructions::verify_license::verify_error;
use crate::ledger::LedgerView;

verus! {

/// Initialization succeeds on a ledger whose configuration address is
/// derivable and free when the authority can pay for the record; once it has
/// succeeded, every later initialization, by any caller, fails with
/// `AlreadyInitialized` and leaves the ledger as it was.
pub proof fn initialize_succeeds_exactly_once(
    s: LedgerView,
    authority: Address,
    storage_cost: u64,
    now: i64,
    later_caller: Address,
    later_storage_cost: u64,
    later_now: i64,
)
    requires
        s.wf(),
        canonical_address(config_seeds(), s.program) is Some,
        !s.occupied(canonical_address(config_seeds(), s.program)->Some_0.0),
        s.balance(authority@) >= storage_cost,
    ensures
        initialize_outcome(s, authority, storage_cost, now).1 is Ok,
        ({
            let t = initialize_outcome(s, authority, storage_cost, now).0;
            initialize_outcome(t, later_caller, later_storage_cost, later_now) == (
                t,
                Err::<LicenseConfigInitialized, TransactionError>(
                    TransactionError::License(LicenseError::AlreadyInitialized),
                ),
            )
        }),
{
}

/// Once a purchase of the license of `licensee` for `mint_manager` has
/// succeeded, every later purchase for the same pair fails and leaves the
/// ledger as it was: with `LicenseAlreadyExists` whenever it names a valid
/// configuration.
pub proof fn purchase_succeeds_at_most_once(
    s: LedgerView,
    licensee: Address,
    config: Seq<u8>,
    mint_manager: Address,
    storage_cost: u64,
    now: i64,
    later_config: Seq<u8>,
    later_storage_cost: u64,
    later_now: i64,
)
    requires
        s.wf(),
        purchase_error(s, licensee@, config, mint_manager@, storage_cost) is None,
    ensures
        ({
            let t = purchased(s, licensee, config, mint_manager, storage_cost, now);
            let again = purchase_outcome(
                t,
                licensee,
                later_config,
                mint_manager,
                later_storage_cost,
                later_now,
            );
            &&& again.0 == t
            &&& again.1 is Err
            &&& config_is_valid(t, later_config) ==> again.1 == Err::<LicensePurchased, TransactionError>(
                TransactionError::License(LicenseError::LicenseAlreadyExists),
            )
        }),
{
}

/// A successful purchase takes the configured fee and the storage cost from
/// the licensee, gives exactly the fee to the resource owner, and leaves every
/// other balance as it was.
pub proof fn purchase_moves_exactly_the_fee(
    s: LedgerView,
    licensee: Address,
    config: Seq<u8>,
    mint_manager: Address,
    storage_cost: u64,
    now: i64,
    other: Seq<u8>,
)
    requires
        s.wf(),
        purchase_error(s, licensee@, config, mint_manager@, storage_cost) is None,
        licensee@ != mint_manager@,
    ensures
        ({
            let t = purchased(s, licensee, config, mint_manager, storage_cost, now);
            let fee = s.configs[config].default_fee;
            &&& t.balance(licensee@) == s.balance(licensee@) - fee - storage_cost
            &&& t.balance(mint_manager@) == s.balance(mint_manager@) + fee
            &&& (other != licensee@ && other != mint_manager@) ==> t.balance(other) == s.balance(other)
        }),
{
}

/// Verification succeeds exactly when the presented record exists, is
/// active, and names both the caller and the resource; each failed check
/// yields its own error.
pub proof fn verify_succeeds_iff_bound(
    s: LedgerView,
    licensee: Seq<u8>,
    mint_manager: Seq<u8>,
    license: Seq<u8>,
)
    requires
        s.wf(),
    ensures
        verify_error(s, licensee, mint_manager, license) is None <==> {
            &&& s.licenses.contains_key(license)
            &&& s.licenses[license].is_active
            &&& s.licenses[license].licensee@ == licensee
            &&& s.licenses[license].mint_manager@ == mint_manager
        },
        !s.licenses.contains_key(license) ==> verify_error(s, licensee, mint_manager, license)
            == Some(TransactionError::AccountMismatch),
        s.licenses.contains_key(license) && !s.licenses[license].is_active ==> verify_error(
            s,
            licensee,
            mint_manager,
            license,
        ) == Some(TransactionError::License(LicenseError::LicenseInactive)),
        s.licenses.contains_key(license) && s.licenses[license].is_active
            && s.licenses[license].licensee@ != licensee ==> verify_error(
            s,
            licensee,
            mint_manager,
            license,
        ) == Some(TransactionError::License(LicenseError::InvalidLicensee)),
        s.licenses.contains_key(license) && s.licenses[license].is_active
            && s.licenses[license].licensee@ == licensee && s.licenses[license].mint_manager@
            != mint_manager ==> verify_error(s, licensee, mint_manager, license) == Some(
            TransactionError::License(LicenseError::VerificationFailed),
        ),
{
}

/// A first purchase under a valid configuration by a licensee whose balance
/// is below the fee plus the storage cost fails with `InsufficientFunds` and
/// leaves the ledger, records and balances alike, as it was.
pub proof fn purchase_needs_fee_and_storage(
    s: LedgerView,
    licensee: Address,
    config: Seq<u8>,
    mint_manager: Address,
    storage_cost: u64,
    now: i64,
)
    requires
        s.wf(),
        config_is_valid(s, config),
        canonical_address(license_seeds(mint_manager@, licensee@), s.program) is Some,
        !s.occupied(canonical_address(license_seeds(mint_manager@, licensee@), s.program)->Some_0.0),
        s.balance(licensee@) < s.configs[config].default_fee + storage_cost,
    ensures
        purchase_outcome(s, licensee, config, mint_manager, storage_cost, now) == (
            s,
            Err::<LicensePurchased, TransactionError>(
                TransactionError::License(LicenseError::InsufficientFunds),
            ),
        ),
{
}

} // verus!
