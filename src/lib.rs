//! A fee-gated licensing ledger: a singleton fee configuration, one license
//! record per (resource, licensee) pair, and a read-only verification step,
//! all stored at deterministically derived addresses.

pub mod address;
pub mod derivation;
pub mod table;
pub mod errors;
pub mod state;
pub mod ledger;
pub mod instructions;
pub mod laws;
pub mod layout;
pub mod processor;
pub mod registry;

use vstd::prelude::*;

use crate::errors::TransactionError;
use crate::instructions::initialize_config::{
    initialize_license_config_handler,
    initialize_outcome,
    InitializeConfig,
    LicenseConfigInitialized,
};
use crate::instructions::purchase_license::{
    purchase_license_handler,
    purchase_outcome,
    LicensePurchased,
    PurchaseLicense,
};
use crate::instructions::verify_license::{
    verify_license_handler,
    verify_outcome,
    LicenseVerified,
    VerifyLicense,
};
use crate::ledger::Ledger;

verus! {

/// Entry point: creates the fee configuration (see
/// `initialize_license_config_handler`).
pub fn initialize_license_config(
    ledger: &mut Ledger,
    ctx: &InitializeConfig,
    storage_cost: u64,
    now: i64,
) -> (r: Result<LicenseConfigInitialized, TransactionError>)
    requires
        old(ledger).wf(),
    ensures
        final(ledger).wf(),
        (final(ledger)@, r) == initialize_outcome(old(ledger)@, ctx.authority, storage_cost, now),
{
    initialize_license_config_handler(ledger, ctx, storage_cost, now)
}

/// Entry point: buys a license (see `purchase_license_handler`).
pub fn purchase_license(
    ledger: &mut Ledger,
    ctx: &PurchaseLicense,
    storage_cost: u64,
    now: i64,
) -> (r: Result<LicensePurchased, TransactionError>)
    requires
        old(ledger).wf(),
    ensures
        final(ledger).wf(),
        (final(ledger)@, r) == purchase_outcome(
            old(ledger)@,
            ctx.licensee,
            ctx.license_config@,
            ctx.mint_manager,
            storage_cost,
            now,
        ),
{
    purchase_license_handler(ledger, ctx, storage_cost, now)
}

/// Entry point: verifies a license (see `verify_license_handler`).
pub fn verify_license(ledger: &Ledger, ctx: &VerifyLicense, now: i64) -> (r: Result<LicenseVerified, TransactionError>)
    requires
        ledger.wf(),
    ensures
        r == verify_outcome(ledger@, ctx.licensee, ctx.mint_manager, ctx.active_license@, now),
{
    verify_license_handler(ledger, ctx, now)
}

} // verus!
