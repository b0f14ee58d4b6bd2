//! Instruction processing: the entry point named by the instruction data,
//! run on the accounts listed in the order that the entry point fixes.

use vstd::prelude::*;

use crate::address::Address;
use crate::derivation::{
    canonical_address,
    config_seeds,
    find_config_address,
    find_license_address,
    license_seeds,
};
use crate::errors::TransactionError;
use crate::instructions::initialize_config::{
    initialize_license_config_handler,
    initialize_outcome,
    InitializeConfig,
    LicenseConfigInitialized,
};
use crate::instructions::purchase_license::{
    purchase_license_handler,
    purchase_outcome,
    LicensePurchased,
    PurchaseLicense,
};
use crate::instructions::verify_license::{
    verify_license_handler,
    verify_outcome,
    LicenseVerified,
    VerifyLicense,
};
use crate::layout::{decode_operation, selected_operation, Operation};
use crate::ledger::{Ledger, LedgerView};

verus! {

/// What a processed instruction reports.
#[derive(Clone, Copy, Debug)]
pub enum ProgramEvent {
    ConfigInitialized(LicenseConfigInitialized),
    LicensePurchased(LicensePurchased),
    LicenseVerified(LicenseVerified),
}

/// How many accounts an entry point takes: initialization the authority,
/// the configuration and the system program; a purchase the licensee, the
/// configuration, the resource owner, the license and the system program;
/// a verification the licensee, the resource owner and the license.
pub open spec fn account_count(op: Operation) -> nat {
    match op {
        Operation::InitializeLicenseConfig => 3,
        Operation::PurchaseLicense => 5,
        Operation::VerifyLicense => 3,
    }
}

/// The ledger and the result of processing `data` with `accounts` on `s`.
pub open spec fn process_outcome(
    s: LedgerView,
    data: Seq<u8>,
    accounts: Seq<Address>,
    storage_cost: u64,
    now: i64,
) -> (LedgerView, Result<ProgramEvent, TransactionError>) {
    match selected_operation(data) {
        None => (s, Err(TransactionError::UnknownInstruction)),
        Some(op) => if accounts.len() < account_count(op) {
            (s, Err(TransactionError::MissingAccounts))
        } else {
            match op {
                Operation::InitializeLicenseConfig => match canonical_address(config_seeds(), s.program) {
                    Some((a, _)) => if a != accounts[1]@ {
                        (s, Err(TransactionError::AccountMismatch))
                    } else {
                        let (t, r) = initialize_outcome(s, accounts[0], storage_cost, now);
                        (
                            t,
                            match r {
                                Ok(e) => Ok(ProgramEvent::ConfigInitialized(e)),
                                Err(e) => Err(e),
                            },
                        )
                    },
                    None => (s, Err(TransactionError::AccountMismatch)),
                },
                Operation::PurchaseLicense => match canonical_address(
                    license_seeds(accounts[2]@, accounts[0]@),
                    s.program,
                ) {
                    Some((a, _)) => if a != accounts[3]@ {
                        (s, Err(TransactionError::AccountMismatch))
                    } else {
                        let (t, r) = purchase_outcome(
                            s,
                            accounts[0],
                            accounts[1]@,
                            accounts[2],
                            storage_cost,
                            now,
                        );
                        (
                            t,
                            match r {
                                Ok(e) => Ok(ProgramEvent::LicensePurchased(e)),
                                Err(e) => Err(e),
                            },
                        )
                    },
                    None => (s, Err(TransactionError::AccountMismatch)),
                },
                Operation::VerifyLicense => (
                    s,
                    match verify_outcome(s, accounts[0], accounts[1], accounts[2]@, now) {
                        Ok(e) => Ok(ProgramEvent::LicenseVerified(e)),
                        Err(e) => Err(e),
                    },
                ),
            }
        },
    }
}

/// Runs the entry point that `data` names on `accounts`, after checking that
/// each record to be created is passed at its derived address.
pub fn process_instruction(
    ledger: &mut Ledger,
    data: &[u8],
    accounts: &[Address],
    storage_cost: u64,
    now: i64,
) -> (r: Result<ProgramEvent, TransactionError>)
    requires
        old(ledger).wf(),
    ensures
        final(ledger).wf(),
        (final(ledger)@, r) == process_outcome(old(ledger)@, data@, accounts@, storage_cost, now),
{
    let op = match decode_operation(data) {
        Some(op) => op,
        None => return Err(TransactionError::UnknownInstruction),
    };
    match op {
        Operation::InitializeLicenseConfig => {
            if accounts.len() < 3 {
                return Err(TransactionError::MissingAccounts);
            }
            let program = ledger.program_id();
            match find_config_address(&program) {
                Some((a, _)) => {
                    if !a.same_as(&accounts[1]) {
                        return Err(TransactionError::AccountMismatch);
                    }
                },
                None => return Err(TransactionError::AccountMismatch),
            }
            let ctx = InitializeConfig { authority: accounts[0] };
            match initialize_license_config_handler(ledger, &ctx, storage_cost, now) {
                Ok(e) => Ok(ProgramEvent::ConfigInitialized(e)),
                Err(e) => Err(e),
            }
        },
        Operation::PurchaseLicense => {
            if accounts.len() < 5 {
                return Err(TransactionError::MissingAccounts);
            }
            let program = ledger.program_id();
            match find_license_address(&program, &accounts[2], &accounts[0]) {
                Some((a, _)) => {
                    if !a.same_as(&accounts[3]) {
                        return Err(TransactionError::AccountMismatch);
                    }
                },
                None => return Err(TransactionError::AccountMismatch),
            }
            let ctx = PurchaseLicense {
                licensee: accounts[0],
                license_config: accounts[1],
                mint_manager: accounts[2],
            };
            match purchase_license_handler(ledger, &ctx, storage_cost, now) {
                Ok(e) => Ok(ProgramEvent::LicensePurchased(e)),
                Err(e) => Err(e),
            }
        },
        Operation::VerifyLicense => {
            if accounts.len() < 3 {
                return Err(TransactionError::MissingAccounts);
            }
            let ctx = VerifyLicense {
                licensee: accounts[0],
                mint_manager: accounts[1],
                active_license: accounts[2],
            };
            match verify_license_handler(ledger, &ctx, now) {
                Ok(e) => Ok(ProgramEvent::LicenseVerified(e)),
                Err(e) => Err(e),
            }
        },
    }
}

} // verus!
