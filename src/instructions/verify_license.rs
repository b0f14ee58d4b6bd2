use vstd::prelude::*;

use crate::address::Address;
use crate::derivation::{license_address_with_bump, license_seeds, program_address, with_bump};
use crate::errors::{LicenseError, TransactionError};
use crate::ledger::{Ledger, LedgerView};

verus! {

/// The accounts of a verification: the caller, the resource, and the license
/// record that the caller presents.
#[derive(Clone, Copy, Debug)]
pub struct VerifyLicense {
    pub licensee: Address,
    pub mint_manager: Address,
    pub active_license: Address,
}

/// What a successful verification reports.
#[derive(Clone, Copy, Debug)]
pub struct LicenseVerified {
    pub mint_manager: Address,
    pub licensee: Address,
    pub verification_date: i64,
    pub license_purchase_date: i64,
}

/// Why verification fails on `s`, if it does, checked in this order: no
/// record at `license` or one not at its derived address, an inactive
/// record, another licensee, another resource.
pub open spec fn verify_error(s: LedgerView, licensee: Seq<u8>, mint_manager: Seq<u8>, license: Seq<u8>) -> Option<TransactionError> {
    if !s.licenses.contains_key(license) {
        Some(TransactionError::AccountMismatch)
    } else {
        let l = s.licenses[license];
        if program_address(with_bump(license_seeds(l.mint_manager@, l.licensee@), l.bump), s.program)
            != Some(license) {
            Some(TransactionError::AccountMismatch)
        } else if !l.is_active {
            Some(TransactionError::License(LicenseError::LicenseInactive))
        } else if l.licensee@ != licensee {
            Some(TransactionError::License(LicenseError::InvalidLicensee))
        } else if l.mint_manager@ != mint_manager {
            Some(TransactionError::License(LicenseError::VerificationFailed))
        } else {
            None
        }
    }
}

/// The result of a verification on `s`.
pub open spec fn verify_outcome(
    s: LedgerView,
    licensee: Address,
    mint_manager: Address,
    license: Seq<u8>,
    now: i64,
) -> Result<LicenseVerified, TransactionError> {
    match verify_error(s, licensee@, mint_manager@, license) {
        Some(e) => Err(e),
        None => Ok(
            LicenseVerified {
                mint_manager,
                licensee,
                verification_date: now,
                license_purchase_date: s.licenses[license].purchase_date,
            },
        ),
    }
}

/// Confirms that the presented license is active and belongs to the caller
/// for the given resource, at time `now`; the ledger is only read.
pub fn verify_license_handler(ledger: &Ledger, ctx: &VerifyLicense, now: i64) -> (r: Result<LicenseVerified, TransactionError>)
    requires
        ledger.wf(),
    ensures
        r == verify_outcome(ledger@, ctx.licensee, ctx.mint_manager, ctx.active_license@, now),
{
    let record = match ledger.license_at(&ctx.active_license) {
        Some(l) => l,
        None => return Err(TransactionError::AccountMismatch),
    };
    let program = ledger.program_id();
    match license_address_with_bump(&program, &record.mint_manager, &record.licensee, record.bump) {
        Some(a) => {
            if !a.same_as(&ctx.active_license) {
                return Err(TransactionError::AccountMismatch);
            }
        },
        None => return Err(TransactionError::AccountMismatch),
    }
    if !record.is_active {
        return Err(TransactionError::License(LicenseError::LicenseInactive));
    }
    if !record.licensee.same_as(&ctx.licensee) {
        return Err(TransactionError::License(LicenseError::InvalidLicensee));
    }
    if !record.mint_manager.same_as(&ctx.mint_manager) {
        return Err(TransactionError::License(LicenseError::VerificationFailed));
    }
    Ok(
        LicenseVerified {
            mint_manager: ctx.mint_manager,
            licensee: ctx.licensee,
            verification_date: now,
            license_purchase_date: record.purchase_date,
        },
    )
}

} // verus!
