use vstd::prelude::*;

verus! {

/// The business errors of the licensing program.
#[derive(Clone, Copy, Debug, PartialEq, Eq, Structural)]
pub enum LicenseError {
    AlreadyInitialized,
    InvalidAuthority,
    InsufficientFunds,
    LicenseInactive,
    MintManagerInUse,
    LicenseExpired,
    InvalidConfig,
    InvalidMintManagerAuthority,
    InvalidPaymentAmount,
    LicenseAlreadyExists,
    VerificationFailed,
    InvalidLicensee,
}

impl LicenseError {
    /// The human-readable message of the error.
    pub fn message(&self) -> (r: &'static str) {
        match self {
            LicenseError::AlreadyInitialized => "License config already initialized",
            LicenseError::InvalidAuthority => "Invalid authority for this operation",
            LicenseError::InsufficientFunds => "Insufficient funds for transaction",
            LicenseError::LicenseInactive => "License is not active",
            LicenseError::MintManagerInUse => "Mint manager is currently in use",
            LicenseError::LicenseExpired => "License has expired",
            LicenseError::InvalidConfig => "Invalid license configuration",
            LicenseError::InvalidMintManagerAuthority => "Invalid mint manager authority",
            LicenseError::InvalidPaymentAmount => "Payment amount does not match license fee",
            LicenseError::LicenseAlreadyExists => "License already exists for this user and content",
            LicenseError::VerificationFailed => "License verification failed",
            LicenseError::InvalidLicensee => "Invalid licensee for this license",
        }
    }
}

/// Why the ledger rejected a transaction: a malformed request, a balance that
/// would overflow, or an error of the program itself.
#[derive(Clone, Copy, Debug, PartialEq, Eq, Structural)]
pub enum TransactionError {
    /// A referenced account is missing or does not sit at its derived address.
    AccountMismatch,
    /// Crediting an account would overflow its balance.
    LamportOverflow,
    /// The instruction data names no entry point.
    UnknownInstruction,
    /// Fewer accounts than the entry point takes.
    MissingAccounts,
    License(LicenseError),
}

} // verus!
