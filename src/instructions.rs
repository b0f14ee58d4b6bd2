//! The program's three operations over the ledger.

pub mod initialize_config;
pub mod purchase_license;
pub mod verify_license;
