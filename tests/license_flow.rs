use std::str::FromStr;

use anchor_lang::prelude::{Pubkey, Rent};
use license_manager::address::Address;
use license_manager::derivation::{find_config_address, find_license_address};
use license_manager::errors::{LicenseError, TransactionError};
use license_manager::instructions::initialize_config::InitializeConfig;
use license_manager::instructions::purchase_license::{fee_split, PurchaseLicense};
use license_manager::instructions::verify_license::VerifyLicense;
use license_manager::ledger::Ledger;
use license_manager::state::{ActiveLicense, LicenseConfig};
use license_manager::{initialize_license_config, purchase_license, verify_license};

const PROGRAM_ID: &str = "46768WTgs123tGwaS1XJ4dVd8eSUheh3rSvzkuBVM4y5";
const NOW: i64 = 1_700_000_000;

fn program_id() -> Address {
    Address::new(Pubkey::from_str(PROGRAM_ID).unwrap().to_bytes())
}

fn key(n: u8) -> Address {
    Address::new([n; 32])
}

fn config_rent() -> u64 {
    Rent::default().minimum_balance(LicenseConfig::SIZE)
}

fn license_rent() -> u64 {
    Rent::default().minimum_balance(ActiveLicense::SIZE)
}

/// A ledger with a funded authority that has initialized the configuration,
/// and a funded licensee.
fn setup_with_config() -> (Ledger, Address, Address) {
    let mut ledger = Ledger::new(program_id());
    let authority = key(1);
    let licensee = key(2);
    assert!(ledger.airdrop(authority, 10_000_000_000));
    assert!(ledger.airdrop(licensee, 10_000_000_000));
    let ctx = InitializeConfig { authority };
    initialize_license_config(&mut ledger, &ctx, config_rent(), NOW).unwrap();
    let (config, _) = find_config_address(&program_id()).unwrap();
    (ledger, licensee, config)
}

fn purchase(ledger: &mut Ledger, licensee: Address, config: Address, mint_manager: Address) -> Result<license_manager::instructions::purchase_license::LicensePurchased, TransactionError> {
    let ctx = PurchaseLicense { licensee, license_config: config, mint_manager };
    purchase_license(ledger, &ctx, license_rent(), NOW)
}

fn license_address(mint_manager: Address, licensee: Address) -> Address {
    find_license_address(&program_id(), &mint_manager, &licensee).unwrap().0
}

#[test]
fn test_complete_license_flow() {
    let (mut ledger, licensee, config) = setup_with_config();
    let creator = key(3);
    let mint_manager = key(4);
    assert!(ledger.airdrop(creator, 1_000_000_000));
    assert!(ledger.airdrop(mint_manager, 1_000_000_000));
    let active_license = license_address(mint_manager, licensee);

    let before = ledger.balance(&licensee);
    let purchase_result = purchase(&mut ledger, licensee, config, mint_manager);
    assert!(purchase_result.is_ok(), "License purchase failed: {:#?}", purchase_result.err());

    let total_paid = before - ledger.balance(&licensee);
    let license_fee = 1_000_000;
    assert_eq!(total_paid, license_fee + license_rent());

    let record = ledger.license_at(&active_license).expect("license account");
    assert!(record.is_active, "License should be active after purchase");
    assert!(record.licensee == licensee, "Licensee should be stored correctly");
    assert!(record.mint_manager == mint_manager, "Mint manager should be stored correctly");

    let ctx = VerifyLicense { licensee, mint_manager, active_license };
    let verified = verify_license(&ledger, &ctx, NOW + 10);
    assert!(verified.is_ok(), "License verification failed: {:#?}", verified.err());

    let duplicate = purchase(&mut ledger, licensee, config, mint_manager);
    assert!(duplicate.is_err(), "Duplicate purchase should fail");
}

#[test]
fn create_account() {
    let mut ledger = Ledger::new(program_id());
    let account = key(9);
    assert!(ledger.airdrop(account, 1_000_000_000));
    assert_eq!(ledger.balance(&account), 1_000_000_000);
}

#[test]
fn test_initialize_license_config_with_correct_default_values() {
    let mut ledger = Ledger::new(program_id());
    let authority = key(1);
    assert!(ledger.airdrop(authority, 10_000_000_000));
    let ctx = InitializeConfig { authority };
    let result = initialize_license_config(&mut ledger, &ctx, config_rent(), NOW);
    assert!(result.is_ok(), "Transaction failed: {:#?}", result.err());

    let (address, bump) = find_config_address(&program_id()).unwrap();
    let config = ledger.config_at(&address).expect("Account should exist");
    assert!(config.authority == authority, "Authority mismatch");
    assert_eq!(config.default_fee, 1_000_000, "Default fee should be 1_000_000 (0.001 SOL)");
    assert_eq!(config.platform_fee_bps, 300, "Platform fee should be 300 bps (3%)");
    assert_eq!(config.bump, bump);
    assert_eq!(ledger.balance(&authority), 10_000_000_000 - config_rent());

    let event = result.unwrap();
    assert!(event.authority == authority);
    assert_eq!(event.default_fee, 1_000_000);
    assert_eq!(event.platform_fee_bps, 300);
    assert_eq!(event.timestamp, NOW);
}

#[test]
fn test_cannot_initialize_twice() {
    let mut ledger = Ledger::new(program_id());
    let authority = key(1);
    let other = key(5);
    assert!(ledger.airdrop(authority, 10_000_000_000));
    assert!(ledger.airdrop(other, 10_000_000_000));
    let first = initialize_license_config(&mut ledger, &InitializeConfig { authority }, config_rent(), NOW);
    assert!(first.is_ok(), "First initialization should succeed");
    let second = initialize_license_config(&mut ledger, &InitializeConfig { authority }, config_rent(), NOW);
    assert_eq!(
        second.err(),
        Some(TransactionError::License(LicenseError::AlreadyInitialized)),
        "Second initialization should fail - account already exists"
    );
    let third = initialize_license_config(&mut ledger, &InitializeConfig { authority: other }, config_rent(), NOW);
    assert_eq!(third.err(), Some(TransactionError::License(LicenseError::AlreadyInitialized)));
    assert_eq!(ledger.balance(&other), 10_000_000_000);
}

#[test]
fn test_initialize_with_insufficient_lamports() {
    let mut ledger = Ledger::new(program_id());
    let broke_authority = key(6);
    assert!(ledger.airdrop(broke_authority, 1000));
    let result = initialize_license_config(&mut ledger, &InitializeConfig { authority: broke_authority }, config_rent(), NOW);
    assert_eq!(
        result.err(),
        Some(TransactionError::License(LicenseError::InsufficientFunds)),
        "Transaction should fail with insufficient funds"
    );
    let (address, _) = find_config_address(&program_id()).unwrap();
    assert!(ledger.config_at(&address).is_none());
    assert_eq!(ledger.balance(&broke_authority), 1000);
}

#[test]
fn test_purchase_license_success() {
    let (mut ledger, licensee, config) = setup_with_config();
    let mint_manager = key(4);
    assert!(ledger.airdrop(mint_manager, 1_000_000_000));
    let active_license = license_address(mint_manager, licensee);

    let licensee_before = ledger.balance(&licensee);
    let mint_manager_before = ledger.balance(&mint_manager);
    let result = purchase(&mut ledger, licensee, config, mint_manager);
    assert!(result.is_ok(), "License purchase failed: {:#?}", result.err());

    let licensee_total_paid = licensee_before - ledger.balance(&licensee);
    let mint_manager_total_received = ledger.balance(&mint_manager) - mint_manager_before;
    assert_eq!(
        mint_manager_total_received, 1_000_000,
        "Mint manager should have received exactly 1,000,000 lamports"
    );
    assert_eq!(
        licensee_total_paid,
        1_000_000 + license_rent(),
        "Licensee should have paid license fee + rent exemption"
    );

    let record = ledger.license_at(&active_license).expect("Active license account should exist");
    assert!(record.mint_manager == mint_manager);
    assert!(record.licensee == licensee);
    assert_eq!(record.purchase_amount, 1_000_000);
    assert_eq!(record.purchase_date, NOW);
    assert!(record.is_active, "License should be active");

    let event = result.unwrap();
    assert_eq!(event.purchase_amount, 1_000_000);
    assert_eq!(event.platform_fee, 30_000);
    assert_eq!(event.creator_fee, 970_000);
    assert_eq!(event.timestamp, NOW);
}

#[test]
fn test_cannot_purchase_license_twice() {
    let (mut ledger, licensee, config) = setup_with_config();
    let mint_manager = key(4);
    assert!(ledger.airdrop(mint_manager, 1_000_000_000));
    let first = purchase(&mut ledger, licensee, config, mint_manager);
    assert!(first.is_ok(), "First purchase should succeed");
    let before = ledger.balance(&licensee);
    let second = purchase(&mut ledger, licensee, config, mint_manager);
    assert_eq!(
        second.err(),
        Some(TransactionError::License(LicenseError::LicenseAlreadyExists)),
        "Second purchase should fail - license already exists"
    );
    assert_eq!(ledger.balance(&licensee), before);
}

#[test]
fn test_purchase_license_insufficient_funds() {
    let (mut ledger, _, config) = setup_with_config();
    let poor_licensee = key(7);
    let mint_manager = key(4);
    assert!(ledger.airdrop(poor_licensee, 50_000));
    assert!(ledger.airdrop(mint_manager, 1_000_000_000));
    let result = purchase(&mut ledger, poor_licensee, config, mint_manager);
    assert_eq!(
        result.err(),
        Some(TransactionError::License(LicenseError::InsufficientFunds)),
        "Purchase should fail with insufficient funds"
    );
    assert!(ledger.license_at(&license_address(mint_manager, poor_licensee)).is_none());
    assert_eq!(ledger.balance(&poor_licensee), 50_000);
    assert_eq!(ledger.balance(&mint_manager), 1_000_000_000);
}

#[test]
fn test_purchase_license_without_config() {
    let mut ledger = Ledger::new(program_id());
    let licensee = key(2);
    let mint_manager = key(4);
    assert!(ledger.airdrop(licensee, 10_000_000_000));
    assert!(ledger.airdrop(mint_manager, 1_000_000_000));
    let (config, _) = find_config_address(&program_id()).unwrap();
    let result = purchase(&mut ledger, licensee, config, mint_manager);
    assert_eq!(
        result.err(),
        Some(TransactionError::License(LicenseError::InvalidConfig)),
        "Purchase should fail without initialized license config"
    );
}

#[test]
fn test_verify_license_success() {
    let (mut ledger, licensee, config) = setup_with_config();
    let mint_manager = key(4);
    purchase(&mut ledger, licensee, config, mint_manager).unwrap();
    let active_license = license_address(mint_manager, licensee);
    let ctx = VerifyLicense { licensee, mint_manager, active_license };
    let result = verify_license(&ledger, &ctx, NOW + 60);
    assert!(result.is_ok(), "License verification should succeed: {:#?}", result.err());
    let event = result.unwrap();
    assert_eq!(event.verification_date, NOW + 60);
    assert_eq!(event.license_purchase_date, NOW);
    let record = ledger.license_at(&active_license).expect("Active license should exist");
    assert!(record.is_active, "License should still be active after verification");
}

#[test]
fn test_verify_license_without_purchase() {
    let (ledger, licensee, _) = setup_with_config();
    let mint_manager = key(4);
    let active_license = license_address(mint_manager, licensee);
    let ctx = VerifyLicense { licensee, mint_manager, active_license };
    let result = verify_license(&ledger, &ctx, NOW);
    assert_eq!(
        result.err(),
        Some(TransactionError::AccountMismatch),
        "Verification should fail without an existing license"
    );
}

#[test]
fn test_verify_license_wrong_licensee() {
    let (mut ledger, licensee, config) = setup_with_config();
    let mint_manager = key(4);
    let wrong_licensee = key(8);
    purchase(&mut ledger, licensee, config, mint_manager).unwrap();
    let active_license = license_address(mint_manager, licensee);
    let ctx = VerifyLicense { licensee: wrong_licensee, mint_manager, active_license };
    let result = verify_license(&ledger, &ctx, NOW);
    assert_eq!(
        result.err(),
        Some(TransactionError::License(LicenseError::InvalidLicensee)),
        "Verification should fail with wrong licensee"
    );
}

#[test]
fn test_verify_license_wrong_mint_manager() {
    let (mut ledger, licensee, config) = setup_with_config();
    let mint_manager = key(4);
    let wrong_mint_manager = key(10);
    purchase(&mut ledger, licensee, config, mint_manager).unwrap();
    let active_license = license_address(mint_manager, licensee);
    let ctx = VerifyLicense { licensee, mint_manager: wrong_mint_manager, active_license };
    let result = verify_license(&ledger, &ctx, NOW);
    assert_eq!(
        result.err(),
        Some(TransactionError::License(LicenseError::VerificationFailed)),
        "Verification should fail with wrong mint manager"
    );
}

#[test]
fn lifecycle_scenario() {
    let (mut ledger, licensee, config) = setup_with_config();
    let (address, _) = find_config_address(&program_id()).unwrap();
    let stored = ledger.config_at(&address).unwrap();
    assert_eq!(stored.default_fee, 1_000_000);
    assert_eq!(stored.platform_fee_bps, 300);

    let resource = key(20);
    let other_licensee = key(21);
    let resource_before = ledger.balance(&resource);
    purchase(&mut ledger, licensee, config, resource).unwrap();
    let active_license = license_address(resource, licensee);
    let record = ledger.license_at(&active_license).unwrap();
    assert!(record.mint_manager == resource);
    assert!(record.licensee == licensee);
    assert_eq!(record.purchase_amount, 1_000_000);
    assert!(record.is_active);
    assert_eq!(ledger.balance(&resource), resource_before + 1_000_000);

    let ok = verify_license(&ledger, &VerifyLicense { licensee, mint_manager: resource, active_license }, NOW);
    assert!(ok.is_ok());
    let wrong = verify_license(
        &ledger,
        &VerifyLicense { licensee: other_licensee, mint_manager: resource, active_license },
        NOW,
    );
    assert_eq!(wrong.err(), Some(TransactionError::License(LicenseError::InvalidLicensee)));
    let again = purchase(&mut ledger, licensee, config, resource);
    assert_eq!(again.err(), Some(TransactionError::License(LicenseError::LicenseAlreadyExists)));
}

#[test]
fn fee_split_of_default_config() {
    assert_eq!(fee_split(1_000_000, 300), (30_000, 970_000));
}

#[test]
fn fee_split_rounds_down_and_covers_extremes() {
    assert_eq!(fee_split(999, 300), (29, 970));
    assert_eq!(fee_split(1_000_000, 0), (0, 1_000_000));
    assert_eq!(fee_split(1_000_000, 10_000), (1_000_000, 0));
    assert_eq!(fee_split(0, 300), (0, 0));
    assert_eq!(fee_split(u64::MAX, 10_000), (u64::MAX, 0));
    assert_eq!(fee_split(u64::MAX, 300), (u64::MAX / 10_000 * 300 + (u64::MAX % 10_000) * 300 / 10_000, u64::MAX - (u64::MAX / 10_000 * 300 + (u64::MAX % 10_000) * 300 / 10_000)));
}

#[test]
fn purchase_moves_fee_to_owner_and_nothing_else() {
    let (mut ledger, licensee, config) = setup_with_config();
    let owner = key(4);
    let bystander = key(30);
    assert!(ledger.airdrop(owner, 5));
    assert!(ledger.airdrop(bystander, 77));
    let licensee_before = ledger.balance(&licensee);
    purchase(&mut ledger, licensee, config, owner).unwrap();
    assert_eq!(ledger.balance(&licensee), licensee_before - 1_000_000 - license_rent());
    assert_eq!(ledger.balance(&owner), 1_000_005);
    assert_eq!(ledger.balance(&bystander), 77);
}

#[test]
fn purchase_with_exactly_fee_and_rent_succeeds() {
    let (mut ledger, _, config) = setup_with_config();
    let licensee = key(31);
    let owner = key(32);
    assert!(ledger.airdrop(licensee, 1_000_000 + license_rent()));
    assert!(purchase(&mut ledger, licensee, config, owner).is_ok());
    assert_eq!(ledger.balance(&licensee), 0);
    assert_eq!(ledger.balance(&owner), 1_000_000);
}

#[test]
fn purchase_one_lamport_short_is_rolled_back() {
    let (mut ledger, _, config) = setup_with_config();
    let licensee = key(33);
    let owner = key(34);
    assert!(ledger.airdrop(licensee, 1_000_000 + license_rent() - 1));
    let result = purchase(&mut ledger, licensee, config, owner);
    assert_eq!(result.err(), Some(TransactionError::License(LicenseError::InsufficientFunds)));
    assert_eq!(ledger.balance(&licensee), 1_000_000 + license_rent() - 1);
    assert_eq!(ledger.balance(&owner), 0);
    assert!(!ledger.is_occupied(&license_address(owner, licensee)));
}

#[test]
fn purchase_refuses_owner_balance_overflow() {
    let (mut ledger, licensee, config) = setup_with_config();
    let owner = key(35);
    assert!(ledger.airdrop(owner, u64::MAX - 10));
    let before = ledger.balance(&licensee);
    let result = purchase(&mut ledger, licensee, config, owner);
    assert_eq!(result.err(), Some(TransactionError::LamportOverflow));
    assert_eq!(ledger.balance(&licensee), before);
    assert_eq!(ledger.balance(&owner), u64::MAX - 10);
}

#[test]
fn purchase_with_wrong_config_address_is_invalid_config() {
    let (mut ledger, licensee, _) = setup_with_config();
    let result = purchase(&mut ledger, licensee, key(99), key(4));
    assert_eq!(result.err(), Some(TransactionError::License(LicenseError::InvalidConfig)));
}

#[test]
fn licenses_of_distinct_pairs_are_independent() {
    let (mut ledger, licensee, config) = setup_with_config();
    let second_licensee = key(40);
    assert!(ledger.airdrop(second_licensee, 10_000_000_000));
    let resource = key(41);
    let other_resource = key(42);
    assert!(purchase(&mut ledger, licensee, config, resource).is_ok());
    assert!(purchase(&mut ledger, second_licensee, config, resource).is_ok());
    assert!(purchase(&mut ledger, licensee, config, other_resource).is_ok());
    assert_eq!(ledger.balance(&resource), 2_000_000);
    assert_eq!(ledger.balance(&other_resource), 1_000_000);
}

#[test]
fn verify_with_a_config_address_is_account_mismatch() {
    let (ledger, licensee, config) = setup_with_config();
    let ctx = VerifyLicense { licensee, mint_manager: key(4), active_license: config };
    assert_eq!(verify_license(&ledger, &ctx, NOW).err(), Some(TransactionError::AccountMismatch));
}

#[test]
fn airdrop_refuses_overflow() {
    let mut ledger = Ledger::new(program_id());
    let account = key(50);
    assert!(ledger.airdrop(account, u64::MAX));
    assert!(!ledger.airdrop(account, 1));
    assert_eq!(ledger.balance(&account), u64::MAX);
}

#[test]
fn derived_addresses_match_the_host_derivation() {
    let program = Pubkey::from_str(PROGRAM_ID).unwrap();
    let (expected, bump) = Pubkey::find_program_address(&[b"license-config"], &program);
    let (found, found_bump) = find_config_address(&program_id()).unwrap();
    assert_eq!(found.bytes, expected.to_bytes());
    assert_eq!(found_bump, bump);

    let mint_manager = key(4);
    let licensee = key(2);
    let (expected, bump) = Pubkey::find_program_address(
        &[b"active-license", &mint_manager.bytes, &licensee.bytes],
        &program,
    );
    let (found, found_bump) = find_license_address(&program_id(), &mint_manager, &licensee).unwrap();
    assert_eq!(found.bytes, expected.to_bytes());
    assert_eq!(found_bump, bump);
    assert!(found.bytes != program_id().bytes);
}

#[test]
fn addresses_with_bump_match_the_canonical_ones() {
    let (found, bump) = find_config_address(&program_id()).unwrap();
    let again = license_manager::derivation::config_address_with_bump(&program_id(), bump).unwrap();
    assert!(again == found);
    let mint_manager = key(4);
    let licensee = key(2);
    let (found, bump) = find_license_address(&program_id(), &mint_manager, &licensee).unwrap();
    let again = license_manager::derivation::license_address_with_bump(&program_id(), &mint_manager, &licensee, bump).unwrap();
    assert!(again == found);
}

#[test]
fn error_messages() {
    assert_eq!(LicenseError::AlreadyInitialized.message(), "License config already initialized");
    assert_eq!(LicenseError::InvalidLicensee.message(), "Invalid licensee for this license");
    assert_eq!(LicenseError::LicenseAlreadyExists.message(), "License already exists for this user and content");
}

#[test]
fn record_sizes() {
    assert_eq!(LicenseConfig::SIZE, 51);
    assert_eq!(ActiveLicense::SIZE, 90);
}
