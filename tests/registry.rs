use std::str::FromStr;

use anchor_lang::prelude::Pubkey;
use license_manager::address::Address;
use license_manager::derivation::find_content_address;
use license_manager::registry::content::{ContentRecord, Registry, RegistryError, RegistryFailure};
use license_manager::registry::register_content::RegisterContent;
use license_manager::registry::update_metadata::UpdateMetadata;
use license_manager::registry::utils::validate_uri;
use license_manager::registry::verify_ownership::VerifyOwnership;
use license_manager::registry::{register_content, update_metadata, verify_ownership};

const REGISTRY_ID: &str = "HtmwUFTvDsLbwbSRDPTJwJqvMuxuChK9L1TJM1tEmM6T";

fn registry_id() -> Address {
    Address::new(Pubkey::from_str(REGISTRY_ID).unwrap().to_bytes())
}

fn key(n: u8) -> Address {
    Address::new([n; 32])
}

fn register(registry: &mut Registry, creator: Address, hash: [u8; 32]) -> Result<(), RegistryFailure> {
    register_content(
        registry,
        &RegisterContent { creator },
        hash,
        "ipfs://bafy".to_string(),
        "Song".to_string(),
        "music".to_string(),
        1_000,
    )
}

fn record_address(creator: Address, hash: [u8; 32]) -> Address {
    find_content_address(&registry_id(), &creator, &hash).unwrap().0
}

#[test]
fn register_stores_the_record_at_its_derived_address() {
    let mut registry = Registry::new(registry_id());
    let creator = key(1);
    let hash = [7u8; 32];
    assert!(register(&mut registry, creator, hash).is_ok());
    let (address, bump) = find_content_address(&registry_id(), &creator, &hash).unwrap();
    let record = registry.record_at(&address).unwrap();
    assert!(record.creator == creator);
    assert_eq!(record.content_hash, hash);
    assert_eq!(record.uri, "ipfs://bafy");
    assert_eq!(record.title, "Song");
    assert_eq!(record.category, "music");
    assert_eq!(record.registered_at, 1_000);
    assert_eq!(record.bump, bump);

    let program = Pubkey::from_str(REGISTRY_ID).unwrap();
    let (expected, _) = Pubkey::find_program_address(&[b"content", &creator.bytes, &hash], &program);
    assert_eq!(address.bytes, expected.to_bytes());
}

#[test]
fn register_twice_is_refused() {
    let mut registry = Registry::new(registry_id());
    assert!(register(&mut registry, key(1), [7u8; 32]).is_ok());
    assert_eq!(register(&mut registry, key(1), [7u8; 32]), Err(RegistryFailure::AccountInUse));
    assert!(register(&mut registry, key(2), [7u8; 32]).is_ok());
    assert!(register(&mut registry, key(1), [8u8; 32]).is_ok());
}

#[test]
fn register_refuses_oversized_text() {
    let mut registry = Registry::new(registry_id());
    let result = register_content(
        &mut registry,
        &RegisterContent { creator: key(1) },
        [7u8; 32],
        "https://x".to_string(),
        "t".repeat(101),
        "music".to_string(),
        0,
    );
    assert_eq!(result, Err(RegistryFailure::Registry(RegistryError::InvalidContent)));
    assert!(registry.record_at(&record_address(key(1), [7u8; 32])).is_none());
}

#[test]
fn update_replaces_only_given_fields() {
    let mut registry = Registry::new(registry_id());
    let creator = key(1);
    let hash = [7u8; 32];
    register(&mut registry, creator, hash).unwrap();
    let address = record_address(creator, hash);
    let ctx = UpdateMetadata { creator, content_record: address };
    assert!(update_metadata(&mut registry, &ctx, Some("Remix".to_string()), None, None).is_ok());
    let record = registry.record_at(&address).unwrap();
    assert_eq!(record.title, "Remix");
    assert_eq!(record.category, "music");
    assert_eq!(record.uri, "ipfs://bafy");
    assert!(update_metadata(&mut registry, &ctx, None, Some("art".to_string()), Some("https://a".to_string())).is_ok());
    let record = registry.record_at(&address).unwrap();
    assert_eq!(record.title, "Remix");
    assert_eq!(record.category, "art");
    assert_eq!(record.uri, "https://a");
}

#[test]
fn update_by_another_caller_is_unauthorized() {
    let mut registry = Registry::new(registry_id());
    register(&mut registry, key(1), [7u8; 32]).unwrap();
    let address = record_address(key(1), [7u8; 32]);
    let ctx = UpdateMetadata { creator: key(2), content_record: address };
    let result = update_metadata(&mut registry, &ctx, Some("Stolen".to_string()), None, None);
    assert_eq!(result, Err(RegistryFailure::Registry(RegistryError::Unauthorized)));
    assert_eq!(registry.record_at(&address).unwrap().title, "Song");
}

#[test]
fn update_of_missing_record_is_account_mismatch() {
    let mut registry = Registry::new(registry_id());
    let ctx = UpdateMetadata { creator: key(1), content_record: key(3) };
    assert_eq!(update_metadata(&mut registry, &ctx, None, None, None), Err(RegistryFailure::AccountMismatch));
}

#[test]
fn update_refuses_oversized_category() {
    let mut registry = Registry::new(registry_id());
    register(&mut registry, key(1), [7u8; 32]).unwrap();
    let address = record_address(key(1), [7u8; 32]);
    let ctx = UpdateMetadata { creator: key(1), content_record: address };
    let result = update_metadata(&mut registry, &ctx, None, Some("c".repeat(51)), None);
    assert_eq!(result, Err(RegistryFailure::Registry(RegistryError::InvalidContent)));
    assert_eq!(registry.record_at(&address).unwrap().category, "music");
}

#[test]
fn verify_ownership_hands_back_the_record() {
    let mut registry = Registry::new(registry_id());
    register(&mut registry, key(1), [7u8; 32]).unwrap();
    let address = record_address(key(1), [7u8; 32]);
    let record: ContentRecord = verify_ownership(&registry, &VerifyOwnership { content_record: address }).unwrap();
    assert!(record.creator == key(1));
    assert_eq!(record.uri, "ipfs://bafy");
    assert_eq!(
        verify_ownership(&registry, &VerifyOwnership { content_record: key(9) }).err(),
        Some(RegistryFailure::AccountMismatch)
    );
}

#[test]
fn uri_schemes() {
    assert!(validate_uri("ipfs://bafybeigdyr"));
    assert!(validate_uri("https://example.org/a"));
    assert!(!validate_uri("http://example.org"));
    assert!(!validate_uri("ipfs:/"));
    assert!(!validate_uri(""));
    assert!(!validate_uri("xhttps://a"));
}

#[test]
fn registry_error_messages() {
    assert_eq!(RegistryError::Unauthorized.message(), "Unauthorized action");
    assert_eq!(RegistryError::InvalidContent.message(), "Invalid content data");
}
