use vstd::prelude::*;

use crate::address::{bytes_to_vec, Address};

verus! {

/// The address that `Pubkey::create_program_address` computes from a list of
/// seeds and a program id, or `None` where it refuses them.
pub uninterp spec fn program_address(seeds: Seq<Seq<u8>>, program: Seq<u8>) -> Option<Seq<u8>>;

/// The bump search: the highest bump in `1..=bump` whose appended seed
/// yields a valid program address, with that address.
pub open spec fn bump_search(seeds: Seq<Seq<u8>>, program: Seq<u8>, bump: int) -> Option<(Seq<u8>, u8)>
    decreases bump,
{
    if bump < 1 || bump > 255 {
        None
    } else {
        match program_address(seeds.push(seq![bump as u8]), program) {
            Some(a) => Some((a, bump as u8)),
            None => bump_search(seeds, program, bump - 1),
        }
    }
}

/// The canonical derived address of `seeds`: the search from the highest bump down.
pub open spec fn canonical_address(seeds: Seq<Seq<u8>>, program: Seq<u8>) -> Option<(Seq<u8>, u8)> {
    bump_search(seeds, program, 255)
}

/// The view of a derived address with its bump.
pub open spec fn found_view(r: Option<(Address, u8)>) -> Option<(Seq<u8>, u8)> {
    match r {
        Some((a, b)) => Some((a@, b)),
        None => None,
    }
}

/// The view of an address that may be missing.
pub open spec fn address_view(r: Option<Address>) -> Option<Seq<u8>> {
    match r {
        Some(a) => Some(a@),
        None => None,
    }
}

/// `seeds` with the one-byte bump seed appended.
pub open spec fn with_bump(seeds: Seq<Seq<u8>>, bump: u8) -> Seq<Seq<u8>> {
    seeds.push(seq![bump])
}

/// The namespace tag of the fee configuration: ASCII `license-config`.
pub open spec fn config_tag() -> Seq<u8> {
    seq![108u8, 105, 99, 101, 110, 115, 101, 45, 99, 111, 110, 102, 105, 103]
}

/// The namespace tag of license records: ASCII `active-license`.
pub open spec fn license_tag() -> Seq<u8> {
    seq![97u8, 99, 116, 105, 118, 101, 45, 108, 105, 99, 101, 110, 115, 101]
}

/// The namespace tag of registered content: ASCII `content`.
pub open spec fn content_tag() -> Seq<u8> {
    seq![99u8, 111, 110, 116, 101, 110, 116]
}

/// The seeds of the singleton fee configuration.
pub open spec fn config_seeds() -> Seq<Seq<u8>> {
    seq![config_tag()]
}

/// The seeds of the license record of `licensee` for `resource`.
pub open spec fn license_seeds(resource: Seq<u8>, licensee: Seq<u8>) -> Seq<Seq<u8>> {
    seq![license_tag(), resource, licensee]
}

/// The seeds of the content that `creator` registered under `content_hash`.
pub open spec fn content_seeds(creator: Seq<u8>, content_hash: Seq<u8>) -> Seq<Seq<u8>> {
    seq![content_tag(), creator, content_hash]
}

/// A canonical address is a valid program address under its own bump.
pub proof fn lemma_canonical_is_valid(seeds: Seq<Seq<u8>>, program: Seq<u8>, bump: int)
    ensures
        match bump_search(seeds, program, bump) {
            Some((a, b)) => program_address(with_bump(seeds, b), program) == Some(a),
            None => true,
        },
    decreases bump,
{
    if 1 <= bump <= 255 {
        if program_address(seeds.push(seq![bump as u8]), program) is None {
            lemma_canonical_is_valid(seeds, program, bump - 1);
        }
    }
}

proof fn lemma_bytes_deep_view(v: &Vec<u8>)
    ensures
        v.deep_view() == v@,
{
    assert(v.deep_view() =~= v@);
}

fn config_tag_bytes() -> (r: Vec<u8>)
    ensures
        r@ == config_tag(),
{
    let r: Vec<u8> = vec![108u8, 105, 99, 101, 110, 115, 101, 45, 99, 111, 110, 102, 105, 103];
    assert(r@ =~= config_tag());
    r
}

fn license_tag_bytes() -> (r: Vec<u8>)
    ensures
        r@ == license_tag(),
{
    let r: Vec<u8> = vec![97u8, 99, 116, 105, 118, 101, 45, 108, 105, 99, 101, 110, 115, 101];
    assert(r@ =~= license_tag());
    r
}

fn content_tag_bytes() -> (r: Vec<u8>)
    ensures
        r@ == content_tag(),
{
    let r: Vec<u8> = vec![99u8, 111, 110, 116, 101, 110, 116];
    assert(r@ =~= content_tag());
    r
}

fn content_seed_list(creator: &Address, content_hash: &[u8; 32]) -> (r: Vec<Vec<u8>>)
    ensures
        r.deep_view() == content_seeds(creator@, content_hash@),
{
    let r: Vec<Vec<u8>> = vec![content_tag_bytes(), creator.to_seed(), bytes_to_vec(content_hash)];
    proof {
        lemma_bytes_deep_view(&r@[0]);
        lemma_bytes_deep_view(&r@[1]);
        lemma_bytes_deep_view(&r@[2]);
    }
    assert(r.deep_view() =~= content_seeds(creator@, content_hash@));
    r
}

fn config_seed_list() -> (r: Vec<Vec<u8>>)
    ensures
        r.deep_view() == config_seeds(),
{
    let r: Vec<Vec<u8>> = vec![config_tag_bytes()];
    proof {
        lemma_bytes_deep_view(&r@[0]);
    }
    assert(r.deep_view() =~= config_seeds());
    r
}

fn license_seed_list(resource: &Address, licensee: &Address) -> (r: Vec<Vec<u8>>)
    ensures
        r.deep_view() == license_seeds(resource@, licensee@),
{
    let r: Vec<Vec<u8>> = vec![license_tag_bytes(), resource.to_seed(), licensee.to_seed()];
    proof {
        lemma_bytes_deep_view(&r@[0]);
        lemma_bytes_deep_view(&r@[1]);
        lemma_bytes_deep_view(&r@[2]);
    }
    assert(r.deep_view() =~= license_seeds(resource@, licensee@));
    r
}

fn push_bump(seeds: &mut Vec<Vec<u8>>, bump: u8)
    ensures
        final(seeds).deep_view() == with_bump(old(seeds).deep_view(), bump),
{
    let b: Vec<u8> = vec![bump];
    proof {
        lemma_bytes_deep_view(&b);
        assert(b@ =~= seq![bump]);
    }
    seeds.push(b);
    assert(final(seeds).deep_view() =~= with_bump(old(seeds).deep_view(), bump));
}

/// The canonical address of the fee configuration, with its bump.
pub fn find_config_address(program_id: &Address) -> (r: Option<(Address, u8)>)
    ensures
        found_view(r) == canonical_address(config_seeds(), program_id@),
{
    try_find_program_address(&config_seed_list(), program_id)
}

/// The canonical address of the license record of `licensee` for `resource`.
pub fn find_license_address(program_id: &Address, resource: &Address, licensee: &Address) -> (r: Option<(Address, u8)>)
    ensures
        found_view(r) == canonical_address(license_seeds(resource@, licensee@), program_id@),
{
    try_find_program_address(&license_seed_list(resource, licensee), program_id)
}

/// The address of the fee configuration under a given bump.
pub fn config_address_with_bump(program_id: &Address, bump: u8) -> (r: Option<Address>)
    ensures
        address_view(r) == program_address(with_bump(config_seeds(), bump), program_id@),
{
    let mut seeds = config_seed_list();
    push_bump(&mut seeds, bump);
    create_program_address(&seeds, program_id)
}

/// The address of the license record of `licensee` for `resource` under a given bump.
pub fn license_address_with_bump(program_id: &Address, resource: &Address, licensee: &Address, bump: u8) -> (r: Option<Address>)
    ensures
        address_view(r) == program_address(with_bump(license_seeds(resource@, licensee@), bump), program_id@),
{
    let mut seeds = license_seed_list(resource, licensee);
    push_bump(&mut seeds, bump);
    create_program_address(&seeds, program_id)
}

/// The canonical address of the content that `creator` registered under `content_hash`.
pub fn find_content_address(program_id: &Address, creator: &Address, content_hash: &[u8; 32]) -> (r: Option<(Address, u8)>)
    ensures
        found_view(r) == canonical_address(content_seeds(creator@, content_hash@), program_id@),
{
    try_find_program_address(&content_seed_list(creator, content_hash), program_id)
}

/// The address of the content that `creator` registered under `content_hash`, under a given bump.
pub fn content_address_with_bump(program_id: &Address, creator: &Address, content_hash: &[u8; 32], bump: u8) -> (r: Option<Address>)
    ensures
        address_view(r) == program_address(with_bump(content_seeds(creator@, content_hash@), bump), program_id@),
{
    let mut seeds = content_seed_list(creator, content_hash);
    push_bump(&mut seeds, bump);
    create_program_address(&seeds, program_id)
}

/// Relies on `Pubkey::create_program_address`: hashes the seeds with the program
/// id and fails where the result lies on the curve or the seeds are too many or
/// too long.
#[verifier::external_body]
fn create_program_address(seeds: &Vec<Vec<u8>>, program_id: &Address) -> (r: Option<Address>)
    ensures
        match r {
            Some(a) => program_address(seeds.deep_view(), program_id@) == Some(a@),
            None => program_address(seeds.deep_view(), program_id@) is None,
        },
{
    let s: Vec<&[u8]> = seeds.iter().map(|v| v.as_slice()).collect();
    let program = anchor_lang::prelude::Pubkey::new_from_array(program_id.bytes);
    match anchor_lang::prelude::Pubkey::create_program_address(&s, &program) {
        Ok(p) => Some(Address { bytes: p.to_bytes() }),
        Err(_) => None,
    }
}

/// Relies on `Pubkey::try_find_program_address`: it tries the bumps from 255
/// down to 1, appending each as a one-byte seed, and returns the first address
/// that `create_program_address` accepts, with its bump.
#[verifier::external_body]
fn try_find_program_address(seeds: &Vec<Vec<u8>>, program_id: &Address) -> (r: Option<(Address, u8)>)
    ensures
        match r {
            Some((a, b)) => canonical_address(seeds.deep_view(), program_id@) == Some((a@, b)),
            None => canonical_address(seeds.deep_view(), program_id@) is None,
        },
{
    let s: Vec<&[u8]> = seeds.iter().map(|v| v.as_slice()).collect();
    let program = anchor_lang::prelude::Pubkey::new_from_array(program_id.bytes);
    anchor_lang::prelude::Pubkey::try_find_program_address(&s, &program)
        .map(|(p, b)| (Address { bytes: p.to_bytes() }, b))
}

} // verus!
