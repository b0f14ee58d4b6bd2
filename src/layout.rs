//! The persisted layout of the records and the entry-point discriminators:
//! an 8-byte tag taken from a SHA-256 digest of a name, then the fields in
//! declaration order, integers little-endian.

use vstd::prelude::*;

use vstd::bytes::{
    lemma_auto_spec_u16_to_from_le_bytes,
    lemma_auto_spec_u64_to_from_le_bytes,
    spec_u16_from_le_bytes,
    spec_u16_to_le_bytes,
    spec_u64_from_le_bytes,
    spec_u64_to_le_bytes,
    u16_from_le_bytes,
    u16_to_le_bytes,
    u64_from_le_bytes,
    u64_to_le_bytes,
};
use vstd::slice::slice_subrange;

use crate::address::Address;
use crate::state::{ActiveLicense, LicenseConfig};

verus! {

/// The SHA-256 digest of `data`, as `solana_program::hash::hash` computes it.
pub uninterp spec fn sha256_of(data: Seq<u8>) -> Seq<u8>;

/// Relies on `solana_program::hash::hash`: the SHA-256 digest of the bytes,
/// which depends on the bytes alone.
#[verifier::external_body]
fn sha256(data: &Vec<u8>) -> (r: [u8; 32])
    ensures
        r@ == sha256_of(data@),
{
    anchor_lang::solana_program::hash::hash(data.as_slice()).to_bytes()
}

/// The 8-byte tag that a name stands for: the first bytes of its digest.
pub open spec fn tag_of(name: Seq<u8>) -> Seq<u8> {
    sha256_of(name).subrange(0, 8)
}

/// ASCII `account:LicenseConfig`.
pub open spec fn config_type_name() -> Seq<u8> {
    seq![97u8, 99, 99, 111, 117, 110, 116, 58, 76, 105, 99, 101, 110, 115, 101, 67, 111, 110, 102, 105, 103]
}

/// ASCII `account:ActiveLicense`.
pub open spec fn license_type_name() -> Seq<u8> {
    seq![97u8, 99, 99, 111, 117, 110, 116, 58, 65, 99, 116, 105, 118, 101, 76, 105, 99, 101, 110, 115, 101]
}

/// The 8-byte tag of the digest of `name`.
pub fn tag(name: &Vec<u8>) -> (r: Vec<u8>)
    ensures
        r@ == tag_of(name@),
        r@.len() == 8,
{
    let digest = sha256(name);
    let mut r: Vec<u8> = Vec::new();
    let mut i: usize = 0;
    while i < 8
        invariant
            i <= 8,
            digest@.len() == 32,
            r@ == digest@.subrange(0, i as int),
        decreases 8 - i,
    {
        r.push(digest[i]);
        i = i + 1;
    }
    assert(r@ =~= digest@.subrange(0, 8));
    r
}

fn config_type_name_bytes() -> (r: Vec<u8>)
    ensures
        r@ == config_type_name(),
{
    let r: Vec<u8> = vec![97u8, 99, 99, 111, 117, 110, 116, 58, 76, 105, 99, 101, 110, 115, 101, 67, 111, 110, 102, 105, 103];
    assert(r@ =~= config_type_name());
    r
}

fn license_type_name_bytes() -> (r: Vec<u8>)
    ensures
        r@ == license_type_name(),
{
    let r: Vec<u8> = vec![97u8, 99, 99, 111, 117, 110, 116, 58, 65, 99, 116, 105, 118, 101, 76, 105, 99, 101, 110, 115, 101];
    assert(r@ =~= license_type_name());
    r
}

fn append_bytes(out: &mut Vec<u8>, bytes: &Vec<u8>)
    ensures
        final(out)@ == old(out)@ + bytes@,
{
    let mut i: usize = 0;
    while i < bytes.len()
        invariant
            i <= bytes@.len(),
            out@ == old(out)@ + bytes@.subrange(0, i as int),
        decreases bytes@.len() - i,
    {
        out.push(bytes[i]);
        i = i + 1;
        assert(out@ =~= old(out)@ + bytes@.subrange(0, i as int));
    }
    assert(bytes@.subrange(0, i as int) =~= bytes@);
}

/// Whether `data` starts with the 8-byte `expected`.
fn starts_with_tag(data: &[u8], expected: &Vec<u8>) -> (r: bool)
    requires
        8 <= data@.len(),
        expected@.len() == 8,
    ensures
        r == (data@.subrange(0, 8) == expected@),
{
    let mut i: usize = 0;
    while i < 8
        invariant
            i <= 8,
            8 <= data@.len(),
            expected@.len() == 8,
            forall|j: int| 0 <= j < i ==> data@[j] == expected@[j],
        decreases 8 - i,
    {
        if data[i] != expected[i] {
            assert(data@.subrange(0, 8)[i as int] != expected@[i as int]);
            return false;
        }
        i = i + 1;
    }
    assert(data@.subrange(0, 8) =~= expected@);
    true
}

/// The address held in `data[start..start + 32]`.
fn address_at(data: &[u8], start: usize) -> (r: Address)
    requires
        start + 32 <= data@.len(),
    ensures
        r@ == data@.subrange(start as int, start + 32),
{
    let len = data.len();
    let mut bytes = [0u8; 32];
    let mut i: usize = 0;
    while i < 32
        invariant
            i <= 32,
            len == data@.len(),
            start + 32 <= data@.len(),
            bytes@.len() == 32,
            forall|j: int| 0 <= j < i ==> bytes@[j] == data@[start + j],
        decreases 32 - i,
    {
        bytes[i] = data[start + i];
        i = i + 1;
    }
    assert(bytes@ =~= data@.subrange(start as int, start + 32));
    Address { bytes }
}

/// The byte of a flag.
pub open spec fn flag_byte(b: bool) -> u8 {
    if b {
        1
    } else {
        0
    }
}

/// The persisted bytes of a fee configuration.
pub open spec fn config_layout(c: LicenseConfig) -> Seq<u8> {
    tag_of(config_type_name()) + c.authority@ + spec_u64_to_le_bytes(c.default_fee)
        + spec_u16_to_le_bytes(c.platform_fee_bps) + seq![c.bump]
}

/// The persisted bytes of a license record.
pub open spec fn license_layout(l: ActiveLicense) -> Seq<u8> {
    tag_of(license_type_name()) + l.mint_manager@ + l.licensee@ + spec_u64_to_le_bytes(
        l.purchase_amount,
    ) + spec_u64_to_le_bytes(l.purchase_date as u64) + seq![flag_byte(l.is_active)] + seq![l.bump]
}

impl LicenseConfig {
    /// The record's persisted bytes.
    pub fn to_account_data(&self) -> (r: Vec<u8>)
        ensures
            r@ == config_layout(*self),
            r@.len() == LicenseConfig::SIZE,
    {
        let mut r = tag(&config_type_name_bytes());
        append_bytes(&mut r, &self.authority.to_seed());
        append_bytes(&mut r, &u64_to_le_bytes(self.default_fee));
        append_bytes(&mut r, &u16_to_le_bytes(self.platform_fee_bps));
        r.push(self.bump);
        proof {
            lemma_auto_spec_u64_to_from_le_bytes();
            lemma_auto_spec_u16_to_from_le_bytes();
        }
        assert(r@ =~= config_layout(*self));
        r
    }

    /// Reads a fee configuration from the front of `data`; bytes after the
    /// record are ignored.
    pub fn from_account_data(data: &[u8]) -> (r: Option<LicenseConfig>)
        ensures
            match r {
                Some(c) => LicenseConfig::SIZE <= data@.len() && config_layout(c) == data@.subrange(
                    0,
                    LicenseConfig::SIZE as int,
                ),
                None => data@.len() < LicenseConfig::SIZE || data@.subrange(0, 8) != tag_of(
                    config_type_name(),
                ),
            },
    {
        if data.len() < LicenseConfig::SIZE {
            return None;
        }
        let expected = tag(&config_type_name_bytes());
        if !starts_with_tag(data, &expected) {
            return None;
        }
        let authority = address_at(data, 8);
        let fee_bytes = slice_subrange(data, 40, 48);
        let bps_bytes = slice_subrange(data, 48, 50);
        let c = LicenseConfig {
            authority,
            default_fee: u64_from_le_bytes(fee_bytes),
            platform_fee_bps: u16_from_le_bytes(bps_bytes),
            bump: data[50],
        };
        proof {
            lemma_auto_spec_u64_to_from_le_bytes();
            lemma_auto_spec_u16_to_from_le_bytes();
            assert(spec_u64_to_le_bytes(spec_u64_from_le_bytes(fee_bytes@)) == fee_bytes@);
            assert(spec_u16_to_le_bytes(spec_u16_from_le_bytes(bps_bytes@)) == bps_bytes@);
            assert(config_layout(c) =~= data@.subrange(0, LicenseConfig::SIZE as int));
        }
        Some(c)
    }
}

impl ActiveLicense {
    /// The record's persisted bytes.
    pub fn to_account_data(&self) -> (r: Vec<u8>)
        ensures
            r@ == license_layout(*self),
            r@.len() == ActiveLicense::SIZE,
    {
        let mut r = tag(&license_type_name_bytes());
        append_bytes(&mut r, &self.mint_manager.to_seed());
        append_bytes(&mut r, &self.licensee.to_seed());
        append_bytes(&mut r, &u64_to_le_bytes(self.purchase_amount));
        append_bytes(&mut r, &u64_to_le_bytes(self.purchase_date as u64));
        r.push(if self.is_active {
            1u8
        } else {
            0u8
        });
        r.push(self.bump);
        proof {
            lemma_auto_spec_u64_to_from_le_bytes();
        }
        assert(r@ =~= license_layout(*self));
        r
    }

    /// Reads a license record from the front of `data`; bytes after the
    /// record are ignored, and a flag byte other than 0 or 1 is refused.
    pub fn from_account_data(data: &[u8]) -> (r: Option<ActiveLicense>)
        ensures
            match r {
                Some(l) => ActiveLicense::SIZE <= data@.len() && license_layout(l) == data@.subrange(
                    0,
                    ActiveLicense::SIZE as int,
                ),
                None => data@.len() < ActiveLicense::SIZE || data@.subrange(0, 8) != tag_of(
                    license_type_name(),
                ) || data@[88] > 1,
            },
    {
        if data.len() < ActiveLicense::SIZE {
            return None;
        }
        let expected = tag(&license_type_name_bytes());
        if !starts_with_tag(data, &expected) {
            return None;
        }
        let is_active = if data[88] == 0 {
            false
        } else if data[88] == 1 {
            true
        } else {
            return None;
        };
        let mint_manager = address_at(data, 8);
        let licensee = address_at(data, 40);
        let amount_bytes = slice_subrange(data, 72, 80);
        let date_bytes = slice_subrange(data, 80, 88);
        let date = u64_from_le_bytes(date_bytes);
        let l = ActiveLicense {
            mint_manager,
            licensee,
            purchase_amount: u64_from_le_bytes(amount_bytes),
            purchase_date: date as i64,
            is_active,
            bump: data[89],
        };
        proof {
            lemma_auto_spec_u64_to_from_le_bytes();
            assert(spec_u64_to_le_bytes(spec_u64_from_le_bytes(amount_bytes@)) == amount_bytes@);
            assert(spec_u64_to_le_bytes(spec_u64_from_le_bytes(date_bytes@)) == date_bytes@);
            assert((date as i64) as u64 == date) by (bit_vector);
            assert(license_layout(l) =~= data@.subrange(0, ActiveLicense::SIZE as int));
        }
        Some(l)
    }
}

/// The program's entry points.
#[derive(Clone, Copy, Debug, PartialEq, Eq, Structural)]
pub enum Operation {
    InitializeLicenseConfig,
    PurchaseLicense,
    VerifyLicense,
}

/// The name whose digest identifies an entry point: ASCII
/// `global:<operation>`.
pub open spec fn operation_name(op: Operation) -> Seq<u8> {
    match op {
        Operation::InitializeLicenseConfig => seq![103u8, 108, 111, 98, 97, 108, 58, 105, 110, 105, 116, 105, 97, 108, 105, 122, 101, 95, 108, 105, 99, 101, 110, 115, 101, 95, 99, 111, 110, 102, 105, 103],
        Operation::PurchaseLicense => seq![103u8, 108, 111, 98, 97, 108, 58, 112, 117, 114, 99, 104, 97, 115, 101, 95, 108, 105, 99, 101, 110, 115, 101],
        Operation::VerifyLicense => seq![103u8, 108, 111, 98, 97, 108, 58, 118, 101, 114, 105, 102, 121, 95, 108, 105, 99, 101, 110, 115, 101],
    }
}

fn operation_name_bytes(op: Operation) -> (r: Vec<u8>)
    ensures
        r@ == operation_name(op),
{
    let r: Vec<u8> = match op {
        Operation::InitializeLicenseConfig => vec![103u8, 108, 111, 98, 97, 108, 58, 105, 110, 105, 116, 105, 97, 108, 105, 122, 101, 95, 108, 105, 99, 101, 110, 115, 101, 95, 99, 111, 110, 102, 105, 103],
        Operation::PurchaseLicense => vec![103u8, 108, 111, 98, 97, 108, 58, 112, 117, 114, 99, 104, 97, 115, 101, 95, 108, 105, 99, 101, 110, 115, 101],
        Operation::VerifyLicense => vec![103u8, 108, 111, 98, 97, 108, 58, 118, 101, 114, 105, 102, 121, 95, 108, 105, 99, 101, 110, 115, 101],
    };
    assert(r@ =~= operation_name(op));
    r
}

/// The 8 bytes that open the instruction data of `op`.
pub fn operation_discriminator(op: Operation) -> (r: Vec<u8>)
    ensures
        r@ == tag_of(operation_name(op)),
        r@.len() == 8,
{
    tag(&operation_name_bytes(op))
}

/// The entry point that instruction data opens with, if any; the
/// discriminators are tried in declaration order.
pub open spec fn selected_operation(data: Seq<u8>) -> Option<Operation> {
    if data.len() < 8 {
        None
    } else if data.subrange(0, 8) == tag_of(operation_name(Operation::InitializeLicenseConfig)) {
        Some(Operation::InitializeLicenseConfig)
    } else if data.subrange(0, 8) == tag_of(operation_name(Operation::PurchaseLicense)) {
        Some(Operation::PurchaseLicense)
    } else if data.subrange(0, 8) == tag_of(operation_name(Operation::VerifyLicense)) {
        Some(Operation::VerifyLicense)
    } else {
        None
    }
}

/// The entry point that instruction data opens with, if any.
pub fn decode_operation(data: &[u8]) -> (r: Option<Operation>)
    ensures
        r == selected_operation(data@),
{
    if data.len() < 8 {
        return None;
    }
    if starts_with_tag(data, &operation_discriminator(Operation::InitializeLicenseConfig)) {
        return Some(Operation::InitializeLicenseConfig);
    }
    if starts_with_tag(data, &operation_discriminator(Operation::PurchaseLicense)) {
        return Some(Operation::PurchaseLicense);
    }
    if starts_with_tag(data, &operation_discriminator(Operation::VerifyLicense)) {
        return Some(Operation::VerifyLicense);
    }
    None
}

/// The bytes of a fee configuration open with its tag and determine it:
/// reading back the bytes of `c` gives `c`.
pub proof fn config_layout_round_trip(c: LicenseConfig, d: LicenseConfig)
    requires
        config_layout(c).len() == LicenseConfig::SIZE,
    ensures
        config_layout(c).subrange(0, 8) == tag_of(config_type_name()),
        config_layout(d) == config_layout(c) ==> d == c,
{
    lemma_auto_spec_u64_to_from_le_bytes();
    lemma_auto_spec_u16_to_from_le_bytes();
    let t = tag_of(config_type_name());
    assert(t.len() == 8);
    assert(config_layout(c).subrange(0, 8) =~= t);
    if config_layout(d) == config_layout(c) {
        let lc = config_layout(c);
        let ld = config_layout(d);
        assert(d.authority@ =~= ld.subrange(8, 40));
        assert(c.authority@ =~= lc.subrange(8, 40));
        assert(spec_u64_to_le_bytes(d.default_fee) =~= ld.subrange(40, 48));
        assert(spec_u64_to_le_bytes(c.default_fee) =~= lc.subrange(40, 48));
        assert(spec_u16_to_le_bytes(d.platform_fee_bps) =~= ld.subrange(48, 50));
        assert(spec_u16_to_le_bytes(c.platform_fee_bps) =~= lc.subrange(48, 50));
        assert(ld[50] == d.bump);
        assert(lc[50] == c.bump);
        assert(d.default_fee == spec_u64_from_le_bytes(spec_u64_to_le_bytes(d.default_fee)));
        assert(c.default_fee == spec_u64_from_le_bytes(spec_u64_to_le_bytes(c.default_fee)));
        assert(d.platform_fee_bps == spec_u16_from_le_bytes(spec_u16_to_le_bytes(d.platform_fee_bps)));
        assert(c.platform_fee_bps == spec_u16_from_le_bytes(spec_u16_to_le_bytes(c.platform_fee_bps)));
        assert(d.authority.bytes == c.authority.bytes);
    }
}

/// The bytes of a license record open with its tag, carry a flag byte of 0
/// or 1, and determine the record: reading back the bytes of `l` gives `l`.
pub proof fn license_layout_round_trip(l: ActiveLicense, m: ActiveLicense)
    requires
        license_layout(l).len() == ActiveLicense::SIZE,
    ensures
        license_layout(l).subrange(0, 8) == tag_of(license_type_name()),
        license_layout(l)[88] <= 1,
        license_layout(m) == license_layout(l) ==> m == l,
{
    lemma_auto_spec_u64_to_from_le_bytes();
    let t = tag_of(license_type_name());
    assert(t.len() == 8);
    assert(license_layout(l).subrange(0, 8) =~= t);
    assert(license_layout(l)[88] == flag_byte(l.is_active));
    if license_layout(m) == license_layout(l) {
        let ll = license_layout(l);
        let lm = license_layout(m);
        assert(m.mint_manager@ =~= lm.subrange(8, 40));
        assert(l.mint_manager@ =~= ll.subrange(8, 40));
        assert(m.licensee@ =~= lm.subrange(40, 72));
        assert(l.licensee@ =~= ll.subrange(40, 72));
        assert(spec_u64_to_le_bytes(m.purchase_amount) =~= lm.subrange(72, 80));
        assert(spec_u64_to_le_bytes(l.purchase_amount) =~= ll.subrange(72, 80));
        assert(spec_u64_to_le_bytes(m.purchase_date as u64) =~= lm.subrange(80, 88));
        assert(spec_u64_to_le_bytes(l.purchase_date as u64) =~= ll.subrange(80, 88));
        assert(lm[88] == flag_byte(m.is_active));
        assert(lm[89] == m.bump);
        assert(ll[89] == l.bump);
        assert(m.purchase_amount == spec_u64_from_le_bytes(spec_u64_to_le_bytes(m.purchase_amount)));
        assert(l.purchase_amount == spec_u64_from_le_bytes(spec_u64_to_le_bytes(l.purchase_amount)));
        let md = m.purchase_date as u64;
        let ld = l.purchase_date as u64;
        assert(md == spec_u64_from_le_bytes(spec_u64_to_le_bytes(md)));
        assert(ld == spec_u64_from_le_bytes(spec_u64_to_le_bytes(ld)));
        let mi = m.purchase_date;
        let li = l.purchase_date;
        assert((mi as u64) == (li as u64) ==> mi == li) by (bit_vector);
        assert(m.mint_manager.bytes == l.mint_manager.bytes);
        assert(m.licensee.bytes == l.licensee.bytes);
    }
}

} // verus!
