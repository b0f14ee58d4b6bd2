use vstd::prelude::*;

verus! {

/// The URI scheme prefix `ipfs://`, in bytes.
pub open spec fn ipfs_scheme() -> Seq<u8> {
    seq![105u8, 112, 102, 115, 58, 47, 47]
}

/// The URI scheme prefix `https://`, in bytes.
pub open spec fn https_scheme() -> Seq<u8> {
    seq![104u8, 116, 116, 112, 115, 58, 47, 47]
}

/// Whether `bytes` starts with `prefix`.
pub open spec fn has_prefix(bytes: Seq<u8>, prefix: Seq<u8>) -> bool {
    prefix.len() <= bytes.len() && bytes.subrange(0, prefix.len() as int) == prefix
}

fn starts_with_bytes(bytes: &[u8], prefix: &Vec<u8>) -> (r: bool)
    ensures
        r == has_prefix(bytes@, prefix@),
{
    if prefix.len() > bytes.len() {
        return false;
    }
    let mut i: usize = 0;
    while i < prefix.len()
        invariant
            prefix@.len() <= bytes@.len(),
            i <= prefix@.len(),
            forall|j: int| 0 <= j < i ==> bytes@[j] == prefix@[j],
        decreases prefix@.len() - i,
    {
        if bytes[i] != prefix[i] {
            assert(bytes@.subrange(0, prefix@.len() as int)[i as int] != prefix@[i as int]);
            return false;
        }
        i = i + 1;
    }
    assert(bytes@.subrange(0, prefix@.len() as int) =~= prefix@);
    true
}

/// Whether a content URI names an IPFS or an HTTPS location.
pub fn validate_uri(uri: &str) -> (r: bool)
    ensures
        r == (has_prefix(vstd::utf8::encode_utf8(uri@), ipfs_scheme()) || has_prefix(vstd::utf8::encode_utf8(uri@), https_scheme())),
{
    let bytes = uri.as_bytes();
    let ipfs: Vec<u8> = vec![105u8, 112, 102, 115, 58, 47, 47];
    let https: Vec<u8> = vec![104u8, 116, 116, 112, 115, 58, 47, 47];
    assert(ipfs@ =~= ipfs_scheme());
    assert(https@ =~= https_scheme());
    starts_with_bytes(bytes, &ipfs) || starts_with_bytes(bytes, &https)
}

} // verus!
