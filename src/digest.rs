use vstd::prelude::*;
use crate::package::{HashAlgorithm, PackageHash};

verus! {

/// The SHA-512 digest of a byte sequence.
pub uninterp spec fn sha512_of(bytes: Seq<u8>) -> Seq<u8>;

/// The bytes that standard base64 text decodes to, or `None` when it is not valid.
pub uninterp spec fn base64_decoded(text: Seq<char>) -> Option<Seq<u8>>;

#[verifier::external_type_specification]
#[verifier::external_body]
pub struct ExDecodeError(base64::DecodeError);

/// Relies on sha2's `Sha512::digest`: the SHA-512 digest of `bytes`.
#[verifier::external_body]
pub(crate) fn sha512_digest(bytes: &Vec<u8>) -> (r: Vec<u8>)
    ensures
        r@ == sha512_of(bytes@),
{
    <sha2::Sha512 as sha2::Digest>::digest(bytes.as_slice()).to_vec()
}

/// Relies on base64's `decode` with the standard alphabet and padding.
#[verifier::external_body]
#[allow(deprecated)]
fn decode_base64(text: &str) -> (r: Result<Vec<u8>, base64::DecodeError>)
    ensures
        match r {
            Ok(v) => base64_decoded(text@) == Some(v@),
            Err(_) => base64_decoded(text@) is None,
        },
{
    base64::decode(text)
}

/// The digest a local copy must have for the registry's report to vouch for it;
/// `None` when the algorithm is unknown or the reported text is not base64.
pub open spec fn expected_digest(hash: PackageHash) -> Option<Seq<u8>> {
    match hash.algorithm {
        HashAlgorithm::SHA512 => base64_decoded(hash.hash@),
        HashAlgorithm::Unknown(_) => None,
    }
}

/// The registry's report `hash` is a correct SHA-512 digest of `contents`.
pub open spec fn registry_vouches_for(hash: PackageHash, contents: Seq<u8>) -> bool {
    &&& hash.algorithm is SHA512
    &&& base64_decoded(hash.hash@) == Some(sha512_of(contents))
}

/// The recomputed digest of `contents` equals the reported one, byte for byte.
pub open spec fn matches_reported(hash: PackageHash, contents: Seq<u8>) -> bool {
    match expected_digest(hash) {
        Some(d) => d == sha512_of(contents),
        None => false,
    }
}

/// Compares two digests byte for byte over their full lengths.
pub fn digests_equal(reference: &Vec<u8>, actual: &Vec<u8>) -> (r: bool)
    ensures
        r == (reference@ == actual@),
{
    let n = reference.len();
    if n != actual.len() {
        return false;
    }
    let mut i: usize = 0;
    while i < n
        invariant
            n == reference@.len(),
            n == actual@.len(),
            i <= n,
            forall|j: int| 0 <= j < i ==> reference@[j] == actual@[j],
        decreases n - i,
    {
        if reference[i] != actual[i] {
            return false;
        }
        i = i + 1;
    }
    assert(reference@ =~= actual@);
    true
}

/// The decoded digest that a local copy is checked against, if there is one.
pub fn reference_digest(hash: &PackageHash) -> (r: Option<Vec<u8>>)
    ensures
        match expected_digest(*hash) {
            Some(d) => r is Some && r->Some_0@ == d,
            None => r is None,
        },
{
    match &hash.algorithm {
        HashAlgorithm::SHA512 => match decode_base64(hash.hash.as_str()) {
            Ok(v) => Some(v),
            Err(_) => None,
        },
        HashAlgorithm::Unknown(_) => None,
    }
}

/// Whether `contents` has the digest that `hash` reports.
pub fn package_matches_hash(hash: &PackageHash, contents: &Vec<u8>) -> (r: bool)
    ensures
        r == matches_reported(*hash, contents@),
{
    match reference_digest(hash) {
        None => false,
        Some(reference) => {
            let actual = sha512_digest(contents);
            digests_equal(&reference, &actual)
        },
    }
}

/// Digests of content that the registry vouches for always match its report.
pub proof fn lemma_vouched_content_matches(hash: PackageHash, contents: Seq<u8>)
    requires
        registry_vouches_for(hash, contents),
    ensures
        matches_reported(hash, contents),
{
}

/// Dropping the last byte of a digest makes it differ from the original.
pub proof fn lemma_truncated_digest_differs(d: Seq<u8>)
    requires
        d.len() > 0,
    ensures
        d.drop_last() != d,
{
    assert(d.drop_last().len() != d.len());
}

/// Changing any single byte of a digest makes it differ from the original.
pub proof fn lemma_altered_digest_differs(d: Seq<u8>, i: int, x: u8)
    requires
        0 <= i < d.len(),
        x != d[i],
    ensures
        d.update(i, x) != d,
{
    assert(d.update(i, x)[i] != d[i]);
}

} // verus!
