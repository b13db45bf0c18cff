use vstd::prelude::*;
use sha2::Digest;

verus! {

/// The SHA-256 digest of `data` (FIPS 180-4), as computed by the `sha2` crate.
pub uninterp spec fn sha256_digest(data: Seq<u8>) -> Seq<u8>;

/// The Keccak-256 digest of `data` (the pre-standard SHA-3 variant used by Ethereum),
/// as computed by the `sha3` crate.
pub uninterp spec fn keccak256_digest(data: Seq<u8>) -> Seq<u8>;

/// Calls `sha2::Sha256::digest`. Trusted: the 32 bytes returned are the SHA-256 digest of
/// `data`, a function of `data` alone.
#[verifier::external_body]
pub(crate) fn sha256(data: &[u8]) -> (digest: [u8; 32])
    ensures
        digest@ == sha256_digest(data@),
{
    sha2::Sha256::digest(data).into()
}

/// Calls `sha3::Keccak256::digest`. Trusted: the 32 bytes returned are the Keccak-256
/// digest of `data`, a function of `data` alone.
#[verifier::external_body]
pub(crate) fn keccak256(data: &[u8]) -> (digest: [u8; 32])
    ensures
        digest@ == keccak256_digest(data@),
{
    sha3::Keccak256::digest(data).into()
}

} // verus!
