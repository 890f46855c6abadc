//! Trusted boundary to the cryptographic primitives: the Keccak-256 hash and
//! the secp256k1 signer. Every other step of the signing pipeline is verified
//! against these contracts.

use vstd::prelude::*;
use alloy::signers::SignerSync;

verus! {

/// The Keccak-256 digest of a byte sequence. The digest itself is not
/// axiomatized here beyond its length; it is a pure function of its input.
pub uninterp spec fn spec_keccak256(data: Seq<u8>) -> Seq<u8>;

/// Computes the Keccak-256 digest.
///
/// Relies on `alloy::primitives::keccak256`, which returns the 32-byte
/// Keccak-256 hash of the input and depends on the input bytes alone.
#[verifier::external_body]
pub(crate) fn keccak256(data: &[u8]) -> (r: Vec<u8>)
    ensures
        r@ == spec_keccak256(data@),
        r@.len() == 32,
{
    alloy::primitives::keccak256(data).as_slice().to_vec()
}

/// Whether a string parses as a secp256k1 private key: 32 bytes of hex, with
/// an optional `0x` prefix, naming a non-zero scalar below the curve order.
pub uninterp spec fn spec_valid_signing_key(key: Seq<char>) -> bool;

/// The 20-byte account address derived from a private key string. A function
/// of the key alone.
pub uninterp spec fn spec_key_address(key: Seq<char>) -> Seq<u8>;

/// The 65-byte recoverable ECDSA signature (`r || s || v`) that the key's
/// holder produces over a 32-byte digest. Signing uses a deterministic
/// nonce, so this is a function of the key and the digest alone.
pub uninterp spec fn spec_ecdsa_sign(key: Seq<char>, digest: Seq<u8>) -> Seq<u8>;

/// Parses a private key string and returns the derived account address, or
/// `None` if the string is not a valid key.
///
/// Relies on `alloy::signers::local::PrivateKeySigner`: its `FromStr` accepts
/// 32 bytes of hex with an optional `0x` prefix and rejects anything else,
/// and `address` returns the 20-byte address derived from the key.
#[verifier::external_body]
pub(crate) fn parse_key_address(key: &str) -> (r: Option<Vec<u8>>)
    ensures
        r is Some <==> spec_valid_signing_key(key@),
        r matches Some(a) ==> a@ == spec_key_address(key@) && a@.len() == 20,
{
    match key.parse::<alloy::signers::local::PrivateKeySigner>() {
        Ok(signer) => Some(signer.address().as_slice().to_vec()),
        Err(_) => None,
    }
}

/// Signs a 32-byte digest with the given private key, returning the 65-byte
/// signature, or `None` when the signing backend reports a failure.
///
/// Relies on `alloy::signers::local::PrivateKeySigner`: `sign_hash_sync`
/// produces a deterministic (RFC 6979) recoverable ECDSA signature over the
/// digest, and `Signature::as_bytes` serializes it as `r || s || v` with `v`
/// in Electrum notation.
#[verifier::external_body]
pub(crate) fn sign_digest(key: &str, digest: &Vec<u8>) -> (r: Option<Vec<u8>>)
    requires
        spec_valid_signing_key(key@),
        digest@.len() == 32,
    ensures
        r matches Some(s) ==> s@ == spec_ecdsa_sign(key@, digest@) && s@.len() == 65,
{
    let signer: alloy::signers::local::PrivateKeySigner = match key.parse() {
        Ok(s) => s,
        Err(_) => return None,
    };
    let hash = alloy::primitives::B256::from_slice(digest.as_slice());
    match signer.sign_hash_sync(&hash) {
        Ok(sig) => Some(sig.as_bytes().to_vec()),
        Err(_) => None,
    }
}

} // verus!
