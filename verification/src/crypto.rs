//! The cryptographic functions that the contracts rely on.

use vstd::prelude::*;
use crate::host::BytesN;

verus! {

/// The SHA-256 digest of `data`.
pub uninterp spec fn sha256_digest(data: Seq<u8>) -> Seq<u8>;

/// Whether two byte strings are different and have the same digest.
pub open spec fn digests_collide(a: Seq<u8>, b: Seq<u8>) -> bool {
    a != b && sha256_digest(a) == sha256_digest(b)
}

/// Whether `signature` is a strictly valid Ed25519 signature of `message` under
/// `public_key`.
pub uninterp spec fn ed25519_valid(
    public_key: Seq<u8>,
    message: Seq<u8>,
    signature: Seq<u8>,
) -> bool;

/// Calls `soroban_sdk::crypto::Crypto::sha256`. The result is the digest of the
/// bytes given, which depends on nothing else. The bound on the length keeps
/// the call within the metering budget of a fresh host.
#[verifier::external_body]
pub(crate) fn sha256(data: &[u8]) -> (r: BytesN<32>)
    requires
        data@.len() <= 1024,
    ensures
        r@ == sha256_digest(data@),
{
    let e = soroban_sdk::Env::default();
    let digest = e.crypto().sha256(&soroban_sdk::Bytes::from_slice(&e, data));
    BytesN { bytes: digest.to_array() }
}

/// Calls `ed25519_dalek::VerifyingKey::verify_strict`, after decoding the key
/// and the signature. The result says whether the key decodes and the strict
/// verification succeeds, which depends on the three byte strings alone.
#[verifier::external_body]
pub(crate) fn ed25519_verify(
    public_key: &BytesN<32>,
    message: &[u8],
    signature: &BytesN<64>,
) -> (r: bool)
    ensures
        r == ed25519_valid(public_key@, message@, signature@),
{
    let signature = ed25519_dalek::Signature::from_bytes(&signature.bytes);
    match ed25519_dalek::VerifyingKey::from_bytes(&public_key.bytes) {
        Ok(key) => key.verify_strict(message, &signature).is_ok(),
        Err(_) => false,
    }
}

} // verus!
