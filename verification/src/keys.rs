//! Identity-key material and digests for the native-channel provider,
//! behind trusted declarations of the secp256k1 and SHA-256 primitives.

use vstd::prelude::*;

verus! {

/// secp256k1 secret keys are carried through opaquely; only the trusted
/// wrappers below look inside one.
#[verifier::external_type_specification]
#[verifier::external_body]
pub struct ExSecretKey(bitcoin::secp256k1::SecretKey);

/// Whether a 32-byte string is a valid secp256k1 scalar (non-zero and
/// below the curve group's order).
pub uninterp spec fn secp_scalar_ok(b: Seq<u8>) -> bool;

/// Relies on `secp256k1::SecretKey::from_slice`: it accepts a 32-byte
/// string exactly when it is a valid scalar for the curve, a property of
/// the bytes alone.
#[verifier::external_body]
pub(crate) fn secret_key_from_bytes(b: &[u8; 32]) -> (r: Option<bitcoin::secp256k1::SecretKey>)
    ensures
        r is Some <==> secp_scalar_ok(b@),
{
    bitcoin::secp256k1::SecretKey::from_slice(b).ok()
}

/// Relies on `secp256k1::PublicKey::from_secret_key` and
/// `PublicKey::serialize`: the 33-byte compressed encoding of the
/// secret key's public point. Nothing further is assumed of the bytes.
#[verifier::external_body]
pub(crate) fn public_key_bytes(sk: &bitcoin::secp256k1::SecretKey) -> (r: [u8; 33]) {
    let secp = bitcoin::secp256k1::Secp256k1::new();
    bitcoin::secp256k1::PublicKey::from_secret_key(&secp, sk).serialize()
}

/// The SHA-256 digest of a byte string.
pub uninterp spec fn sha256_of(b: Seq<u8>) -> Seq<u8>;

/// Relies on `bitcoin::hashes::sha256`: the 32-byte digest depends on the
/// input bytes alone.
#[verifier::external_body]
pub(crate) fn sha256(b: &[u8]) -> (r: [u8; 32])
    ensures
        r@ == sha256_of(b@),
{
    bitcoin::hashes::Hash::to_byte_array(
        <bitcoin::hashes::sha256::Hash as bitcoin::hashes::Hash>::hash(b),
    )
}

/// Relies on `rand::random`: a fresh 32-byte value. Nothing is promised
/// of its distribution; callers must hold for every outcome.
#[verifier::external_body]
pub(crate) fn random_bytes32() -> (r: [u8; 32]) {
    rand::random::<[u8; 32]>()
}

} // verus!
