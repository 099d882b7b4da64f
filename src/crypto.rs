//! The hash and signature primitives the library relies on.
//!
//! Keccak-256 comes from `sha3`, secp256k1 from `libsecp256k1`. Their results
//! are named here and never written out.

use vstd::prelude::*;

verus! {

/// The Keccak-256 digest of a byte string.
pub uninterp spec fn keccak256_of(data: Seq<u8>) -> Seq<u8>;

/// The 65-byte recoverable signature (`r | s | recovery id`) that secp256k1
/// with deterministic nonces makes with secret key `secret` over `message`.
pub uninterp spec fn secp256k1_signature(secret: Seq<u8>, message: Seq<u8>) -> Seq<u8>;

/// The 65-byte uncompressed public key of secret key `secret`.
pub uninterp spec fn secp256k1_public_key(secret: Seq<u8>) -> Seq<u8>;

/// The uncompressed public key recovered from a 65-byte recoverable signature
/// over `message`, when there is one.
pub uninterp spec fn secp256k1_recovered(signature: Seq<u8>, message: Seq<u8>) -> Option<Seq<u8>>;

/// A secret key that secp256k1 accepts for certain: its top sixteen bytes are
/// zero, so it lies below the group order, and it is not zero.
pub open spec fn is_small_secret(secret: Seq<u8>) -> bool {
    &&& secret.len() == 32
    &&& forall|i: int| 0 <= i < 16 ==> secret[i] == 0
    &&& secret[31] != 0
}

/// The 20-byte address derived from an uncompressed public key: the last
/// twenty bytes of the Keccak-256 digest of the key without its tag byte.
pub open spec fn eth_address_of(public_key: Seq<u8>) -> Seq<u8> {
    keccak256_of(public_key.subrange(1, 65)).subrange(12, 32)
}

/// Relies on sha3::Keccak256::digest: the 32-byte Keccak-256 digest.
#[verifier::external_body]
pub fn keccak256(data: &[u8]) -> (r: [u8; 32])
    ensures
        r@ == keccak256_of(data@),
{
    <sha3::Keccak256 as sha3::Digest>::digest(data).into()
}

/// Relies on libsecp256k1::SecretKey::parse, which accepts every scalar
/// strictly between zero and the group order, and on libsecp256k1::sign,
/// whose nonce is derived from the key and the message alone.
#[verifier::external_body]
pub fn secp256k1_sign(secret: &[u8; 32], message: &[u8; 32]) -> (r: [u8; 65])
    requires
        is_small_secret(secret@),
    ensures
        r@ == secp256k1_signature(secret@, message@),
{
    let key = libsecp256k1::SecretKey::parse(secret).unwrap();
    let (sig, recovery) = libsecp256k1::sign(&libsecp256k1::Message::parse(message), &key);
    let mut out = [0u8; 65];
    out[..64].copy_from_slice(&sig.serialize());
    out[64] = recovery.serialize();
    out
}

/// Relies on libsecp256k1::PublicKey::from_secret_key and its 65-byte
/// uncompressed serialization.
#[verifier::external_body]
pub fn secp256k1_public(secret: &[u8; 32]) -> (r: [u8; 65])
    requires
        is_small_secret(secret@),
    ensures
        r@ == secp256k1_public_key(secret@),
{
    let key = libsecp256k1::SecretKey::parse(secret).unwrap();
    libsecp256k1::PublicKey::from_secret_key(&key).serialize()
}

/// Relies on libsecp256k1::recover: the key that signed `message`, or `None`
/// where the signature or its recovery id does not parse or recovers nothing.
#[verifier::external_body]
pub fn secp256k1_recover(signature: &[u8; 65], message: &[u8; 32]) -> (r: Option<[u8; 65]>)
    ensures
        r matches Some(k) ==> secp256k1_recovered(signature@, message@) == Some(k@),
        r is None ==> secp256k1_recovered(signature@, message@) is None,
{
    let sig = libsecp256k1::Signature::parse_standard_slice(&signature[..64]).ok()?;
    let recovery = libsecp256k1::RecoveryId::parse(signature[64]).ok()?;
    let msg = libsecp256k1::Message::parse(message);
    libsecp256k1::recover(&msg, &sig, &recovery).ok().map(|k| k.serialize())
}

} // verus!
