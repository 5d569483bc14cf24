//! Trusted boundary to the cryptographic primitives: the BLAKE3 digest and
//! the Ed25519 signature scheme. Each wrapper makes one outside call; its
//! contract states what the crate's documentation promises, over named
//! results, and everything built on top of these names is verified.

use ed25519_dalek::Signer;
use ed25519_dalek::Verifier;
use vstd::prelude::*;

verus! {

/// The BLAKE3 digest of a byte sequence. The digest is a pure function of
/// the input bytes alone; its 32-byte value is not spelled out here.
pub uninterp spec fn blake3_of(content: Seq<u8>) -> Seq<u8>;

/// The Ed25519 signature that the given 32-byte secret key produces over a
/// message. Ed25519 signing is deterministic: the same key and message give
/// the same signature on every machine.
pub uninterp spec fn ed25519_sig_of(sk: Seq<u8>, msg: Seq<u8>) -> Seq<u8>;

/// The 32-byte Ed25519 public key derived from a 32-byte secret key.
/// Derivation is deterministic.
pub uninterp spec fn ed25519_pk_of(sk: Seq<u8>) -> Seq<u8>;

/// Whether 32 bytes decode to a well-formed Ed25519 verification key
/// (a valid compressed Edwards point). A pure function of the bytes.
pub uninterp spec fn ed25519_pk_valid(pk: Seq<u8>) -> bool;

/// Whether a signature verifies under a public key for a message, as the
/// Ed25519 verification equation decides it. A pure function of the three
/// byte sequences.
pub uninterp spec fn ed25519_sig_valid(pk: Seq<u8>, msg: Seq<u8>, sig: Seq<u8>) -> bool;

/// Relies on blake3::hash: a 32-byte digest computed from the input bytes
/// alone.
#[verifier::external_body]
pub(crate) fn blake3_digest(content: &[u8]) -> (r: Vec<u8>)
    ensures
        r@ == blake3_of(content@),
        r@.len() == 32,
{
    blake3::hash(content).as_bytes().to_vec()
}

/// Relies on ed25519_dalek::SigningKey::from_bytes (total on 32-byte input)
/// and Signer::sign: deterministic RFC 8032 signing, a 64-byte signature
/// that verifies under the key's own verification key.
#[verifier::external_body]
pub(crate) fn ed25519_sign_digest(sk: &[u8], msg: &[u8]) -> (r: Vec<u8>)
    requires
        sk@.len() == 32,
    ensures
        r@ == ed25519_sig_of(sk@, msg@),
        r@.len() == 64,
        ed25519_sig_valid(ed25519_pk_of(sk@), msg@, r@),
{
    let key = ed25519_dalek::SigningKey::from_bytes(sk.try_into().unwrap());
    key.sign(msg).to_bytes().to_vec()
}

/// Relies on ed25519_dalek::SigningKey::verifying_key and
/// VerifyingKey::to_bytes: the public key derived from the secret key, a
/// valid compressed Edwards point of 32 bytes.
#[verifier::external_body]
pub(crate) fn ed25519_derive_public(sk: &[u8]) -> (r: Vec<u8>)
    requires
        sk@.len() == 32,
    ensures
        r@ == ed25519_pk_of(sk@),
        r@.len() == 32,
        ed25519_pk_valid(r@),
{
    let key = ed25519_dalek::SigningKey::from_bytes(sk.try_into().unwrap());
    key.verifying_key().to_bytes().to_vec()
}

/// Relies on ed25519_dalek::VerifyingKey::from_bytes, which fails exactly
/// when the bytes are not a valid compressed Edwards point, and on
/// Verifier::verify, which decides the verification equation; both are
/// deterministic in their byte inputs. Signature::from_bytes is total.
#[verifier::external_body]
pub(crate) fn ed25519_verify_digest(pk: &[u8], msg: &[u8], sig: &[u8]) -> (r: Option<bool>)
    requires
        pk@.len() == 32,
        sig@.len() == 64,
    ensures
        r is Some <==> ed25519_pk_valid(pk@),
        r matches Some(b) ==> b == ed25519_sig_valid(pk@, msg@, sig@),
{
    match ed25519_dalek::VerifyingKey::from_bytes(pk.try_into().unwrap()) {
        Ok(key) => {
            let signature = ed25519_dalek::Signature::from_bytes(sig.try_into().unwrap());
            Some(key.verify(msg, &signature).is_ok())
        }
        Err(_) => None,
    }
}

} // verus!
