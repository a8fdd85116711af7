//! Key-material derivation and fingerprinting.
//!
//! An identity is a 32-byte Ed25519 signing seed; the X25519 exchange key is
//! always derived from it deterministically: hash the seed with SHA-512,
//! take the first 32 bytes, and clamp them to a valid X25519 scalar.  A
//! public signing key alone converts to the exchange public key through the
//! curve, so a remote peer can be matched by fingerprint without its seed.

use vstd::prelude::*;
use vstd::string::StringExecFns;

use crate::crypto::{
    base58_of, ed_point_decodable, ed_public_of, ed_to_mont_of, sha256_of, sha512_of,
    x25519_base_of,
};
use crate::error::AiroiError;
use crate::keys::{key_consistent, key_of_raw, Key, KeyPair, KeyPairModel};

verus! {

/// The fingerprint of raw key bytes: base58 of their SHA-256 digest, with
/// no truncation.
pub open spec fn fingerprint_of(bytes: Seq<u8>) -> Seq<char> {
    base58_of(sha256_of(bytes))
}

/// X25519 clamping: clear the low 3 bits of byte 0, clear the high bit and
/// set the second-highest bit of byte 31.
pub open spec fn clamp_scalar(s: Seq<u8>) -> Seq<u8>
    recommends
        s.len() == 32,
{
    s.update(0, s[0] & 248).update(31, (s[31] & 127) | 64)
}

/// The exchange private key derived from a signing seed: the first 32 bytes
/// of the seed's SHA-512 digest, clamped.
pub open spec fn x_exchange_of(seed: Seq<u8>) -> Seq<u8> {
    clamp_scalar(sha512_of(seed).subrange(0, 32))
}

/// A key pair whose exchange half is the derivation of its signing half:
/// the private exchange key comes from the signing seed, the public signing
/// key is the seed's verifying key, and the public exchange key is the
/// base-point multiple of the private exchange key.
pub open spec fn keypair_derived(kp: KeyPairModel) -> bool {
    &&& kp.private_key.ed_raw.len() == 32
    &&& kp.private_key.x_raw == x_exchange_of(kp.private_key.ed_raw)
    &&& kp.public_key.ed_raw == ed_public_of(kp.private_key.ed_raw)
    &&& kp.public_key.x_raw == x25519_base_of(kp.private_key.x_raw)
    &&& key_consistent(kp.private_key)
    &&& key_consistent(kp.public_key)
}

/// Draws a fresh 32-byte seed from the OS random source and derives the
/// full identity from it.  Fails only if the random source does.
pub fn generate_key_pair() -> (r: Result<KeyPair, AiroiError>)
    ensures
        r matches Ok(kp) ==> keypair_derived(kp@),
        r matches Err(e) ==> e matches AiroiError::Os(_),
{
    let seed = match crate::crypto::os_random_bytes(32) {
        Ok(seed) => seed,
        Err(e) => { return Err(e) },
    };
    let ed_vk = crate::crypto::ed_verifying_key(&seed);
    let x_sk = ed25519_sk_to_x25519(seed.as_slice());
    let x_pk = crate::crypto::x25519_basepoint_mul(&x_sk);

    let private_key = Key::new(seed, x_sk);
    let public_key = Key::new(ed_vk, x_pk);

    Ok(KeyPair { private_key, public_key, created_at: crate::crypto::now_rfc3339() })
}

/// Derives the X25519 private scalar from an Ed25519 signing seed:
/// SHA-512, first 32 bytes, clamped.  Deterministic: the result is a
/// function of the seed alone.
pub fn ed25519_sk_to_x25519(ed_bytes: &[u8]) -> (r: Vec<u8>)
    ensures
        r@ == x_exchange_of(ed_bytes@),
        r@.len() == 32,
{
    let hash = crate::crypto::sha512(ed_bytes);
    let mut x_sk = vstd::slice::slice_to_vec(vstd::slice::slice_subrange(hash.as_slice(), 0, 32));
    let b0 = x_sk[0];
    vstd::pervasive::VecAdditionalExecFns::set(&mut x_sk, 0, b0 & 248);
    let b31 = x_sk[31];
    vstd::pervasive::VecAdditionalExecFns::set(&mut x_sk, 31, (b31 & 127) | 64);
    proof {
        assert(x_sk@ =~= x_exchange_of(ed_bytes@));
    }
    x_sk
}

/// Converts an Ed25519 public key to the X25519 public key of the same
/// identity: decompress the Edwards point and take its Montgomery
/// u-coordinate.  Fails with a decode fault exactly when the 32 bytes do
/// not encode a curve point, or when the input is not 32 bytes long.
pub fn ed25519_pk_to_x25519(ed_pk: &[u8]) -> (r: Result<Vec<u8>, AiroiError>)
    ensures
        r is Ok <==> ed_pk@.len() == 32 && ed_point_decodable(ed_pk@),
        r matches Ok(v) ==> v@ == ed_to_mont_of(ed_pk@) && v@.len() == 32,
        r matches Err(e) ==> e matches AiroiError::InvalidPoint(_),
{
    if ed_pk.len() != 32 {
        return Err(AiroiError::InvalidPoint(invalid_point_text()));
    }
    let bytes = vstd::slice::slice_to_vec(ed_pk);
    match crate::crypto::ed_point_to_montgomery(&bytes) {
        Some(v) => Ok(v),
        None => Err(AiroiError::InvalidPoint(invalid_point_text())),
    }
}

/// The fingerprint of raw key bytes: SHA-256, base58-encoded.  Stable for
/// identical input.
pub fn get_fingerprint(key_bytes: &[u8]) -> (r: String)
    ensures
        r@ == fingerprint_of(key_bytes@),
{
    let digest = crate::crypto::sha256(key_bytes);
    crate::crypto::bs58_encode(digest.as_slice())
}

/// Derivation of the exchange private key is a pure function of the seed:
/// identical seeds always yield identical exchange key bytes.
pub proof fn lemma_exchange_derivation_deterministic(seed1: Seq<u8>, seed2: Seq<u8>)
    requires
        seed1 == seed2,
    ensures
        x_exchange_of(seed1) == x_exchange_of(seed2),
{
}

/// The fingerprint is stable: identical key bytes always yield the
/// identical fingerprint text.
pub proof fn lemma_fingerprint_stable(bytes1: Seq<u8>, bytes2: Seq<u8>)
    requires
        bytes1 == bytes2,
    ensures
        fingerprint_of(bytes1) == fingerprint_of(bytes2),
{
}

/// Clamping meets the X25519 scalar requirements: the low 3 bits of byte 0
/// are clear, the high bit of byte 31 is clear, and the second-highest bit
/// of byte 31 is set.
pub proof fn lemma_clamp_sets_scalar_bits(s: Seq<u8>)
    requires
        s.len() == 32,
    ensures
        clamp_scalar(s)[0] & 7 == 0,
        clamp_scalar(s)[31] & 128 == 0,
        clamp_scalar(s)[31] & 64 == 64,
{
    let b0 = s[0];
    let b31 = s[31];
    assert((b0 & 248) & 7 == 0) by (bit_vector);
    assert(((b31 & 127) | 64) & 128 == 0) by (bit_vector);
    assert(((b31 & 127) | 64) & 64 == 64) by (bit_vector);
}

fn invalid_point_text() -> (r: String)
    ensures
        r@.len() > 0,
{
    let r = String::from_str("bytes do not encode a signing-curve point");
    proof {
        reveal_strlit("bytes do not encode a signing-curve point");
    }
    r
}

} // verus!
