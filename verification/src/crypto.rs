//! Trusted boundary to the cryptographic primitives and encodings the
//! library's logic is built on.  Each wrapper names, in its doc comment, the
//! outside function it relies on; results that are functions of the arguments
//! alone are given uninterpreted names so that contracts elsewhere can speak
//! of them exactly.

use vstd::prelude::*;

use base64::Engine;
use chacha20poly1305::aead::Aead;
use chacha20poly1305::KeyInit;
use chacha20poly1305::XChaCha20Poly1305;
use chacha20poly1305::XNonce;
use rand::TryRng;
use sha2::Digest;
use zeroize::Zeroize;

use crate::error::AiroiError;

verus! {

/// The SHA-256 digest of a byte string.
pub uninterp spec fn sha256_of(bytes: Seq<u8>) -> Seq<u8>;

/// The SHA-512 digest of a byte string.
pub uninterp spec fn sha512_of(bytes: Seq<u8>) -> Seq<u8>;

/// The base58 (Bitcoin alphabet) encoding of a byte string.
pub uninterp spec fn base58_of(bytes: Seq<u8>) -> Seq<char>;

/// The standard padded base64 encoding of a byte string.
pub uninterp spec fn base64_of(bytes: Seq<u8>) -> Seq<char>;

/// What standard padded base64 decoding yields for a character string, if it
/// decodes at all.
pub uninterp spec fn base64_decoded(text: Seq<char>) -> Option<Seq<u8>>;

/// The Ed25519 verifying key derived from a 32-byte signing seed.
pub uninterp spec fn ed_public_of(seed: Seq<u8>) -> Seq<u8>;

/// Whether 32 bytes decompress to a point of the Edwards curve.
pub uninterp spec fn ed_point_decodable(bytes: Seq<u8>) -> bool;

/// The Montgomery u-coordinate of the Edwards point encoded by 32 bytes.
pub uninterp spec fn ed_to_mont_of(bytes: Seq<u8>) -> Seq<u8>;

/// The X25519 scalar multiplication of a 32-byte scalar with the base point.
pub uninterp spec fn x25519_base_of(scalar: Seq<u8>) -> Seq<u8>;

/// The 32-byte Argon2id digest of a passphrase under a salt and explicit
/// cost parameters (memory blocks, iterations, parallelism).
pub uninterp spec fn argon2id_of(pass: Seq<u8>, salt: Seq<u8>, m: u32, t: u32, p: u32) -> Seq<u8>;

/// Whether Argon2id accepts a passphrase, salt and cost parameters: the
/// derivation succeeds or fails as a function of these alone.
pub uninterp spec fn argon2id_accepts(pass: Seq<u8>, salt: Seq<u8>, m: u32, t: u32, p: u32) -> bool;

/// The XChaCha20-Poly1305 sealing of a plaintext under a 32-byte key and a
/// 24-byte nonce, with no associated data.
pub uninterp spec fn xchacha_seal_of(key: Seq<u8>, nonce: Seq<u8>, plain: Seq<u8>) -> Seq<u8>;

/// What XChaCha20-Poly1305 opening yields for a ciphertext under a 32-byte
/// key and a 24-byte nonce, if authentication succeeds at all.
pub uninterp spec fn xchacha_open_of(key: Seq<u8>, nonce: Seq<u8>, cipher: Seq<u8>) -> Option<
    Seq<u8>,
>;

/// The lossy UTF-8 decoding of a byte string: invalid sequences are replaced,
/// never rejected.
pub uninterp spec fn utf8_lossy_of(bytes: Seq<u8>) -> Seq<char>;

/// Relies on sha2's `Sha256`: the digest is a function of the input bytes
/// alone and is 32 bytes long.
#[verifier::external_body]
pub(crate) fn sha256(bytes: &[u8]) -> (r: Vec<u8>)
    ensures
        r@ == sha256_of(bytes@),
        r@.len() == 32,
{
    sha2::Sha256::digest(bytes).to_vec()
}

/// Relies on sha2's `Sha512`: the digest is a function of the input bytes
/// alone and is 64 bytes long.
#[verifier::external_body]
pub(crate) fn sha512(bytes: &[u8]) -> (r: Vec<u8>)
    ensures
        r@ == sha512_of(bytes@),
        r@.len() == 64,
{
    sha2::Sha512::digest(bytes).to_vec()
}

/// Relies on bs58's `encode`: the encoding is a function of the input bytes
/// alone.
#[verifier::external_body]
pub(crate) fn bs58_encode(bytes: &[u8]) -> (r: String)
    ensures
        r@ == base58_of(bytes@),
{
    bs58::encode(bytes).into_string()
}

/// Relies on base64's `STANDARD` engine `encode`; the engine documents that
/// decoding what it encoded yields the original bytes.
#[verifier::external_body]
pub(crate) fn b64_encode(bytes: &[u8]) -> (r: String)
    ensures
        r@ == base64_of(bytes@),
        base64_decoded(r@) == Some(bytes@),
{
    base64::engine::general_purpose::STANDARD.encode(bytes)
}

/// Relies on base64's `STANDARD` engine `decode`: success and result are a
/// function of the input text alone.
#[verifier::external_body]
pub(crate) fn b64_decode(text: &str) -> (r: Result<Vec<u8>, AiroiError>)
    ensures
        r is Ok <==> base64_decoded(text@) is Some,
        r matches Ok(v) ==> base64_decoded(text@) == Some(v@),
        r matches Err(e) ==> e matches AiroiError::Base64Decode(_),
{
    base64::engine::general_purpose::STANDARD.decode(text).map_err(
        |e| AiroiError::Base64Decode(format!("{e}")),
    )
}

/// Relies on ed25519-dalek's `SigningKey::from_bytes` and `verifying_key`:
/// the verifying key is a function of the 32-byte seed alone.
#[verifier::external_body]
pub(crate) fn ed_verifying_key(seed: &Vec<u8>) -> (r: Vec<u8>)
    requires
        seed@.len() == 32,
    ensures
        r@ == ed_public_of(seed@),
        r@.len() == 32,
{
    let seed32: [u8; 32] = seed.as_slice().try_into().unwrap();
    let sk = ed25519_dalek::SigningKey::from_bytes(&seed32);
    sk.verifying_key().to_bytes().to_vec()
}

/// Relies on curve25519-dalek's `CompressedEdwardsY::decompress` and
/// `EdwardsPoint::to_montgomery`: both are functions of the 32 input bytes
/// alone, and decompression fails exactly on encodings of no curve point.
#[verifier::external_body]
pub(crate) fn ed_point_to_montgomery(bytes: &Vec<u8>) -> (r: Option<Vec<u8>>)
    requires
        bytes@.len() == 32,
    ensures
        r is Some <==> ed_point_decodable(bytes@),
        r matches Some(v) ==> v@ == ed_to_mont_of(bytes@) && v@.len() == 32,
{
    let b: [u8; 32] = bytes.as_slice().try_into().unwrap();
    let compressed = curve25519_dalek::edwards::CompressedEdwardsY(b);
    compressed.decompress().map(|p| p.to_montgomery().to_bytes().to_vec())
}

/// Relies on x25519-dalek's `x25519` with `X25519_BASEPOINT_BYTES`: the
/// product is a function of the 32-byte scalar alone.
#[verifier::external_body]
pub(crate) fn x25519_basepoint_mul(scalar: &Vec<u8>) -> (r: Vec<u8>)
    requires
        scalar@.len() == 32,
    ensures
        r@ == x25519_base_of(scalar@),
        r@.len() == 32,
{
    let s: [u8; 32] = scalar.as_slice().try_into().unwrap();
    x25519_dalek::x25519(s, x25519_dalek::X25519_BASEPOINT_BYTES).to_vec()
}

/// Relies on rand's `SysRng` (`try_fill_bytes`): on success the buffer is
/// filled completely; nothing is assumed about the bytes themselves.
#[verifier::external_body]
pub(crate) fn os_random_bytes(n: usize) -> (r: Result<Vec<u8>, AiroiError>)
    ensures
        r matches Ok(v) ==> v@.len() == n,
        r matches Err(e) ==> e matches AiroiError::Os(_),
{
    let mut buf = vec![0u8; n];
    match rand::rngs::SysRng.try_fill_bytes(&mut buf) {
        Ok(()) => Ok(buf),
        Err(e) => Err(AiroiError::Os(format!("{e}"))),
    }
}

/// Relies on argon2's `Argon2::hash_password_into_with_memory` with the
/// Argon2id algorithm and a 32-byte output: the digest is a function of the
/// passphrase, the salt and the cost parameters alone, and so is success —
/// with the block buffer supplied here, every remaining failure is an input
/// validation (cost bounds, passphrase or salt length).
#[verifier::external_body]
pub(crate) fn argon2id_derive(pass: &[u8], salt: &[u8], m: u32, t: u32, p: u32) -> (r: Result<
    Vec<u8>,
    AiroiError,
>)
    ensures
        r is Ok <==> argon2id_accepts(pass@, salt@, m, t, p),
        r matches Ok(k) ==> k@ == argon2id_of(pass@, salt@, m, t, p) && k@.len() == 32,
        r matches Err(e) ==> e matches AiroiError::Argon2(_),
{
    let params = argon2::Params::new(m, t, p, Some(32)).map_err(
        |e| AiroiError::Argon2(format!("{e}")),
    )?;
    let block_count = params.block_count();
    let argon = argon2::Argon2::new(argon2::Algorithm::Argon2id, argon2::Version::V0x13, params);
    let mut blocks = vec![argon2::Block::default(); block_count];
    let mut key = vec![0u8; 32];
    argon.hash_password_into_with_memory(pass, salt, &mut key, &mut blocks[..]).map_err(
        |e| AiroiError::Argon2(format!("{e}")),
    )?;
    Ok(key)
}

/// Relies on chacha20poly1305's `XChaCha20Poly1305` `encrypt`: the ciphertext
/// is a function of key, nonce and plaintext alone, carries a 16-byte tag,
/// and `decrypt` of it under the same key and nonce returns the plaintext.
#[verifier::external_body]
pub(crate) fn xchacha_encrypt(key: &Vec<u8>, nonce: &Vec<u8>, plain: &Vec<u8>) -> (r: Result<
    Vec<u8>,
    AiroiError,
>)
    requires
        key@.len() == 32,
        nonce@.len() == 24,
    ensures
        r matches Ok(c) ==> c@ == xchacha_seal_of(key@, nonce@, plain@),
        r matches Ok(c) ==> xchacha_open_of(key@, nonce@, c@) == Some(plain@),
        r matches Ok(c) ==> c@.len() == plain@.len() + 16,
        r matches Err(e) ==> e matches AiroiError::XChaCha20Poly1305(_),
{
    let cipher = XChaCha20Poly1305::new_from_slice(key).map_err(
        |e| AiroiError::XChaCha20Poly1305(format!("{e}")),
    )?;
    let xn = XNonce::try_from(nonce.as_slice()).unwrap();
    cipher.encrypt(&xn, plain.as_slice()).map_err(
        |e| AiroiError::XChaCha20Poly1305(format!("{e}")),
    )
}

/// Relies on chacha20poly1305's `XChaCha20Poly1305` `decrypt`: success and
/// plaintext are a function of key, nonce and ciphertext alone, and
/// authentication failure releases no plaintext.
#[verifier::external_body]
pub(crate) fn xchacha_decrypt(key: &Vec<u8>, nonce: &Vec<u8>, cipher_text: &Vec<u8>) -> (r: Result<
    Vec<u8>,
    AiroiError,
>)
    requires
        key@.len() == 32,
        nonce@.len() == 24,
    ensures
        r is Ok <==> xchacha_open_of(key@, nonce@, cipher_text@) is Some,
        r matches Ok(p) ==> xchacha_open_of(key@, nonce@, cipher_text@) == Some(p@),
        r matches Err(e) ==> e matches AiroiError::XChaCha20Poly1305(_),
{
    let cipher = XChaCha20Poly1305::new_from_slice(key).map_err(
        |e| AiroiError::XChaCha20Poly1305(format!("{e}")),
    )?;
    let xn = XNonce::try_from(nonce.as_slice()).unwrap();
    cipher.decrypt(&xn, cipher_text.as_slice()).map_err(
        |e| AiroiError::XChaCha20Poly1305(format!("{e}")),
    )
}

/// Relies on zeroize's `Zeroize` for `Vec<u8>`: the buffer is overwritten
/// with zeros out to its capacity and the vector is cleared.
#[verifier::external_body]
pub(crate) fn zeroize_bytes(bytes: &mut Vec<u8>)
    ensures
        final(bytes)@.len() == 0,
{
    bytes.zeroize();
}

/// Relies on zeroize's `Zeroize` for `String`: the buffer is overwritten
/// with zeros and the string is cleared.
#[verifier::external_body]
pub(crate) fn zeroize_string(text: &mut String)
    ensures
        final(text)@.len() == 0,
{
    text.zeroize();
}

/// Relies on std's equality for `str`: two string slices compare equal
/// exactly when their character sequences are equal.
#[verifier::external_body]
pub(crate) fn str_eq(a: &str, b: &str) -> (r: bool)
    ensures
        r <==> a@ == b@,
{
    a == b
}

/// Relies on chrono's `Utc::now().to_rfc3339()`.  The result depends on the
/// clock, so nothing is assumed of it.
#[verifier::external_body]
pub(crate) fn now_rfc3339() -> String {
    chrono::Utc::now().to_rfc3339()
}

/// Relies on std's `String::from_utf8`: it succeeds exactly on valid UTF-8
/// and then returns the decoded characters.
#[verifier::external_body]
pub(crate) fn bytes_to_string(bytes: Vec<u8>) -> (r: Option<String>)
    ensures
        r is Some <==> vstd::utf8::valid_utf8(bytes@),
        r matches Some(s) ==> s@ == vstd::utf8::decode_utf8(bytes@),
{
    String::from_utf8(bytes).ok()
}

/// Relies on std's `String::from_utf8_lossy`: the result is a function of
/// the input bytes alone, and valid UTF-8 is decoded unchanged.
#[verifier::external_body]
pub(crate) fn bytes_to_string_lossy(bytes: &Vec<u8>) -> (r: String)
    ensures
        r@ == utf8_lossy_of(bytes@),
        vstd::utf8::valid_utf8(bytes@) ==> r@ == vstd::utf8::decode_utf8(bytes@),
{
    String::from_utf8_lossy(bytes).into_owned()
}

} // verus!
