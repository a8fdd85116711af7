use base64::Engine;
use airoi::error::AiroiError;
use airoi::key_gen::generate_key_pair;
use airoi::keys::KeyPair;
use airoi::storage::{
    decrypt_keypair, deserialize_keypair, encrypt_keypair, fetch_local_keypair,
    serialize_keypair, zeroize_keypair_inplace, Passphrase,
};

fn assert_keypairs_equal(a: &KeyPair, b: &KeyPair) {
    assert_eq!(a.private_key.ed25519_key.0, b.private_key.ed25519_key.0);
    assert_eq!(a.private_key.ed25519_key.1, b.private_key.ed25519_key.1);
    assert_eq!(a.private_key.x25519_key.0, b.private_key.x25519_key.0);
    assert_eq!(a.private_key.x25519_key.1, b.private_key.x25519_key.1);
    assert_eq!(a.private_key.fingerprint_ed, b.private_key.fingerprint_ed);
    assert_eq!(a.private_key.fingerprint_x, b.private_key.fingerprint_x);
    assert_eq!(a.public_key.ed25519_key.0, b.public_key.ed25519_key.0);
    assert_eq!(a.public_key.ed25519_key.1, b.public_key.ed25519_key.1);
    assert_eq!(a.public_key.x25519_key.0, b.public_key.x25519_key.0);
    assert_eq!(a.public_key.x25519_key.1, b.public_key.x25519_key.1);
    assert_eq!(a.public_key.fingerprint_ed, b.public_key.fingerprint_ed);
    assert_eq!(a.public_key.fingerprint_x, b.public_key.fingerprint_x);
    assert_eq!(a.created_at, b.created_at);
}

#[test]
fn test_serialize_round_trip() {
    let kp = generate_key_pair().unwrap();
    let bytes = serialize_keypair(&kp).unwrap();
    let restored = deserialize_keypair(&bytes).unwrap();
    assert_keypairs_equal(&kp, &restored);
}

#[test]
fn test_deserialize_rejects_garbage() {
    assert!(matches!(
        deserialize_keypair(&vec![1, 2, 3]),
        Err(AiroiError::Serde(_))
    ));
    let kp = generate_key_pair().unwrap();
    let mut bytes = serialize_keypair(&kp).unwrap();
    bytes.push(0);
    assert!(matches!(
        deserialize_keypair(&bytes),
        Err(AiroiError::Serde(_))
    ));
}

#[test]
fn test_keystore_round_trip() {
    let kp = generate_key_pair().unwrap();
    let record = encrypt_keypair(&kp, "correct horse").unwrap();
    let restored = decrypt_keypair(&record, "correct horse").unwrap();
    assert_keypairs_equal(&kp, &restored);
}

#[test]
fn test_keystore_wrong_passphrase_is_auth_failure() {
    let kp = generate_key_pair().unwrap();
    let record = encrypt_keypair(&kp, "correct horse").unwrap();
    let r = decrypt_keypair(&record, "battery staple");
    assert!(matches!(r, Err(AiroiError::XChaCha20Poly1305(_))));
}

#[test]
fn test_keystore_tamper_is_auth_failure() {
    let kp = generate_key_pair().unwrap();
    let mut record = encrypt_keypair(&kp, "pw").unwrap();
    let mut ct = base64_decode(&record.ct_b64);
    ct[0] ^= 1;
    record.ct_b64 = base64_encode(&ct);
    let r = decrypt_keypair(&record, "pw");
    assert!(matches!(r, Err(AiroiError::XChaCha20Poly1305(_))));
}

#[test]
fn test_keystore_malformed_record_is_parse_failure() {
    let kp = generate_key_pair().unwrap();
    let mut record = encrypt_keypair(&kp, "pw").unwrap();
    record.salt_b64 = "!!! not base64 !!!".to_string();
    assert!(matches!(
        decrypt_keypair(&record, "pw"),
        Err(AiroiError::Base64Decode(_))
    ));

    let mut short_salt = encrypt_keypair(&kp, "pw").unwrap();
    short_salt.salt_b64 = base64_encode(&[1, 2, 3]);
    assert!(matches!(
        decrypt_keypair(&short_salt, "pw"),
        Err(AiroiError::Serde(_))
    ));

    let mut bad_params = encrypt_keypair(&kp, "pw").unwrap();
    bad_params.argon_m = 0;
    assert!(matches!(
        decrypt_keypair(&bad_params, "pw"),
        Err(AiroiError::Argon2(_))
    ));
}

#[test]
fn test_fetch_local_keypair_prefers_vault() {
    let kp = generate_key_pair().unwrap();
    let vault = serialize_keypair(&kp).unwrap();
    let restored = fetch_local_keypair(Some(vault), None, "unused").unwrap();
    assert_keypairs_equal(&kp, &restored);
}

#[test]
fn test_fetch_local_keypair_falls_back_to_record() {
    let kp = generate_key_pair().unwrap();
    let record = encrypt_keypair(&kp, "pw").unwrap();
    let restored = fetch_local_keypair(Some(vec![9, 9, 9]), Some(&record), "pw").unwrap();
    assert_keypairs_equal(&kp, &restored);
}

#[test]
fn test_fetch_local_keypair_without_backends_fails() {
    let r = fetch_local_keypair(None, None, "pw");
    assert!(matches!(r, Err(AiroiError::Keyring(_))));
}

#[test]
fn test_zeroize_keypair_inplace() {
    let mut kp = generate_key_pair().unwrap();
    let public_ed = kp.public_key.ed25519_key.0.clone();
    zeroize_keypair_inplace(&mut kp);
    assert!(kp.private_key.ed25519_key.0.is_empty());
    assert!(kp.private_key.ed25519_key.1.is_empty());
    assert!(kp.private_key.x25519_key.0.is_empty());
    assert!(kp.private_key.x25519_key.1.is_empty());
    assert_eq!(kp.public_key.ed25519_key.0, public_ed);
}

#[test]
fn test_passphrase_cache() {
    let mut cache = Passphrase::new();
    assert!(cache.get().is_none());
    cache.set("secret".to_string());
    assert_eq!(cache.get(), Some("secret".to_string()));
    assert_eq!(cache.get(), Some("secret".to_string()));
    cache.scrub();
    assert!(cache.get().is_none());
}

fn base64_decode(s: &str) -> Vec<u8> {
    base64::engine::general_purpose::STANDARD.decode(s).unwrap()
}

fn base64_encode(b: &[u8]) -> String {
    base64::engine::general_purpose::STANDARD.encode(b)
}
