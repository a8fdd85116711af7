use sha2::Digest;
use airoi::contacts::Contact;
use airoi::error::AiroiError;
use airoi::key_gen::{
    ed25519_pk_to_x25519, ed25519_sk_to_x25519, generate_key_pair, get_fingerprint,
};
use airoi::keys::Key;

#[test]
fn test_ed2519_sk_to_x25519_deterministic() {
    let ed_sk = [1u8; 32];
    let x_sk1 = ed25519_sk_to_x25519(&ed_sk);
    let x_sk2 = ed25519_sk_to_x25519(&ed_sk);
    assert_eq!(x_sk1, x_sk2);
}

#[test]
fn test_ed2519_pk_matches_sk_conversion() {
    let seed = [42u8; 32];
    let ed_sk = ed25519_dalek::SigningKey::from_bytes(&seed);
    let ed_pl = ed_sk.verifying_key();

    let x_sk = ed25519_sk_to_x25519(&ed_sk.to_bytes());
    let x_sk_arr: [u8; 32] = x_sk.as_slice().try_into().unwrap();
    let x_pk_from_sk = x25519_dalek::x25519(x_sk_arr, x25519_dalek::X25519_BASEPOINT_BYTES);

    let x_pk_from_pk = ed25519_pk_to_x25519(&ed_pl.to_bytes()).unwrap();

    assert_eq!(x_pk_from_sk.to_vec(), x_pk_from_pk);
}

#[test]
fn test_generate_key_pair_valid() {
    let kp = generate_key_pair().expect("key pair generation failed");

    assert_eq!(kp.private_key().ed25519_key_raw().len(), 32);
    assert_eq!(kp.private_key().x25519_key_raw().len(), 32);
    assert_eq!(kp.public_key().ed25519_key_raw().len(), 32);
    assert_eq!(kp.public_key().x25519_key_raw().len(), 32);

    let derived_x_pub = ed25519_pk_to_x25519(kp.public_key().ed25519_key_raw()).unwrap();
    assert_eq!(derived_x_pub, kp.public_key().x25519_key_raw());
}

#[test]
fn test_generate_key_pair_unique() {
    let kp1 = generate_key_pair().expect("key pair generation failed");
    let kp2 = generate_key_pair().expect("key pair generation failed");
    assert_ne!(
        kp1.public_key().ed25519_key_raw(),
        kp2.public_key().ed25519_key_raw()
    );
    assert_ne!(
        kp1.public_key().x25519_key_raw(),
        kp2.public_key().x25519_key_raw()
    );
}

#[test]
fn test_exchange_derivation_matches_direct_computation() {
    let seed = [5u8; 32];
    let mut expected: [u8; 32] = sha2::Sha512::digest(seed)[0..32].try_into().unwrap();
    expected[0] &= 248;
    expected[31] &= 127;
    expected[31] |= 64;
    assert_eq!(ed25519_sk_to_x25519(&seed), expected.to_vec());
}

#[test]
fn test_fingerprint_stable_and_sensitive() {
    let a = [3u8; 32];
    let mut b = a;
    b[17] ^= 1;
    assert_eq!(get_fingerprint(&a), get_fingerprint(&a));
    assert_ne!(get_fingerprint(&a), get_fingerprint(&b));
}

#[test]
fn test_fingerprint_matches_direct_computation() {
    let data = [9u8; 5];
    let expected = bs58::encode(sha2::Sha256::digest(data)).into_string();
    assert_eq!(get_fingerprint(&data), expected);
}

#[test]
fn test_key_new_encodes_and_fingerprints() {
    let ed = vec![1u8, 2, 3];
    let x = vec![4u8, 5, 6];
    let key = Key::new(ed.clone(), x.clone());
    assert_eq!(key.ed25519_key_raw(), ed.as_slice());
    assert_eq!(key.x25519_key_raw(), x.as_slice());
    assert_eq!(key.ed25519_key(), bs58::encode(&ed).into_string());
    assert_eq!(key.x25519_key(), bs58::encode(&x).into_string());
    assert_eq!(key.fingerprint_ed(), get_fingerprint(&ed));
    assert_eq!(key.fingerprint_x(), get_fingerprint(&x));
}

#[test]
fn test_invalid_point_is_rejected() {
    let r = ed25519_pk_to_x25519(&[0u8; 31]);
    assert!(matches!(r, Err(AiroiError::InvalidPoint(_))));
}

#[test]
fn test_contact_new_derives_exchange_fingerprint() {
    let kp = generate_key_pair().unwrap();
    let contact = Contact::new(
        "alice".to_string(),
        kp.public_key().ed25519_key_raw().to_vec(),
        "127.0.0.1:4444",
    )
    .unwrap();
    assert_eq!(contact.fingerprint_x(), kp.fingerprint_x());
    assert_eq!(contact.address(), "127.0.0.1:4444");
}

#[test]
fn test_contact_new_rejects_bad_key() {
    let r = Contact::new("mallory".to_string(), vec![0u8; 31], "addr");
    assert!(matches!(r, Err(AiroiError::InvalidPoint(_))));
}
