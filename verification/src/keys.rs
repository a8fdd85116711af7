//! Key material: a single key holding raw bytes with their base58 encoding
//! and fingerprints, and the identity pair of private and public keys.

use vstd::prelude::*;

use crate::crypto::base58_of;
use crate::key_gen::{fingerprint_of, get_fingerprint};

verus! {

/// One key's material: the raw bytes and the base58 encoding of the X25519
/// exchange key and of the Ed25519 signing key, plus the fingerprint of
/// each.  Immutable once constructed.
pub struct Key {
    pub x25519_key: (Vec<u8>, String),
    pub ed25519_key: (Vec<u8>, String),
    pub fingerprint_ed: String,
    pub fingerprint_x: String,
}

/// The mathematical content of a [`Key`].
pub struct KeyModel {
    pub ed_raw: Seq<u8>,
    pub ed_b58: Seq<char>,
    pub x_raw: Seq<u8>,
    pub x_b58: Seq<char>,
    pub fp_ed: Seq<char>,
    pub fp_x: Seq<char>,
}

impl View for Key {
    type V = KeyModel;

    open spec fn view(&self) -> KeyModel {
        KeyModel {
            ed_raw: self.ed25519_key.0@,
            ed_b58: self.ed25519_key.1@,
            x_raw: self.x25519_key.0@,
            x_b58: self.x25519_key.1@,
            fp_ed: self.fingerprint_ed@,
            fp_x: self.fingerprint_x@,
        }
    }
}

/// The derived fields of a key agree with its raw bytes: encodings are the
/// base58 of the raws and fingerprints are the fingerprint of the raws.
pub open spec fn key_consistent(k: KeyModel) -> bool {
    &&& k.ed_b58 == base58_of(k.ed_raw)
    &&& k.x_b58 == base58_of(k.x_raw)
    &&& k.fp_ed == fingerprint_of(k.ed_raw)
    &&& k.fp_x == fingerprint_of(k.x_raw)
}

/// What [`Key::new`] builds from two raw keys.
pub open spec fn key_of_raw(ed_raw: Seq<u8>, x_raw: Seq<u8>) -> KeyModel {
    KeyModel {
        ed_raw,
        ed_b58: base58_of(ed_raw),
        x_raw,
        x_b58: base58_of(x_raw),
        fp_ed: fingerprint_of(ed_raw),
        fp_x: fingerprint_of(x_raw),
    }
}

impl Key {
    /// Packages raw signing and exchange keys with their encodings and
    /// fingerprints.
    pub fn new(raw_ed25519_key: Vec<u8>, raw_x25519_key: Vec<u8>) -> (r: Key)
        ensures
            r@ == key_of_raw(raw_ed25519_key@, raw_x25519_key@),
            key_consistent(r@),
    {
        let fingerprint_ed = get_fingerprint(raw_ed25519_key.as_slice());
        let ed25519_str = crate::crypto::bs58_encode(raw_ed25519_key.as_slice());
        let ed25519_key = (raw_ed25519_key, ed25519_str);

        let fingerprint_x = get_fingerprint(raw_x25519_key.as_slice());
        let x25519_str = crate::crypto::bs58_encode(raw_x25519_key.as_slice());
        let x25519_key = (raw_x25519_key, x25519_str);

        Key { ed25519_key, x25519_key, fingerprint_ed, fingerprint_x }
    }

    /// The base58 encoding of the signing key.
    pub fn ed25519_key(&self) -> (r: &str)
        ensures
            r@ == self@.ed_b58,
    {
        self.ed25519_key.1.as_str()
    }

    /// The raw bytes of the signing key.
    pub fn ed25519_key_raw(&self) -> (r: &[u8])
        ensures
            r@ == self@.ed_raw,
    {
        self.ed25519_key.0.as_slice()
    }

    /// The base58 encoding of the exchange key.
    pub fn x25519_key(&self) -> (r: &str)
        ensures
            r@ == self@.x_b58,
    {
        self.x25519_key.1.as_str()
    }

    /// The raw bytes of the exchange key.
    pub fn x25519_key_raw(&self) -> (r: &[u8])
        ensures
            r@ == self@.x_raw,
    {
        self.x25519_key.0.as_slice()
    }

    /// The fingerprint of the signing key.
    pub fn fingerprint_ed(&self) -> (r: &str)
        ensures
            r@ == self@.fp_ed,
    {
        self.fingerprint_ed.as_str()
    }

    /// The fingerprint of the exchange key.
    pub fn fingerprint_x(&self) -> (r: &str)
        ensures
            r@ == self@.fp_x,
    {
        self.fingerprint_x.as_str()
    }
}

impl Clone for Key {
    fn clone(&self) -> (r: Self)
        ensures
            r@ == self@,
    {
        Key {
            x25519_key: (clone_bytes(&self.x25519_key.0), self.x25519_key.1.clone()),
            ed25519_key: (clone_bytes(&self.ed25519_key.0), self.ed25519_key.1.clone()),
            fingerprint_ed: self.fingerprint_ed.clone(),
            fingerprint_x: self.fingerprint_x.clone(),
        }
    }
}

/// The local identity: a private and a public key and the creation time.
/// The exchange half of each key is always the deterministic derivation of
/// its signing half, never independently generated.
pub struct KeyPair {
    pub private_key: Key,
    pub public_key: Key,
    pub created_at: String,
}

/// The mathematical content of a [`KeyPair`].
pub struct KeyPairModel {
    pub private_key: KeyModel,
    pub public_key: KeyModel,
    pub created_at: Seq<char>,
}

impl View for KeyPair {
    type V = KeyPairModel;

    open spec fn view(&self) -> KeyPairModel {
        KeyPairModel {
            private_key: self.private_key@,
            public_key: self.public_key@,
            created_at: self.created_at@,
        }
    }
}

impl KeyPair {
    /// The private key of the identity.
    pub fn private_key(&self) -> (r: &Key)
        ensures
            r@ == self@.private_key,
    {
        &self.private_key
    }

    /// The public key of the identity.
    pub fn public_key(&self) -> (r: &Key)
        ensures
            r@ == self@.public_key,
    {
        &self.public_key
    }

    /// The fingerprint of the public signing key.
    pub fn fingerprint_ed(&self) -> (r: &str)
        ensures
            r@ == self@.public_key.fp_ed,
    {
        self.public_key.fingerprint_ed()
    }

    /// The fingerprint of the public exchange key.
    pub fn fingerprint_x(&self) -> (r: &str)
        ensures
            r@ == self@.public_key.fp_x,
    {
        self.public_key.fingerprint_x()
    }
}

impl Clone for KeyPair {
    fn clone(&self) -> (r: Self)
        ensures
            r@ == self@,
    {
        KeyPair {
            private_key: self.private_key.clone(),
            public_key: self.public_key.clone(),
            created_at: self.created_at.clone(),
        }
    }
}

/// Copies a byte string.
pub fn clone_bytes(v: &Vec<u8>) -> (r: Vec<u8>)
    ensures
        r@ == v@,
{
    let r = v.clone();
    assert(r@ =~= v@);
    r
}

} // verus!
