//! At-rest protection of the local identity.
//!
//! The key pair is serialized to a field-for-field byte image, then sealed
//! into an [`EncryptedKeystore`] record: a fresh random salt and nonce, a
//! 256-bit key derived from a passphrase by Argon2id under explicit cost
//! parameters, and an XChaCha20-Poly1305 ciphertext.  The record stores the
//! parameters it was made with, so later loads reproduce the derivation even
//! if defaults change.  Opening with the right passphrase provably restores
//! the identity bit for bit; an authentication failure is reported apart
//! from a malformed record.  Reading and writing the record or the
//! credential vault is the surrounding process's job.

use vstd::prelude::*;
use vstd::string::StrSliceExecFns;
use vstd::string::StringExecFns;
use vstd::string::StringSliceAdditionalSpecFns;
use vstd::utf8::{decode_utf8, encode_utf8, valid_utf8};

use crate::crypto::{
    argon2id_accepts, argon2id_of, base64_decoded, xchacha_open_of, xchacha_seal_of,
};
use crate::error::AiroiError;
use crate::frame::{frame_bytes, parse_frame, read_frame, write_frame};
use crate::keys::{clone_bytes, Key, KeyPair, KeyPairModel};

verus! {

/// Memory cost (KiB blocks) used for newly sealed records.
pub const ARGON_M_COST: u32 = 32768;

/// Iteration count used for newly sealed records.
pub const ARGON_T_COST: u32 = 3;

/// Degree of parallelism used for newly sealed records.
pub const ARGON_P_COST: u32 = 1;

/// The number of length-prefixed fields in a serialized key pair.
pub const KEYPAIR_FIELD_COUNT: usize = 13;

/// A plaintext image of the identity as the vault strategies exchange it.
pub struct LocalKeyFile {
    pub private_key: String,
    pub public_key: String,
    pub created_at: String,
}

/// The persisted envelope: base64 salt, nonce and ciphertext, plus the
/// Argon2id cost parameters the key was derived with.
pub struct EncryptedKeystore {
    pub salt_b64: String,
    pub nonce_b64: String,
    pub ct_b64: String,
    pub argon_m: u32,
    pub argon_t: u32,
    pub argon_p: u32,
}

/// The mathematical content of an [`EncryptedKeystore`].
pub struct RecordModel {
    pub salt_b64: Seq<char>,
    pub nonce_b64: Seq<char>,
    pub ct_b64: Seq<char>,
    pub argon_m: u32,
    pub argon_t: u32,
    pub argon_p: u32,
}

impl View for EncryptedKeystore {
    type V = RecordModel;

    open spec fn view(&self) -> RecordModel {
        RecordModel {
            salt_b64: self.salt_b64@,
            nonce_b64: self.nonce_b64@,
            ct_b64: self.ct_b64@,
            argon_m: self.argon_m,
            argon_t: self.argon_t,
            argon_p: self.argon_p,
        }
    }
}

/// The thirteen byte fields of a serialized key pair, in wire order.
pub open spec fn keypair_fields(kp: KeyPairModel) -> Seq<Seq<u8>> {
    seq![
        kp.private_key.ed_raw,
        encode_utf8(kp.private_key.ed_b58),
        kp.private_key.x_raw,
        encode_utf8(kp.private_key.x_b58),
        encode_utf8(kp.private_key.fp_ed),
        encode_utf8(kp.private_key.fp_x),
        kp.public_key.ed_raw,
        encode_utf8(kp.public_key.ed_b58),
        kp.public_key.x_raw,
        encode_utf8(kp.public_key.x_b58),
        encode_utf8(kp.public_key.fp_ed),
        encode_utf8(kp.public_key.fp_x),
        encode_utf8(kp.created_at),
    ]
}

/// Every field fits a 2-byte length prefix.
pub open spec fn fields_fit(fields: Seq<Seq<u8>>) -> bool {
    forall|i: int| 0 <= i < fields.len() ==> #[trigger] fields[i].len() <= 65535
}

/// The byte image of a sequence of fields: each as one length-prefixed
/// frame, concatenated.
pub open spec fn fields_bytes(fields: Seq<Seq<u8>>) -> Seq<u8>
    decreases fields.len(),
{
    if fields.len() == 0 {
        Seq::empty()
    } else {
        frame_bytes(fields[0]) + fields_bytes(fields.drop_first())
    }
}

/// The first `n` length-prefixed fields read from `s` at `pos`, and the
/// offset just past them.
pub open spec fn parse_fields(s: Seq<u8>, pos: int, n: nat) -> Option<(Seq<Seq<u8>>, int)>
    decreases n,
{
    if n == 0 {
        Some((Seq::empty(), pos))
    } else {
        match parse_frame(s, pos) {
            Some(head) => match parse_fields(s, head.1, (n - 1) as nat) {
                Some(tail) => Some((seq![head.0] + tail.0, tail.1)),
                None => None,
            },
            None => None,
        }
    }
}

/// The key pair described by thirteen byte fields, if the textual ones are
/// valid UTF-8.
pub open spec fn keypair_from_fields(fs: Seq<Seq<u8>>) -> Option<KeyPairModel> {
    if fs.len() == 13 && valid_utf8(fs[1]) && valid_utf8(fs[3]) && valid_utf8(fs[4]) && valid_utf8(
        fs[5],
    ) && valid_utf8(fs[7]) && valid_utf8(fs[9]) && valid_utf8(fs[10]) && valid_utf8(fs[11])
        && valid_utf8(fs[12]) {
        Some(
            KeyPairModel {
                private_key: crate::keys::KeyModel {
                    ed_raw: fs[0],
                    ed_b58: decode_utf8(fs[1]),
                    x_raw: fs[2],
                    x_b58: decode_utf8(fs[3]),
                    fp_ed: decode_utf8(fs[4]),
                    fp_x: decode_utf8(fs[5]),
                },
                public_key: crate::keys::KeyModel {
                    ed_raw: fs[6],
                    ed_b58: decode_utf8(fs[7]),
                    x_raw: fs[8],
                    x_b58: decode_utf8(fs[9]),
                    fp_ed: decode_utf8(fs[10]),
                    fp_x: decode_utf8(fs[11]),
                },
                created_at: decode_utf8(fs[12]),
            },
        )
    } else {
        None
    }
}

/// The key pair a byte image describes, if it parses completely: thirteen
/// fields, nothing trailing, text fields valid UTF-8.
pub open spec fn keypair_parsed(bytes: Seq<u8>) -> Option<KeyPairModel> {
    match parse_fields(bytes, 0, 13) {
        Some(r) => if r.1 == bytes.len() {
            keypair_from_fields(r.0)
        } else {
            None
        },
        None => None,
    }
}

/// Serializes the key pair to its byte image.  Fails with an oversize fault
/// exactly when some field exceeds a frame.
pub fn serialize_keypair(kp: &KeyPair) -> (r: Result<Vec<u8>, AiroiError>)
    ensures
        r is Ok <==> fields_fit(keypair_fields(kp@)),
        r matches Ok(v) ==> v@ == fields_bytes(keypair_fields(kp@)),
        r matches Err(e) ==> e matches AiroiError::Io(_),
{
    let ghost gf = keypair_fields(kp@);
    let mut fields: Vec<Vec<u8>> = Vec::new();
    fields.push(clone_bytes(&kp.private_key.ed25519_key.0));
    fields.push(kp.private_key.ed25519_key.1.as_str().as_bytes_vec());
    fields.push(clone_bytes(&kp.private_key.x25519_key.0));
    fields.push(kp.private_key.x25519_key.1.as_str().as_bytes_vec());
    fields.push(kp.private_key.fingerprint_ed.as_str().as_bytes_vec());
    fields.push(kp.private_key.fingerprint_x.as_str().as_bytes_vec());
    fields.push(clone_bytes(&kp.public_key.ed25519_key.0));
    fields.push(kp.public_key.ed25519_key.1.as_str().as_bytes_vec());
    fields.push(clone_bytes(&kp.public_key.x25519_key.0));
    fields.push(kp.public_key.x25519_key.1.as_str().as_bytes_vec());
    fields.push(kp.public_key.fingerprint_ed.as_str().as_bytes_vec());
    fields.push(kp.public_key.fingerprint_x.as_str().as_bytes_vec());
    fields.push(kp.created_at.as_str().as_bytes_vec());
    proof {
        assert forall|i: int| 0 <= i < 13 implies fields@[i]@ == gf[i] by {
            assert(fields@[0]@ == gf[0]);
            assert(fields@[1]@ == gf[1]);
            assert(fields@[2]@ == gf[2]);
            assert(fields@[3]@ == gf[3]);
            assert(fields@[4]@ == gf[4]);
            assert(fields@[5]@ == gf[5]);
            assert(fields@[6]@ == gf[6]);
            assert(fields@[7]@ == gf[7]);
            assert(fields@[8]@ == gf[8]);
            assert(fields@[9]@ == gf[9]);
            assert(fields@[10]@ == gf[10]);
            assert(fields@[11]@ == gf[11]);
            assert(fields@[12]@ == gf[12]);
        }
    }
    let mut out: Vec<u8> = Vec::new();
    let mut i: usize = 0;
    while i < KEYPAIR_FIELD_COUNT
        invariant
            gf == keypair_fields(kp@),
            fields@.len() == 13,
            gf.len() == 13,
            forall|k: int| 0 <= k < 13 ==> fields@[k]@ == gf[k],
            i <= 13,
            forall|k: int| 0 <= k < i ==> #[trigger] gf[k].len() <= 65535,
            out@ == fields_bytes(gf.take(i as int)),
        decreases KEYPAIR_FIELD_COUNT - i,
    {
        let field = vstd::std_specs::vec::vec_index(&fields, i);
        match write_frame(&mut out, field.as_slice()) {
            Ok(()) => {},
            Err(e) => {
                proof {
                    assert(gf[i as int].len() > 65535);
                    assert(!fields_fit(gf));
                }
                return Err(e);
            },
        }
        proof {
            lemma_fields_bytes_snoc(gf.take(i as int), gf[i as int]);
            assert(gf.take(i + 1) =~= gf.take(i as int).push(gf[i as int]));
        }
        i = i + 1;
    }
    proof {
        assert(gf.take(13) =~= gf);
    }
    Ok(out)
}

/// Restores a key pair from its byte image.  Fails with a parse fault
/// exactly when the image is not a complete serialized key pair.
pub fn deserialize_keypair(bytes: &Vec<u8>) -> (r: Result<KeyPair, AiroiError>)
    ensures
        r is Ok <==> keypair_parsed(bytes@) is Some,
        r matches Ok(kp) ==> keypair_parsed(bytes@) == Some(kp@),
        r matches Err(e) ==> e matches AiroiError::Serde(_),
{
    let mut fields: Vec<Vec<u8>> = Vec::new();
    let mut pos: usize = 0;
    let mut i: usize = 0;
    while i < KEYPAIR_FIELD_COUNT
        invariant
            i <= 13,
            fields@.len() == i,
            parse_fields_through(bytes@, fields@, pos as int, i as nat),
        decreases KEYPAIR_FIELD_COUNT - i,
    {
        match read_frame(bytes, pos) {
            Ok(p) => {
                proof {
                    lemma_parse_fields_step(bytes@, fields@, pos as int, i as nat, p.0, p.1 as int);
                }
                fields.push(p.0);
                pos = p.1;
            },
            Err(_) => {
                proof {
                    lemma_parse_fields_dead_end(bytes@, fields@, pos as int, i as nat);
                }
                return Err(AiroiError::Serde(malformed_text()));
            },
        }
        i = i + 1;
    }
    if pos != bytes.len() {
        return Err(AiroiError::Serde(malformed_text()));
    }
    let ghost fs = fields@.map(|k: int, f: Vec<u8>| f@);
    proof {
        assert(parse_fields(bytes@, 0, 13) == Some((fs, pos as int)));
    }
    let f0 = clone_bytes(vstd::std_specs::vec::vec_index(&fields, 0));
    let f2 = clone_bytes(vstd::std_specs::vec::vec_index(&fields, 2));
    let f6 = clone_bytes(vstd::std_specs::vec::vec_index(&fields, 6));
    let f8 = clone_bytes(vstd::std_specs::vec::vec_index(&fields, 8));
    let s1 = match field_string(&fields, 1) {
        Some(s) => s,
        None => { return Err(AiroiError::Serde(malformed_text())) },
    };
    let s3 = match field_string(&fields, 3) {
        Some(s) => s,
        None => { return Err(AiroiError::Serde(malformed_text())) },
    };
    let s4 = match field_string(&fields, 4) {
        Some(s) => s,
        None => { return Err(AiroiError::Serde(malformed_text())) },
    };
    let s5 = match field_string(&fields, 5) {
        Some(s) => s,
        None => { return Err(AiroiError::Serde(malformed_text())) },
    };
    let s7 = match field_string(&fields, 7) {
        Some(s) => s,
        None => { return Err(AiroiError::Serde(malformed_text())) },
    };
    let s9 = match field_string(&fields, 9) {
        Some(s) => s,
        None => { return Err(AiroiError::Serde(malformed_text())) },
    };
    let s10 = match field_string(&fields, 10) {
        Some(s) => s,
        None => { return Err(AiroiError::Serde(malformed_text())) },
    };
    let s11 = match field_string(&fields, 11) {
        Some(s) => s,
        None => { return Err(AiroiError::Serde(malformed_text())) },
    };
    let s12 = match field_string(&fields, 12) {
        Some(s) => s,
        None => { return Err(AiroiError::Serde(malformed_text())) },
    };
    let kp = KeyPair {
        private_key: Key {
            ed25519_key: (f0, s1),
            x25519_key: (f2, s3),
            fingerprint_ed: s4,
            fingerprint_x: s5,
        },
        public_key: Key {
            ed25519_key: (f6, s7),
            x25519_key: (f8, s9),
            fingerprint_ed: s10,
            fingerprint_x: s11,
        },
        created_at: s12,
    };
    Ok(kp)
}

/// Decodes one collected field as UTF-8 text.
fn field_string(fields: &Vec<Vec<u8>>, i: usize) -> (r: Option<String>)
    requires
        i < fields@.len(),
    ensures
        r is Some <==> valid_utf8(fields@[i as int]@),
        r matches Some(s) ==> s@ == decode_utf8(fields@[i as int]@),
{
    let bytes = clone_bytes(vstd::std_specs::vec::vec_index(fields, i));
    crate::crypto::bytes_to_string(bytes)
}

/// A sealed record carries exactly this relation to the key pair and
/// passphrase it was made from, for the salt and nonce drawn at sealing
/// time.
pub open spec fn seals_with(
    rec: RecordModel,
    kp: KeyPairModel,
    pass: Seq<char>,
    salt: Seq<u8>,
    nonce: Seq<u8>,
) -> bool {
    let key = argon2id_of(encode_utf8(pass), salt, rec.argon_m, rec.argon_t, rec.argon_p);
    let plain = fields_bytes(keypair_fields(kp));
    let ct = xchacha_seal_of(key, nonce, plain);
    &&& salt.len() == 16
    &&& nonce.len() == 24
    &&& fields_fit(keypair_fields(kp))
    &&& base64_decoded(rec.salt_b64) == Some(salt)
    &&& base64_decoded(rec.nonce_b64) == Some(nonce)
    &&& base64_decoded(rec.ct_b64) == Some(ct)
    &&& argon2id_accepts(encode_utf8(pass), salt, rec.argon_m, rec.argon_t, rec.argon_p)
    &&& xchacha_open_of(key, nonce, ct) == Some(plain)
}

/// The record is a sealing of `kp` under `pass`.
pub open spec fn record_seals(rec: RecordModel, kp: KeyPairModel, pass: Seq<char>) -> bool {
    exists|salt: Seq<u8>, nonce: Seq<u8>| #[trigger] seals_with(rec, kp, pass, salt, nonce)
}

/// Seals the key pair under a passphrase: fresh random 16-byte salt and
/// 24-byte nonce, Argon2id key derivation with the default cost parameters,
/// XChaCha20-Poly1305 encryption of the serialized pair.  The derived key
/// is zeroized before returning.
pub fn encrypt_keypair(kp: &KeyPair, passphrase: &str) -> (r: Result<
    EncryptedKeystore,
    AiroiError,
>)
    ensures
        r matches Ok(rec) ==> record_seals(rec@, kp@, passphrase@) && rec@.argon_m == ARGON_M_COST
            && rec@.argon_t == ARGON_T_COST && rec@.argon_p == ARGON_P_COST,
        !fields_fit(keypair_fields(kp@)) ==> (r matches Err(e) && (e matches AiroiError::Io(_))),
        r matches Err(e) && (e matches AiroiError::Io(_)) ==> !fields_fit(keypair_fields(kp@)),
        r matches Err(e) ==> ((e matches AiroiError::Io(_)) || (e matches AiroiError::Os(_)) || (
        e matches AiroiError::Argon2(_)) || (e matches AiroiError::XChaCha20Poly1305(_))),
{
    let serialized = serialize_keypair(kp)?;
    let salt = crate::crypto::os_random_bytes(16)?;
    let nonce = crate::crypto::os_random_bytes(24)?;
    let mut key = crate::crypto::argon2id_derive(
        passphrase.as_bytes(),
        salt.as_slice(),
        ARGON_M_COST,
        ARGON_T_COST,
        ARGON_P_COST,
    )?;
    let ct = match crate::crypto::xchacha_encrypt(&key, &nonce, &serialized) {
        Ok(ct) => ct,
        Err(e) => {
            crate::crypto::zeroize_bytes(&mut key);
            return Err(e);
        },
    };
    crate::crypto::zeroize_bytes(&mut key);
    let rec = EncryptedKeystore {
        salt_b64: crate::crypto::b64_encode(salt.as_slice()),
        nonce_b64: crate::crypto::b64_encode(nonce.as_slice()),
        ct_b64: crate::crypto::b64_encode(ct.as_slice()),
        argon_m: ARGON_M_COST,
        argon_t: ARGON_T_COST,
        argon_p: ARGON_P_COST,
    };
    proof {
        assert(seals_with(rec@, kp@, passphrase@, salt@, nonce@));
    }
    Ok(rec)
}

/// Opens a sealed record with a passphrase.
///
/// Success is owed exactly when the record's fields decode, salt and nonce
/// have their sizes, the key derivation accepts the stored parameters, the
/// ciphertext authenticates under the derived key, and the plaintext parses
/// as a key pair — so a record that seals some key pair under this
/// passphrase opens to that very key pair, and nothing substituted or
/// corrupted can come back.  Each fault is told apart: a field that does
/// not decode is a base64 fault, a wrong size or an unparsable plaintext a
/// record-shape fault, rejected parameters a derivation fault, and a failed
/// authentication — a tampered record or a wrong passphrase — an AEAD
/// fault, never a parse fault.
pub fn decrypt_keypair(record: &EncryptedKeystore, passphrase: &str) -> (r: Result<
    KeyPair,
    AiroiError,
>)
    ensures
        r is Ok <==> record_fields_decoded(record@) && record_sized(record@) && record_accepted(
            record@,
            passphrase@,
        ) && opened_keypair(record@, passphrase@) is Some,
        r matches Ok(kp) ==> opened_keypair(record@, passphrase@) == Some(kp@),
        !record_fields_decoded(record@) ==> (r matches Err(e) && (
        e matches AiroiError::Base64Decode(_))),
        record_fields_decoded(record@) && !record_sized(record@) ==> (r matches Err(e) && (
        e matches AiroiError::Serde(_))),
        record_fields_decoded(record@) && record_sized(record@) && !record_accepted(
            record@,
            passphrase@,
        ) ==> (r matches Err(e) && (e matches AiroiError::Argon2(_))),
        record_fields_decoded(record@) && record_sized(record@) && record_accepted(
            record@,
            passphrase@,
        ) && record_plain(record@, passphrase@) is None ==> (r matches Err(e) && (
        e matches AiroiError::XChaCha20Poly1305(_))),
        record_fields_decoded(record@) && record_sized(record@) && record_accepted(
            record@,
            passphrase@,
        ) && record_plain(record@, passphrase@) is Some && opened_keypair(record@, passphrase@)
            is None ==> (r matches Err(e) && (e matches AiroiError::Serde(_))),
        forall|kp0: KeyPairModel|
            #[trigger] record_seals(record@, kp0, passphrase@) ==> (r matches Ok(kp) && kp@
                == kp0),
{
    let salt = match crate::crypto::b64_decode(self_str(&record.salt_b64)) {
        Ok(v) => v,
        Err(e) => { return Err(e) },
    };
    let nonce = match crate::crypto::b64_decode(self_str(&record.nonce_b64)) {
        Ok(v) => v,
        Err(e) => { return Err(e) },
    };
    let ct = match crate::crypto::b64_decode(self_str(&record.ct_b64)) {
        Ok(v) => v,
        Err(e) => { return Err(e) },
    };
    if salt.len() != 16 || nonce.len() != 24 {
        return Err(AiroiError::Serde(malformed_text()));
    }
    let mut key = match crate::crypto::argon2id_derive(
        passphrase.as_bytes(),
        salt.as_slice(),
        record.argon_m,
        record.argon_t,
        record.argon_p,
    ) {
        Ok(k) => k,
        Err(e) => { return Err(e) },
    };
    let plain = match crate::crypto::xchacha_decrypt(&key, &nonce, &ct) {
        Ok(p) => p,
        Err(e) => {
            crate::crypto::zeroize_bytes(&mut key);
            return Err(e);
        },
    };
    crate::crypto::zeroize_bytes(&mut key);
    let kp = match deserialize_keypair(&plain) {
        Ok(kp) => kp,
        Err(e) => {
            proof {
                assert forall|kp0: KeyPairModel|
                    !record_seals(record@, kp0, passphrase@) by {
                    if record_seals(record@, kp0, passphrase@) {
                        let (salt0, nonce0) = choose|salt0: Seq<u8>, nonce0: Seq<u8>|
                            #[trigger] seals_with(record@, kp0, passphrase@, salt0, nonce0);
                        lemma_serialized_keypair_parses(kp0);
                    }
                }
            }
            return Err(e);
        },
    };
    proof {
        assert(opened_keypair(record@, passphrase@) == Some(kp@));
        assert forall|kp0: KeyPairModel|
            #[trigger] record_seals(record@, kp0, passphrase@) implies kp@ == kp0 by {
            let (salt0, nonce0) = choose|salt0: Seq<u8>, nonce0: Seq<u8>|
                #[trigger] seals_with(record@, kp0, passphrase@, salt0, nonce0);
            lemma_serialized_keypair_parses(kp0);
        };
    }
    Ok(kp)
}

/// All three base64 fields of the record decode.
pub open spec fn record_fields_decoded(rec: RecordModel) -> bool {
    &&& base64_decoded(rec.salt_b64) is Some
    &&& base64_decoded(rec.nonce_b64) is Some
    &&& base64_decoded(rec.ct_b64) is Some
}

/// The decoded salt of the record.
pub open spec fn record_salt(rec: RecordModel) -> Seq<u8> {
    base64_decoded(rec.salt_b64)->Some_0
}

/// The decoded nonce of the record.
pub open spec fn record_nonce(rec: RecordModel) -> Seq<u8> {
    base64_decoded(rec.nonce_b64)->Some_0
}

/// The decoded ciphertext of the record.
pub open spec fn record_ct(rec: RecordModel) -> Seq<u8> {
    base64_decoded(rec.ct_b64)->Some_0
}

/// The decoded salt and nonce have the sizes the envelope demands.
pub open spec fn record_sized(rec: RecordModel) -> bool {
    record_salt(rec).len() == 16 && record_nonce(rec).len() == 24
}

/// The symmetric key the record's parameters derive from a passphrase.
pub open spec fn record_key(rec: RecordModel, pass: Seq<char>) -> Seq<u8> {
    argon2id_of(encode_utf8(pass), record_salt(rec), rec.argon_m, rec.argon_t, rec.argon_p)
}

/// The key derivation accepts the record's parameters and this passphrase.
pub open spec fn record_accepted(rec: RecordModel, pass: Seq<char>) -> bool {
    argon2id_accepts(encode_utf8(pass), record_salt(rec), rec.argon_m, rec.argon_t, rec.argon_p)
}

/// The authenticated decryption of the record under a passphrase, if it
/// authenticates at all.
pub open spec fn record_plain(rec: RecordModel, pass: Seq<char>) -> Option<Seq<u8>> {
    xchacha_open_of(record_key(rec, pass), record_nonce(rec), record_ct(rec))
}

/// The key pair a record opens to under a passphrase: the authenticated
/// decryption, parsed completely.
pub open spec fn opened_keypair(rec: RecordModel, pass: Seq<char>) -> Option<KeyPairModel> {
    match record_plain(rec, pass) {
        Some(plain) => keypair_parsed(plain),
        None => None,
    }
}

/// Overwrites the private key material with zeros in place: raw bytes and
/// base58 text of both private halves are emptied; the public key, the
/// private fingerprints and the timestamp stay as they were.
pub fn zeroize_keypair_inplace(kp: &mut KeyPair)
    ensures
        final(kp)@.private_key.ed_raw.len() == 0,
        final(kp)@.private_key.ed_b58.len() == 0,
        final(kp)@.private_key.x_raw.len() == 0,
        final(kp)@.private_key.x_b58.len() == 0,
        final(kp)@.private_key.fp_ed == old(kp)@.private_key.fp_ed,
        final(kp)@.private_key.fp_x == old(kp)@.private_key.fp_x,
        final(kp)@.public_key == old(kp)@.public_key,
        final(kp)@.created_at == old(kp)@.created_at,
{
    crate::crypto::zeroize_bytes(&mut kp.private_key.x25519_key.0);
    crate::crypto::zeroize_string(&mut kp.private_key.x25519_key.1);
    crate::crypto::zeroize_bytes(&mut kp.private_key.ed25519_key.0);
    crate::crypto::zeroize_string(&mut kp.private_key.ed25519_key.1);
}

/// The passphrase cache: prompts happen at most once per process, later
/// storage calls reuse the held value, and `scrub` erases it.  One value
/// per context; the surrounding process guards sharing.
pub struct Passphrase {
    inner: Option<String>,
}

impl View for Passphrase {
    type V = Option<Seq<char>>;

    closed spec fn view(&self) -> Option<Seq<char>> {
        match self.inner {
            Some(s) => Some(s@),
            None => None,
        }
    }
}

impl Passphrase {
    /// An empty cache.
    pub fn new() -> (r: Self)
        ensures
            r@ is None,
    {
        Passphrase { inner: None }
    }

    /// Caches a passphrase for the rest of the process.
    pub fn set(&mut self, passphrase: String)
        ensures
            final(self)@ == Some(passphrase@),
    {
        self.inner = Some(passphrase);
    }

    /// The cached passphrase, if one was set.
    pub fn get(&self) -> (r: Option<String>)
        ensures
            r is Some <==> self@ is Some,
            r matches Some(s) ==> Some(s@) == self@,
    {
        match &self.inner {
            Some(s) => Some(s.clone()),
            None => None,
        }
    }

    /// Overwrites the held passphrase with zeros and forgets it.
    pub fn scrub(&mut self)
        ensures
            final(self)@ is None,
    {
        match self.inner.take() {
            Some(mut s) => {
                crate::crypto::zeroize_string(&mut s);
            },
            None => {},
        }
    }
}

/// Resolves the local identity from what the storage strategies produced,
/// in their fixed order: an opaque vault payload that parses as a key pair
/// wins; otherwise the encrypted file record is opened with the passphrase;
/// with neither, the identity is missing.  A malformed vault payload is
/// recovered by falling through, never surfaced.
pub fn fetch_local_keypair(
    vault_payload: Option<Vec<u8>>,
    record: Option<&EncryptedKeystore>,
    passphrase: &str,
) -> (r: Result<KeyPair, AiroiError>)
    ensures
        (match vault_payload {
            Some(b) => keypair_parsed(b@) is Some,
            None => false,
        }) ==> (r matches Ok(kp) && Some(kp@) == keypair_parsed(vault_payload->Some_0@)),
        (match vault_payload {
            Some(b) => keypair_parsed(b@) is None,
            None => true,
        }) && record is None ==> (r matches Err(e) && (e matches AiroiError::Keyring(_))),
        record is Some && (match vault_payload {
            Some(b) => keypair_parsed(b@) is None,
            None => true,
        }) ==> (forall|kp0: KeyPairModel|
            #[trigger] record_seals(record->Some_0@, kp0, passphrase@) ==> (r matches Ok(kp)
                && kp@ == kp0)),
{
    if let Some(bytes) = vault_payload {
        match deserialize_keypair(&bytes) {
            Ok(kp) => { return Ok(kp) },
            Err(_) => {},
        }
    }
    match record {
        Some(rec) => decrypt_keypair(rec, passphrase),
        None => Err(AiroiError::Keyring(no_identity_text())),
    }
}

/// A serialized key pair parses back to the identical model: the byte image
/// round-trips, field for field, timestamp included.
pub proof fn lemma_serialized_keypair_parses(kp: KeyPairModel)
    requires
        fields_fit(keypair_fields(kp)),
    ensures
        keypair_parsed(fields_bytes(keypair_fields(kp))) == Some(kp),
{
    broadcast use vstd::utf8::encode_utf8_valid_utf8;
    broadcast use vstd::utf8::encode_utf8_decode_utf8;

    let gf = keypair_fields(kp);
    let bytes = fields_bytes(gf);
    lemma_parse_fields_of_bytes(Seq::empty(), gf, Seq::empty());
    assert(Seq::<u8>::empty() + bytes + Seq::<u8>::empty() =~= bytes);
    assert(parse_fields(bytes, 0, 13) == Some((gf, bytes.len() as int)));
    let m = keypair_from_fields(gf)->Some_0;
    assert(m.private_key == kp.private_key);
    assert(m.public_key == kp.public_key);
    assert(m == kp);
}

/// Concatenating one more field extends the byte image by one frame.
proof fn lemma_fields_bytes_snoc(fields: Seq<Seq<u8>>, f: Seq<u8>)
    ensures
        fields_bytes(fields.push(f)) == fields_bytes(fields) + frame_bytes(f),
    decreases fields.len(),
{
    if fields.len() == 0 {
        assert(fields.push(f)[0] == f);
        assert(fields.push(f).drop_first() =~= Seq::<Seq<u8>>::empty());
        assert(fields_bytes(Seq::<Seq<u8>>::empty()) =~= Seq::<u8>::empty());
        assert(fields_bytes(fields.push(f)) =~= frame_bytes(f));
        assert(fields_bytes(fields) + frame_bytes(f) =~= frame_bytes(f));
    } else {
        assert(fields.push(f).drop_first() =~= fields.drop_first().push(f));
        lemma_fields_bytes_snoc(fields.drop_first(), f);
        assert(fields.push(f)[0] == fields[0]);
        assert(fields_bytes(fields.push(f)) =~= fields_bytes(fields) + frame_bytes(f));
    }
}

/// Parsing the byte image of fields recovers the fields, wherever the image
/// stands in a longer stream.
proof fn lemma_parse_fields_of_bytes(prefix: Seq<u8>, fields: Seq<Seq<u8>>, suffix: Seq<u8>)
    requires
        fields_fit(fields),
    ensures
        parse_fields(prefix + fields_bytes(fields) + suffix, prefix.len() as int, fields.len())
            == Some((fields, prefix.len() as int + fields_bytes(fields).len())),
    decreases fields.len(),
{
    let s = prefix + fields_bytes(fields) + suffix;
    if fields.len() == 0 {
        assert(fields =~= Seq::<Seq<u8>>::empty());
        assert(fields_bytes(fields) =~= Seq::<u8>::empty());
    } else {
        let f0 = fields[0];
        let rest = fields.drop_first();
        assert(fields[0].len() <= 65535);
        assert(fields_fit(rest)) by {
            assert(forall|i: int|
                0 <= i < rest.len() ==> #[trigger] rest[i].len() == fields[i + 1].len());
        }
        assert(s =~= prefix + crate::frame::frame_bytes(f0) + (fields_bytes(rest) + suffix));
        crate::frame::lemma_frame_round_trip(prefix, f0, fields_bytes(rest) + suffix);
        assert(s =~= (prefix + crate::frame::frame_bytes(f0)) + fields_bytes(rest) + suffix);
        lemma_parse_fields_of_bytes(prefix + crate::frame::frame_bytes(f0), rest, suffix);
        assert(seq![f0] + rest =~= fields);
    }
}

/// The loop invariant of field collection: what was read so far composes
/// with whatever remains.
pub open spec fn parse_fields_through(
    s: Seq<u8>,
    collected: Seq<Vec<u8>>,
    pos: int,
    i: nat,
) -> bool {
    parse_fields(s, 0, 13) == (match parse_fields(s, pos, (13 - i) as nat) {
        Some(rest) => Some((collected.map(|k: int, f: Vec<u8>| f@) + rest.0, rest.1)),
        None => None::<(Seq<Seq<u8>>, int)>,
    }) && i <= 13
}

proof fn lemma_parse_fields_step(
    s: Seq<u8>,
    collected: Seq<Vec<u8>>,
    pos: int,
    i: nat,
    v: Vec<u8>,
    pos2: int,
)
    requires
        i < 13,
        parse_fields_through(s, collected, pos, i),
        parse_frame(s, pos) == Some((v@, pos2)),
    ensures
        parse_fields_through(s, collected.push(v), pos2, i + 1),
{
    let f = v@;
    let cm = collected.map(|k: int, g: Vec<u8>| g@);
    let cm2 = collected.push(v).map(|k: int, g: Vec<u8>| g@);
    assert(cm2 =~= cm.push(f));
    match parse_fields(s, pos2, (13 - (i + 1)) as nat) {
        Some(rest) => {
            assert(parse_fields(s, pos, (13 - i) as nat) == Some((seq![f] + rest.0, rest.1)));
            assert(cm + (seq![f] + rest.0) =~= cm.push(f) + rest.0);
        },
        None => {
            assert(parse_fields(s, pos, (13 - i) as nat) is None);
        },
    }
}

proof fn lemma_parse_fields_dead_end(s: Seq<u8>, collected: Seq<Vec<u8>>, pos: int, i: nat)
    requires
        i < 13,
        parse_fields_through(s, collected, pos, i),
        parse_frame(s, pos) is None,
    ensures
        parse_fields(s, 0, 13) is None,
{
    assert(parse_fields(s, pos, (13 - i) as nat) is None);
}

fn malformed_text() -> (r: String)
    ensures
        r@.len() > 0,
{
    let r = String::from_str("malformed keystore record");
    proof {
        reveal_strlit("malformed keystore record");
    }
    r
}

fn no_identity_text() -> (r: String)
    ensures
        r@.len() > 0,
{
    let r = String::from_str("no stored identity available");
    proof {
        reveal_strlit("no stored identity available");
    }
    r
}

fn self_str(s: &String) -> (r: &str)
    ensures
        r@ == s@,
{
    s.as_str()
}

} // verus!
