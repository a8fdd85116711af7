use vstd::prelude::*;

verus! {

/// The closed error union of the library.
///
/// Each variant corresponds to one fault kind: stream or file faults reported
/// by the surrounding process (`Io`), malformed encodings (`Serde`, `Base58`,
/// `Base64Decode`), cryptographic faults (`Os`, `Argon2`,
/// `XChaCha20Poly1305`, `Snow`), and protocol faults (`RemoteStatic`,
/// `UnknownSender`, `SenderNotTrusted`, `Keyring`).  An AEAD authentication
/// failure is always `XChaCha20Poly1305`, never a parse fault, so callers can
/// tell a wrong passphrase from a malformed record.
#[derive(Debug, PartialEq, Eq)]
pub enum AiroiError {
    /// A read or write on a stream or file failed, or a frame was oversized
    /// or truncated.
    Io(String),
    /// The operating system random source failed.
    Os(String),
    /// A structured record did not parse back into the expected shape.
    Serde(String),
    /// A base58 encoding could not be decoded.
    Base58(String),
    /// The handshake or transport cipher reported a failure.
    Snow(String),
    /// Bytes did not decode to a point of the signing curve.
    InvalidPoint(String),
    /// The handshake finished without revealing the remote static key.
    RemoteStatic(String),
    /// No contact matches the fingerprint carried by the variant.
    UnknownSender(String),
    /// The operator declined to trust the sender.
    SenderNotTrusted(String),
    /// The credential vault was unavailable or rejected the request.
    Keyring(String),
    /// A base64 field could not be decoded.
    Base64Decode(String),
    /// The password-based key derivation failed.
    Argon2(String),
    /// Authenticated encryption or decryption failed.
    XChaCha20Poly1305(String),
}

} // verus!
