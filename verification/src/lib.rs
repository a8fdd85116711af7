//! Verified core of a peer-to-peer encrypted messaging tool.
//!
//! Identities are Ed25519 signing keys with deterministically derived X25519
//! exchange keys.  The library covers key derivation and fingerprinting, the
//! at-rest envelope protection of the local identity, the contact trust
//! registry, the length-prefixed wire framing, the three-message mutually
//! authenticated handshake driven over in-memory frames, and the
//! trust-on-first-use contact resolution.  Network and file I/O live outside
//! the library and hand it plain values.

pub mod cli;
pub mod contacts;
pub mod crypto;
pub mod error;
pub mod frame;
pub mod key_gen;
pub mod keys;
pub mod message;
pub mod noise;
pub mod storage;
