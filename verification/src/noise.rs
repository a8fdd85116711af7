//! The three-message mutually authenticated handshake and the transport
//! ciphers, driven over in-memory frames.
//!
//! The pattern is Noise XX over Curve25519 with ChaChaPoly and BLAKE2s:
//! both parties exchange ephemeral and static public keys across three
//! frames, each later frame protected by a key ratcheted from the
//! accumulating transcript hash.  The handshake state itself lives in the
//! snow crate behind trusted wrappers; every message it produces here fits
//! one wire frame, so framing it cannot fail.  What a message decrypts to
//! depends on the session's ephemeral randomness, so the contracts state
//! what holds of every outcome and the verified callers take the results
//! as arguments.

use vstd::prelude::*;
use vstd::string::StringExecFns;

use crate::error::AiroiError;

verus! {

#[verifier::external_type_specification]
#[verifier::external_body]
pub struct ExHandshakeState(snow::HandshakeState);

#[verifier::external_type_specification]
#[verifier::external_body]
pub struct ExTransportState(snow::TransportState);

/// The protocol name of the handshake pattern.
pub fn noise_pattern() -> (r: &'static str)
    ensures
        r@ == "Noise_XX_25519_ChaChaPoly_BLAKE2s"@,
{
    "Noise_XX_25519_ChaChaPoly_BLAKE2s"
}

/// Relies on snow's `Builder`: parses the pattern, installs the local
/// static private key, and builds the responder state.  Kept as one item
/// because `Builder` borrows the key for its own lifetime.  The 32-byte
/// bound matches the Curve25519 key length snow's `Dh25519::set` copies
/// into; with this fixed, valid pattern and a key of that length, every
/// failure path of the builder is ruled out, so building succeeds.
#[verifier::external_body]
fn build_responder_raw(pattern: &str, local_private_key: &[u8]) -> (r: Result<
    snow::HandshakeState,
    AiroiError,
>)
    requires
        pattern@ == "Noise_XX_25519_ChaChaPoly_BLAKE2s"@,
        local_private_key@.len() == 32,
    ensures
        r is Ok,
{
    let params: snow::params::NoiseParams = pattern.parse().map_err(
        |e| AiroiError::Snow(format!("{e}")),
    )?;
    snow::Builder::new(params).local_private_key(local_private_key).and_then(
        |b| b.build_responder(),
    ).map_err(|e| AiroiError::Snow(format!("{e}")))
}

/// Relies on snow's `Builder`, as [`build_responder_raw`] does and under
/// the same bounds, for the initiator role.
#[verifier::external_body]
fn build_initiator_raw(pattern: &str, local_private_key: &[u8]) -> (r: Result<
    snow::HandshakeState,
    AiroiError,
>)
    requires
        pattern@ == "Noise_XX_25519_ChaChaPoly_BLAKE2s"@,
        local_private_key@.len() == 32,
    ensures
        r is Ok,
{
    let params: snow::params::NoiseParams = pattern.parse().map_err(
        |e| AiroiError::Snow(format!("{e}")),
    )?;
    snow::Builder::new(params).local_private_key(local_private_key).and_then(
        |b| b.build_initiator(),
    ).map_err(|e| AiroiError::Snow(format!("{e}")))
}

/// Relies on snow's `HandshakeState::write_message`: it refuses any output
/// beyond the Noise message limit of 65535 bytes, so a produced message
/// always fits one frame.
#[verifier::external_body]
fn hs_write_message(state: &mut snow::HandshakeState, payload: &[u8]) -> (r: Result<
    Vec<u8>,
    AiroiError,
>)
    ensures
        r matches Ok(v) ==> v@.len() <= 65535,
        r matches Err(e) ==> e matches AiroiError::Snow(_),
{
    let mut buf = vec![0u8; 65535];
    match state.write_message(payload, &mut buf) {
        Ok(n) => {
            buf.truncate(n);
            Ok(buf)
        },
        Err(e) => Err(AiroiError::Snow(format!("{e}"))),
    }
}

/// Relies on snow's `HandshakeState::read_message`: feeds one handshake
/// message into the state and returns its decrypted payload.  A failure
/// (malformed message, failed authentication) leaves nothing decrypted.
#[verifier::external_body]
fn hs_read_message(state: &mut snow::HandshakeState, message: &[u8]) -> (r: Result<
    Vec<u8>,
    AiroiError,
>)
    ensures
        r matches Err(e) ==> e matches AiroiError::Snow(_),
{
    let mut buf = vec![0u8; 65535];
    match state.read_message(message, &mut buf) {
        Ok(n) => {
            buf.truncate(n);
            Ok(buf)
        },
        Err(e) => Err(AiroiError::Snow(format!("{e}"))),
    }
}

/// Relies on snow's `HandshakeState::get_remote_static`: the remote static
/// public key, once the handshake has revealed it.
#[verifier::external_body]
fn hs_remote_static(state: &snow::HandshakeState) -> (r: Option<Vec<u8>>) {
    state.get_remote_static().map(|s| s.to_vec())
}

/// Relies on snow's `HandshakeState::into_transport_mode`: splits the
/// finished handshake into the two directional transport ciphers.
#[verifier::external_body]
fn hs_into_transport(state: snow::HandshakeState) -> (r: Result<snow::TransportState, AiroiError>)
    ensures
        r matches Err(e) ==> e matches AiroiError::Snow(_),
{
    state.into_transport_mode().map_err(|e| AiroiError::Snow(format!("{e}")))
}

/// Relies on snow's `TransportState::write_message`: encrypts one payload
/// and refuses any output beyond the Noise message limit of 65535 bytes.
#[verifier::external_body]
fn ts_write_message(state: &mut snow::TransportState, payload: &[u8]) -> (r: Result<
    Vec<u8>,
    AiroiError,
>)
    ensures
        r matches Ok(v) ==> v@.len() <= 65535,
        r matches Err(e) ==> e matches AiroiError::Snow(_),
{
    let mut buf = vec![0u8; 65535];
    match state.write_message(payload, &mut buf) {
        Ok(n) => {
            buf.truncate(n);
            Ok(buf)
        },
        Err(e) => Err(AiroiError::Snow(format!("{e}"))),
    }
}

/// Relies on snow's `TransportState::read_message`: authenticates and
/// decrypts one transport message.  An authentication failure is a hard
/// failure of this call; no plaintext is released.
#[verifier::external_body]
fn ts_read_message(state: &mut snow::TransportState, message: &[u8]) -> (r: Result<
    Vec<u8>,
    AiroiError,
>)
    ensures
        r matches Err(e) ==> e matches AiroiError::Snow(_),
{
    let mut buf = vec![0u8; 65535];
    match state.read_message(message, &mut buf) {
        Ok(n) => {
            buf.truncate(n);
            Ok(buf)
        },
        Err(e) => Err(AiroiError::Snow(format!("{e}"))),
    }
}

/// A responder state for the pattern, over the local static private
/// exchange key.  Succeeds exactly when the key is the 32 bytes a
/// Curve25519 scalar takes.
pub fn build_responder(local_private_key: &[u8]) -> (r: Result<snow::HandshakeState, AiroiError>)
    ensures
        r is Ok <==> local_private_key@.len() == 32,
        r matches Err(e) ==> e matches AiroiError::Snow(_),
{
    if local_private_key.len() != 32 {
        return Err(AiroiError::Snow(bad_key_text()));
    }
    build_responder_raw(noise_pattern(), local_private_key)
}

/// An initiator state for the pattern, over the local static private
/// exchange key.  Succeeds exactly when the key is the 32 bytes a
/// Curve25519 scalar takes.
pub fn build_initiator(local_private_key: &[u8]) -> (r: Result<snow::HandshakeState, AiroiError>)
    ensures
        r is Ok <==> local_private_key@.len() == 32,
        r matches Err(e) ==> e matches AiroiError::Snow(_),
{
    if local_private_key.len() != 32 {
        return Err(AiroiError::Snow(bad_key_text()));
    }
    build_initiator_raw(noise_pattern(), local_private_key)
}

/// Responder steps one and two: feed the initiator's first message (its
/// ephemeral public key; the payload is ignored) into the state, and
/// produce the second message (responder ephemeral and static keys with an
/// AEAD-protected empty payload).  The produced message fits one frame.
pub fn respond_to_msg1(state: &mut snow::HandshakeState, msg1: &Vec<u8>) -> (r: Result<
    Vec<u8>,
    AiroiError,
>)
    ensures
        r matches Ok(v) ==> v@.len() <= 65535,
        r matches Err(e) ==> e matches AiroiError::Snow(_),
{
    match hs_read_message(state, msg1.as_slice()) {
        Ok(_payload) => {},
        Err(e) => { return Err(e) },
    }
    let empty: Vec<u8> = Vec::new();
    hs_write_message(state, empty.as_slice())
}

/// Responder step three: feed the initiator's final message (its static
/// public key under the transcript key).  After this the remote static key
/// is known.
pub fn read_msg3(state: &mut snow::HandshakeState, msg3: &Vec<u8>) -> (r: Result<(), AiroiError>)
    ensures
        r matches Err(e) ==> e matches AiroiError::Snow(_),
{
    match hs_read_message(state, msg3.as_slice()) {
        Ok(_payload) => Ok(()),
        Err(e) => Err(e),
    }
}

/// Initiator step one: produce the first message carrying the ephemeral
/// public key.  The produced message fits one frame.
pub fn initiator_msg1(state: &mut snow::HandshakeState) -> (r: Result<Vec<u8>, AiroiError>)
    ensures
        r matches Ok(v) ==> v@.len() <= 65535,
        r matches Err(e) ==> e matches AiroiError::Snow(_),
{
    let empty: Vec<u8> = Vec::new();
    hs_write_message(state, empty.as_slice())
}

/// Initiator step two: feed the responder's message (its ephemeral and
/// static keys).
pub fn initiator_read_msg2(state: &mut snow::HandshakeState, msg2: &Vec<u8>) -> (r: Result<
    (),
    AiroiError,
>)
    ensures
        r matches Err(e) ==> e matches AiroiError::Snow(_),
{
    match hs_read_message(state, msg2.as_slice()) {
        Ok(_payload) => Ok(()),
        Err(e) => Err(e),
    }
}

/// Initiator step three: produce the final message carrying the local
/// static public key under the transcript key.  The produced message fits
/// one frame.
pub fn initiator_msg3(state: &mut snow::HandshakeState) -> (r: Result<Vec<u8>, AiroiError>)
    ensures
        r matches Ok(v) ==> v@.len() <= 65535,
        r matches Err(e) ==> e matches AiroiError::Snow(_),
{
    let empty: Vec<u8> = Vec::new();
    hs_write_message(state, empty.as_slice())
}

/// Converts a finished handshake into transport mode and hands out the
/// learned remote static exchange public key.  A handshake that did not
/// reveal the remote static key is a protocol fault: no transport state is
/// derived from it.
pub fn finish_handshake(state: snow::HandshakeState) -> (r: Result<
    (snow::TransportState, Vec<u8>),
    AiroiError,
>)
    ensures
        r matches Err(e) ==> (e matches AiroiError::RemoteStatic(_)) || (
        e matches AiroiError::Snow(_)),
{
    let remote_static = match hs_remote_static(&state) {
        Some(rs) => rs,
        None => { return Err(AiroiError::RemoteStatic(no_remote_static_text())) },
    };
    match hs_into_transport(state) {
        Ok(transport) => Ok((transport, remote_static)),
        Err(e) => Err(e),
    }
}

/// Encrypts one application payload for the wire.  The produced message
/// fits one frame.
pub fn seal_message(state: &mut snow::TransportState, payload: &str) -> (r: Result<
    Vec<u8>,
    AiroiError,
>)
    ensures
        r matches Ok(v) ==> v@.len() <= 65535,
        r matches Err(e) ==> e matches AiroiError::Snow(_),
{
    ts_write_message(state, payload.as_bytes())
}

/// Authenticates and decrypts one transport frame.  A failed
/// authentication yields an error, never empty or default plaintext.
pub fn open_message(state: &mut snow::TransportState, frame: &Vec<u8>) -> (r: Result<
    Vec<u8>,
    AiroiError,
>)
    ensures
        r matches Err(e) ==> e matches AiroiError::Snow(_),
{
    ts_read_message(state, frame.as_slice())
}

fn bad_key_text() -> (r: String)
    ensures
        r@.len() > 0,
{
    let r = String::from_str("local private key must be 32 bytes");
    proof {
        reveal_strlit("local private key must be 32 bytes");
    }
    r
}

fn no_remote_static_text() -> (r: String)
    ensures
        r@.len() > 0,
{
    let r = String::from_str("handshake did not reveal remote static key");
    proof {
        reveal_strlit("handshake did not reveal remote static key");
    }
    r
}

} // verus!
