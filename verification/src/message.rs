//! Post-handshake contact resolution and message delivery.
//!
//! Once a handshake reveals the remote static exchange key, its fingerprint
//! is matched against the contact registry.  A match binds the session to
//! that contact; otherwise the configured policy decides: reject the
//! unknown sender outright, or trust on first use with the operator's
//! consent.  Decrypted payloads become [`Message`] values by lossy UTF-8
//! decoding, so invalid byte sequences are replaced, never rejected.

use vstd::prelude::*;
use vstd::string::StringExecFns;

use crate::contacts::Contact;
use crate::crypto::utf8_lossy_of;
use crate::error::AiroiError;
use crate::key_gen::{fingerprint_of, get_fingerprint};
use crate::keys::key_of_raw;

verus! {

/// A delivered application message: the bound sender, the lossily decoded
/// text, and the receipt timestamp.
pub struct Message {
    pub sender: Contact,
    pub message: String,
    pub received: String,
}

/// The mathematical content of a [`Message`].
pub struct MessageModel {
    pub sender: crate::contacts::ContactModel,
    pub message: Seq<char>,
    pub received: Seq<char>,
}

impl View for Message {
    type V = MessageModel;

    open spec fn view(&self) -> MessageModel {
        MessageModel { sender: self.sender@, message: self.message@, received: self.received@ }
    }
}

/// How the responder treats a sender whose fingerprint matches no contact.
pub enum TofuPolicy {
    /// Fail the session with an unknown-sender fault.
    Reject,
    /// Ask the local operator whether to trust the peer.
    TrustOnFirstUse,
}

/// The operator's answer to a trust-on-first-use prompt.
pub enum TofuDecision {
    /// Trust the peer and record it under this display name.
    Accept { name: String },
    /// Refuse the peer.
    Decline,
}

/// The default listen address of the receiving role.
pub fn default_address() -> (r: &'static str)
    ensures
        r@ == "0.0.0.0:4444"@,
{
    "0.0.0.0:4444"
}

/// Binds a handshake's remote static key to a contact, or rejects it: the
/// first contact whose exchange fingerprint equals the key's fingerprint is
/// returned; with no match the session fails with an unknown-sender fault
/// carrying the computed fingerprint, and nothing is ever delivered.
pub fn resolve_sender(contacts: &Vec<Contact>, remote_static: &Vec<u8>) -> (r: Result<
    Contact,
    AiroiError,
>)
    ensures
        r matches Ok(c) ==> exists|i: int|
            {
                &&& 0 <= i < contacts@.len()
                &&& #[trigger] contacts@[i]@ == c@
                &&& c@.public_key.fp_x == fingerprint_of(remote_static@)
                &&& forall|j: int|
                    0 <= j < i ==> contacts@[j]@.public_key.fp_x != fingerprint_of(remote_static@)
            },
        r is Ok <==> exists|i: int|
            0 <= i < contacts@.len() && #[trigger] contacts@[i]@.public_key.fp_x == fingerprint_of(
                remote_static@,
            ),
        r matches Err(e) ==> e matches AiroiError::UnknownSender(f) && f@ == fingerprint_of(
            remote_static@,
        ),
{
    let fingerprint = get_fingerprint(remote_static.as_slice());
    match crate::contacts::find_contact(contacts, fingerprint.as_str()) {
        Some(i) => {
            let c = vstd::std_specs::vec::vec_index(contacts, i).clone();
            Ok(c)
        },
        None => Err(AiroiError::UnknownSender(fingerprint)),
    }
}

/// Applies the operator's trust-on-first-use answer for an unmatched
/// sender.  Declining fails the session with a not-trusted fault and
/// leaves the registry unchanged.  Accepting appends a new contact bound
/// to the learned key — its exchange fingerprint is exactly the
/// handshake-derived fingerprint — and returns it.
pub fn tofu(
    contacts: &mut Vec<Contact>,
    raw_remote_static: &Vec<u8>,
    peer_addr: &str,
    decision: TofuDecision,
) -> (r: Result<Contact, AiroiError>)
    ensures
        decision matches TofuDecision::Decline ==> (r matches Err(e) && (
        e matches AiroiError::SenderNotTrusted(_)) && final(contacts)@ == old(contacts)@),
        decision matches TofuDecision::Accept { name } ==> (r matches Ok(c) && {
            &&& c@.name == name@
            &&& c@.address == peer_addr@
            &&& c@.public_key == key_of_raw(Seq::<u8>::empty(), raw_remote_static@)
            &&& c@.public_key.fp_x == fingerprint_of(raw_remote_static@)
            &&& final(contacts)@.len() == old(contacts)@.len() + 1
            &&& final(contacts)@[old(contacts)@.len() as int]@ == c@
            &&& forall|j: int|
                0 <= j < old(contacts)@.len() ==> final(contacts)@[j] == old(contacts)@[j]
        }),
{
    match decision {
        TofuDecision::Decline => Err(AiroiError::SenderNotTrusted(denied_text())),
        TofuDecision::Accept { name } => {
            let new_contact = Contact::new_tofu(
                name,
                crate::keys::clone_bytes(raw_remote_static),
                peer_addr,
            );
            let returned = new_contact.clone();
            contacts.push(new_contact);
            Ok(returned)
        },
    }
}

/// Wraps one decrypted payload for delivery: the text is the lossy UTF-8
/// decoding of the payload, bound to the resolved sender and the receipt
/// timestamp.
pub fn wrap_plaintext(sender: &Contact, plaintext: &Vec<u8>, received: String) -> (m: Message)
    ensures
        m@.sender == sender@,
        m@.message == utf8_lossy_of(plaintext@),
        m@.received == received@,
{
    Message {
        sender: sender.clone(),
        message: crate::crypto::bytes_to_string_lossy(plaintext),
        received,
    }
}

/// One step of the message loop: authenticate and decrypt a transport
/// frame and wrap it for delivery, stamped with the current time.  A
/// failed authentication terminates the step with a fault; it never
/// becomes an empty message.
pub fn receive_message(
    state: &mut snow::TransportState,
    frame: &Vec<u8>,
    sender: &Contact,
) -> (r: Result<Message, AiroiError>)
    ensures
        r matches Ok(m) ==> m@.sender == sender@ && (exists|p: Seq<u8>|
            m@.message == #[trigger] utf8_lossy_of(p)),
        r matches Err(e) ==> e matches AiroiError::Snow(_),
{
    let plaintext = match crate::noise::open_message(state, frame) {
        Ok(p) => p,
        Err(e) => { return Err(e) },
    };
    let m = wrap_plaintext(sender, &plaintext, crate::crypto::now_rfc3339());
    Ok(m)
}

fn denied_text() -> (r: String)
    ensures
        r@.len() > 0,
{
    let r = String::from_str("operator denied trust on first use");
    proof {
        reveal_strlit("operator denied trust on first use");
    }
    r
}

} // verus!
