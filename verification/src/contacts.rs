//! The contact trust registry: an order-preserving list of trust anchors.
//!
//! A contact's identity for matching purposes is the fingerprint of its
//! exchange key, never its name.  The list itself is plain data; the
//! surrounding process persists it and hands it back in.

use vstd::prelude::*;
use vstd::string::StringExecFns;

use crate::crypto::{ed_point_decodable, ed_to_mont_of, str_eq};
use crate::error::AiroiError;
use crate::key_gen::ed25519_pk_to_x25519;
use crate::keys::{key_of_raw, Key, KeyModel};

verus! {

/// One trust anchor: a display name (not guaranteed unique), the peer's
/// public key material, its network address, and the trust timestamp.
pub struct Contact {
    pub name: String,
    pub public_key: Key,
    pub address: String,
    pub added_at: String,
}

/// The mathematical content of a [`Contact`].
pub struct ContactModel {
    pub name: Seq<char>,
    pub public_key: KeyModel,
    pub address: Seq<char>,
    pub added_at: Seq<char>,
}

impl View for Contact {
    type V = ContactModel;

    open spec fn view(&self) -> ContactModel {
        ContactModel {
            name: self.name@,
            public_key: self.public_key@,
            address: self.address@,
            added_at: self.added_at@,
        }
    }
}

impl Contact {
    /// Builds a contact from a peer's raw public signing key: the exchange
    /// public key is derived through the curve, so the fingerprint used for
    /// trust decisions needs no private material.  Fails with a decode
    /// fault exactly when the bytes encode no curve point.
    pub fn new(name: String, raw_ed_public_key: Vec<u8>, address: &str) -> (r: Result<
        Contact,
        AiroiError,
    >)
        ensures
            r is Ok <==> raw_ed_public_key@.len() == 32 && ed_point_decodable(raw_ed_public_key@),
            r matches Ok(c) ==> c@.name == name@ && c@.address == address@ && c@.public_key
                == key_of_raw(raw_ed_public_key@, ed_to_mont_of(raw_ed_public_key@)),
            r matches Err(e) ==> e matches AiroiError::InvalidPoint(_),
    {
        let raw_x_public_key = match ed25519_pk_to_x25519(raw_ed_public_key.as_slice()) {
            Ok(v) => v,
            Err(e) => { return Err(e) },
        };
        let public_key = Key::new(raw_ed_public_key, raw_x_public_key);
        Ok(
            Contact {
                name,
                public_key,
                address: String::from_str(address),
                added_at: crate::crypto::now_rfc3339(),
            },
        )
    }

    /// Builds a contact from the raw exchange public key learned during a
    /// handshake; the signing key of such a peer is unknown and left empty.
    pub fn new_tofu(name: String, raw_x_public_key: Vec<u8>, address: &str) -> (r: Contact)
        ensures
            r@.name == name@,
            r@.address == address@,
            r@.public_key == key_of_raw(Seq::<u8>::empty(), raw_x_public_key@),
    {
        let public_key = Key::new(Vec::new(), raw_x_public_key);
        Contact {
            name,
            public_key,
            address: String::from_str(address),
            added_at: crate::crypto::now_rfc3339(),
        }
    }

    /// The public key material of the contact.
    pub fn public_key(&self) -> (r: &Key)
        ensures
            r@ == self@.public_key,
    {
        &self.public_key
    }

    /// The network address of the contact.
    pub fn address(&self) -> (r: &str)
        ensures
            r@ == self@.address,
    {
        self.address.as_str()
    }

    /// When the contact was trusted.
    pub fn added_at(&self) -> (r: &str)
        ensures
            r@ == self@.added_at,
    {
        self.added_at.as_str()
    }

    /// The fingerprint of the contact's signing key.
    pub fn fingerprint_ed(&self) -> (r: &str)
        ensures
            r@ == self@.public_key.fp_ed,
    {
        self.public_key.fingerprint_ed()
    }

    /// The fingerprint of the contact's exchange key, the identity used for
    /// trust decisions.
    pub fn fingerprint_x(&self) -> (r: &str)
        ensures
            r@ == self@.public_key.fp_x,
    {
        self.public_key.fingerprint_x()
    }
}

impl Clone for Contact {
    fn clone(&self) -> (r: Self)
        ensures
            r@ == self@,
    {
        Contact {
            name: self.name.clone(),
            public_key: self.public_key.clone(),
            address: self.address.clone(),
            added_at: self.added_at.clone(),
        }
    }
}

/// Appends a contact to the registry.  Uniqueness of neither name nor
/// fingerprint is enforced.
pub fn add_contact(contacts: &mut Vec<Contact>, contact: Contact)
    ensures
        final(contacts)@ == old(contacts)@.push(contact),
{
    contacts.push(contact);
}

/// Removes the first contact whose name matches exactly; leaves the
/// registry unchanged when none matches.
pub fn remove_contact(contacts: &mut Vec<Contact>, name: &str)
    ensures
        (forall|j: int| 0 <= j < old(contacts)@.len() ==> old(contacts)@[j]@.name != name@)
            ==> final(contacts)@ == old(contacts)@,
        (exists|j: int|
            0 <= j < old(contacts)@.len() && old(contacts)@[j]@.name == name@) ==> exists|i: int|
            {
                &&& 0 <= i < old(contacts)@.len()
                &&& old(contacts)@[i]@.name == name@
                &&& forall|j: int| 0 <= j < i ==> old(contacts)@[j]@.name != name@
                &&& final(contacts)@ == old(contacts)@.remove(i)
            },
{
    let n = contacts.len();
    let mut index: usize = 0;
    while index < n
        invariant
            n == contacts@.len(),
            index <= n,
            contacts@ == old(contacts)@,
            forall|j: int| 0 <= j < index ==> contacts@[j]@.name != name@,
        decreases n - index,
    {
        if str_eq(contacts[index].name.as_str(), name) {
            contacts.remove(index);
            return ;
        }
        index = index + 1;
    }
}

/// Finds the first contact whose exchange-key fingerprint matches, or
/// reports that none does.
pub fn find_contact(contacts: &Vec<Contact>, fingerprint: &str) -> (r: Option<usize>)
    ensures
        r matches Some(i) ==> {
            &&& i < contacts@.len()
            &&& contacts@[i as int]@.public_key.fp_x == fingerprint@
            &&& forall|j: int| 0 <= j < i ==> contacts@[j]@.public_key.fp_x != fingerprint@
        },
        r is None ==> forall|j: int|
            0 <= j < contacts@.len() ==> contacts@[j]@.public_key.fp_x != fingerprint@,
{
    let n = contacts.len();
    let mut index: usize = 0;
    while index < n
        invariant
            n == contacts@.len(),
            index <= n,
            forall|j: int| 0 <= j < index ==> contacts@[j]@.public_key.fp_x != fingerprint@,
        decreases n - index,
    {
        if str_eq(contacts[index].public_key.fingerprint_x(), fingerprint) {
            return Some(index);
        }
        index = index + 1;
    }
    None
}

/// Once a contact carrying a fingerprint is appended to the registry, a
/// scan for that fingerprint finds a match: a peer trusted on first use is
/// recognized on every later handshake.
pub proof fn lemma_added_contact_matches(contacts: Seq<Contact>, c: Contact, fp: Seq<char>)
    requires
        c@.public_key.fp_x == fp,
    ensures
        exists|i: int|
            0 <= i < contacts.push(c).len() && contacts.push(c)[i]@.public_key.fp_x == fp,
{
    assert(contacts.push(c)[contacts.len() as int]@.public_key.fp_x == fp);
}

} // verus!
