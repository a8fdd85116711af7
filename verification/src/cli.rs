//! The command set of the tool, as plain data.
//!
//! Argument parsing and terminal output live in the surrounding process;
//! it hands the library one of these values.

use vstd::prelude::*;

verus! {

/// A parsed invocation.
pub struct Cli {
    pub command: AiroiCommand,
}

/// Everything the tool can be asked to do.
pub enum AiroiCommand {
    /// Generate a new key pair and store it in the default location.
    KeyGen,
    /// Print the fingerprint of the stored key pair.
    Fingerprint,
    /// Add someone to the contacts.
    AddContact { name: String, public_key: String, address: String },
    /// Remove someone from the contacts.
    RemoveContact { name: String },
    /// List all contacts.
    ListContacts,
    /// Listen for connections and deliver received messages.
    Receive { addr: Option<String> },
    /// Send one message to a named contact.
    Send { name: String, message: String },
}

} // verus!
