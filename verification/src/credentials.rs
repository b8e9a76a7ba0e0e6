//! Credentials kept in the operating system's keychain, through the
//! `keyring` crate.
//!
//! Platform support:
//! - macOS: Keychain
//! - Windows: Credential Manager
//! - Linux: the kernel keyring
use vstd::prelude::*;
use crate::error::{DepotError, DepotResult};
use crate::text::{chars_of, push_str, string_from, string_of};

verus! {

/// Service name for keyring entries
pub const KEYRING_SERVICE: &'static str = "lpm";

#[verifier::external_type_specification]
#[verifier::external_body]
pub struct ExKeyringEntry(keyring::Entry);

#[verifier::external_type_specification]
#[verifier::external_body]
pub struct ExKeyringError(keyring::Error);

/// Where a credential is kept in the keychain: a service and a user name.
#[derive(Debug, Clone)]
pub struct KeychainTarget {
    pub service: String,
    pub user: String,
}

/// Where the credential of `key` is kept: the user `key` of the service
/// [`KEYRING_SERVICE`].
pub fn keychain_target(key: &str) -> (r: KeychainTarget)
    ensures
        r.service@ == KEYRING_SERVICE@,
        r.user@ == key@,
{
    KeychainTarget { service: string_of(KEYRING_SERVICE), user: string_of(key) }
}

/// An entry of the platform store, with the target it was made for.
pub struct KeychainEntry {
    target: KeychainTarget,
    entry: keyring::Entry,
}

impl KeychainEntry {
    /// The target that the entry was made for.
    pub closed spec fn target(self) -> KeychainTarget {
        self.target
    }
}

/// `keyring::Entry::new(service, user)` for a target: the entry of the
/// platform store for its service and user, kept with the target.  Whether
/// the platform accepts them is not stated.
#[verifier::external_body]
fn keyring_entry(target: &KeychainTarget) -> (r: Result<KeychainEntry, keyring::Error>)
    ensures
        r matches Ok(e) ==> e.target().service@ == target.service@ && e.target().user@
            == target.user@,
{
    match keyring::Entry::new(&target.service, &target.user) {
        Ok(entry) => Ok(KeychainEntry { target: target.clone(), entry }),
        Err(e) => Err(e),
    }
}

/// `keyring::Entry::set_password`: saves a password for the entry in the
/// platform store.  Whether the store accepts it is not stated.
#[verifier::external_body]
fn keyring_set_password(entry: &KeychainEntry, password: &str) -> (r: Result<(), keyring::Error>) {
    entry.entry.set_password(password)
}

/// `keyring::Entry::get_password`: the password saved for the entry.  What
/// the platform store holds is not stated.
#[verifier::external_body]
fn keyring_get_password(entry: &KeychainEntry) -> (r: Result<String, keyring::Error>) {
    entry.entry.get_password()
}

/// `keyring::Entry::delete_credential`: removes the entry's credential from
/// the platform store.  Whether there was one is not stated.
#[verifier::external_body]
fn keyring_delete_credential(entry: &KeychainEntry) -> (r: Result<(), keyring::Error>) {
    entry.entry.delete_credential()
}

/// The text of a `keyring::Error` (its `Display`).  Its words are not
/// stated.
#[verifier::external_body]
fn keyring_error_text(e: &keyring::Error) -> (r: String) {
    format!("{}", e)
}

/// A step of working with the keychain.
#[derive(Debug, Clone, Copy, PartialEq, Eq, Structural)]
pub enum KeychainStep {
    /// Creating the entry of a key.
    Entry,
    /// Storing a value.
    Store,
    /// Retrieving a value.
    Retrieve,
    /// Deleting a value.
    Delete,
}

/// What the error of a keychain step says before the platform's own words.
pub open spec fn step_prefix(step: KeychainStep) -> Seq<char> {
    match step {
        KeychainStep::Entry => "Failed to create keyring entry: "@,
        KeychainStep::Store => "Failed to store credential in keychain: "@,
        KeychainStep::Retrieve => "Failed to retrieve credential from keychain: "@,
        KeychainStep::Delete => "Failed to delete credential from keychain: "@,
    }
}

/// Whether `r` is an error of `step`, with the platform's words after the
/// step's prefix.
pub open spec fn is_step_error<T>(r: DepotResult<T>, step: KeychainStep) -> bool {
    r matches Err(DepotError::Package(m)) && m@.len() >= step_prefix(step).len() && m@.take(
        step_prefix(step).len() as int,
    ) == step_prefix(step)
}

/// The result of a keychain step: its value, or the platform's error text
/// after the step's prefix, as a package error.
pub fn step_result<T>(step: KeychainStep, outcome: Result<T, String>) -> (r: DepotResult<T>)
    ensures
        match outcome {
            Ok(v) => r matches Ok(x) && x == v,
            Err(text) => (r matches Err(DepotError::Package(m)) && m@ == step_prefix(step) + text@)
                && is_step_error(r, step),
        },
{
    match outcome {
        Ok(v) => Ok(v),
        Err(text) => {
            let mut m = match step {
                KeychainStep::Entry => chars_of("Failed to create keyring entry: "),
                KeychainStep::Store => chars_of("Failed to store credential in keychain: "),
                KeychainStep::Retrieve => chars_of("Failed to retrieve credential from keychain: "),
                KeychainStep::Delete => chars_of("Failed to delete credential from keychain: "),
            };
            let ghost prefix = m@;
            push_str(&mut m, text.as_str());
            assert(m@.take(prefix.len() as int) =~= prefix);
            Err(DepotError::Package(string_from(&m)))
        },
    }
}

/// The entry of `key` under [`KEYRING_SERVICE`].
fn entry_for(key: &str) -> (r: DepotResult<KeychainEntry>)
    ensures
        r matches Ok(e) ==> e.target().service@ == KEYRING_SERVICE@ && e.target().user@ == key@,
        r is Err ==> is_step_error(r, KeychainStep::Entry),
{
    let target = keychain_target(key);
    let outcome = match keyring_entry(&target) {
        Ok(e) => Ok(e),
        Err(e) => Err(keyring_error_text(&e)),
    };
    step_result(KeychainStep::Entry, outcome)
}

/// Whether a retrieval found a credential: it succeeded.
pub fn credential_found(outcome: &DepotResult<String>) -> (r: bool)
    ensures
        r == outcome is Ok,
{
    match outcome {
        Ok(_) => true,
        Err(_) => false,
    }
}

/// Manages credential storage using OS keychain
pub struct CredentialStore;

impl CredentialStore {
    /// Store a credential in the OS keychain
    pub fn store(key: &str, value: &str) -> (r: DepotResult<()>)
        ensures
            r is Err ==> is_step_error(r, KeychainStep::Entry) || is_step_error(r, KeychainStep::Store),
    {
        let entry = match entry_for(key) {
            Ok(e) => e,
            Err(e) => return Err(e),
        };
        let outcome = match keyring_set_password(&entry, value) {
            Ok(()) => Ok(()),
            Err(e) => Err(keyring_error_text(&e)),
        };
        step_result(KeychainStep::Store, outcome)
    }

    /// Retrieve a credential from the OS keychain
    pub fn retrieve(key: &str) -> (r: DepotResult<String>)
        ensures
            r is Err ==> is_step_error(r, KeychainStep::Entry) || is_step_error(r, KeychainStep::Retrieve),
    {
        let entry = match entry_for(key) {
            Ok(e) => e,
            Err(e) => return Err(e),
        };
        let outcome = match keyring_get_password(&entry) {
            Ok(p) => Ok(p),
            Err(e) => Err(keyring_error_text(&e)),
        };
        step_result(KeychainStep::Retrieve, outcome)
    }

    /// Delete a credential from the OS keychain
    pub fn delete(key: &str) -> (r: DepotResult<()>)
        ensures
            r is Err ==> is_step_error(r, KeychainStep::Entry) || is_step_error(r, KeychainStep::Delete),
    {
        let entry = match entry_for(key) {
            Ok(e) => e,
            Err(e) => return Err(e),
        };
        let outcome = match keyring_delete_credential(&entry) {
            Ok(()) => Ok(()),
            Err(e) => Err(keyring_error_text(&e)),
        };
        step_result(KeychainStep::Delete, outcome)
    }

    /// Check if a credential exists in the keychain: whether retrieving it
    /// succeeds.
    pub fn is_stored(key: &str) -> (r: bool) {
        credential_found(&Self::retrieve(key))
    }
}

} // verus!
