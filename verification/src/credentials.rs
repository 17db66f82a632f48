use crate::errors::ScrapeError;
use vstd::prelude::*;

verus! {

#[verifier::external_type_specification]
#[verifier::external_body]
pub struct ExEntry(keyring::Entry);

#[verifier::external_type_specification]
#[verifier::external_body]
pub struct ExKeyringError(keyring::Error);

/// What one password lookup observed.
pub enum PasswordLookup {
    /// The stored password.
    Present(String),
    /// No password is stored for the account: a valid state, not a fault.
    Absent,
    /// The credential store itself failed.
    Failed(keyring::Error),
}

/// Relies on keyring's `Entry::new` with the portal's fixed service name.
/// Its outcome depends on the platform store, so nothing is promised of it.
#[verifier::external_body]
fn entry_new(username: &str) -> (r: Result<keyring::Entry, keyring::Error>) {
    keyring::Entry::new("skauting.tee-pee.com", username)
}

/// Relies on keyring's `Entry::get_password`, whose documentation reserves
/// `NoEntry` for a missing password; the outcome depends on the store.
#[verifier::external_body]
fn entry_get_password(entry: &keyring::Entry) -> (r: PasswordLookup) {
    match entry.get_password() {
        Ok(password) => PasswordLookup::Present(password),
        Err(keyring::Error::NoEntry) => PasswordLookup::Absent,
        Err(e) => PasswordLookup::Failed(e),
    }
}

/// Relies on keyring's `Entry::set_password`; the outcome depends on the
/// store.
#[verifier::external_body]
fn entry_set_password(entry: &keyring::Entry, password: &str) -> (r: Result<(), keyring::Error>) {
    entry.set_password(password)
}

/// Relies on keyring's `Entry::delete_credential`; the outcome depends on
/// the store.
#[verifier::external_body]
fn entry_delete_password(entry: &keyring::Entry) -> (r: Result<(), keyring::Error>) {
    entry.delete_credential()
}

/// A username together with the credential-store entry that holds its
/// password.  The password itself never lives in this structure; it is
/// fetched from the store on demand and may well be absent.
pub struct Credentials {
    username: String,
    password: keyring::Entry,
}

impl Credentials {
    pub closed spec fn spec_username(&self) -> Seq<char> {
        self.username@
    }

    /// The credential invariant: the username is never empty.
    pub open spec fn wf(&self) -> bool {
        self.spec_username().len() > 0
    }

    /// Creates credentials for a username, rejecting an empty one before the
    /// credential store is even consulted.
    pub fn new(username: &str) -> (r: Result<Credentials, ScrapeError>)
        ensures
            match r {
                Ok(c) => username@.len() > 0 && c.spec_username() == username@ && c.wf(),
                Err(e) => match e {
                    ScrapeError::InvalidUsername => username@.len() == 0,
                    ScrapeError::CredentialStore(_) => username@.len() > 0,
                    _ => false,
                },
            },
    {
        if username.is_empty() {
            return Err(ScrapeError::InvalidUsername);
        }
        match entry_new(username) {
            Ok(entry) => Ok(Credentials { username: username.to_owned(), password: entry }),
            Err(e) => Err(ScrapeError::CredentialStore(e)),
        }
    }

    /// The username these credentials belong to.
    pub fn username(&self) -> (r: &str)
        ensures
            r@ == self.spec_username(),
    {
        self.username.as_str()
    }

    /// Looks the password up.  The outcome is whatever the credential store
    /// reports at this moment; two lookups may differ.
    pub fn password(&self) -> (r: PasswordLookup) {
        entry_get_password(&self.password)
    }

    /// Whether a password is currently stored and readable.
    pub fn has_password(&self) -> (r: bool) {
        match self.password() {
            PasswordLookup::Present(_) => true,
            PasswordLookup::Absent => false,
            PasswordLookup::Failed(_) => false,
        }
    }

    /// Stores a password for this account.
    pub fn set_password(&self, password: &str) -> (r: Result<(), keyring::Error>) {
        entry_set_password(&self.password, password)
    }

    /// Deletes the stored password for this account.
    pub fn remove_password(&self) -> (r: Result<(), keyring::Error>) {
        entry_delete_password(&self.password)
    }
}

} // verus!
