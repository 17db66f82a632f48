use vstd::prelude::*;

verus! {

/// Every failure the library reports.
///
/// Network transport failures are never retried by the library; the
/// HTML-shape errors (`MissingTokenError`, `TabViewNotFound`, `MissingId`,
/// `MissingName`) mean the portal's markup no longer matches expectations;
/// `AuthenticationFailed` is the one recoverable failure, bounded to three
/// attempts by the credential validator.
#[derive(Debug)]
pub enum ScrapeError {
    /// The HTTP transport failed or the body could not be decoded.
    NetworkError,
    /// No hidden ViewState input was found on a fetched page.
    MissingTokenError,
    /// The pagination widget identifier could not be located on a listing page.
    TabViewNotFound,
    /// A listing row had no recognisable object identifier in its link.
    MissingId,
    /// A listing row had no display name.
    MissingName,
    /// The server explicitly rejected the supplied credentials.
    AuthenticationFailed,
    /// A builder was consumed before both mandatory fields were set.
    MissingRequiredField,
    /// A CSS selector string failed to compile.
    InvalidSelector,
    /// A credential was created with an empty username.
    InvalidUsername,
    /// A password-requiring operation found no stored password.
    PasswordAbsent,
    /// The credential store itself failed; the cause is kept verbatim.
    CredentialStore(keyring::Error),
}

}
