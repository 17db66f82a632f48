use crate::credentials::{Credentials, PasswordLookup};
use crate::errors::ScrapeError;
use crate::html::{first_attr_of, html_first_attr, selector_valid};
use crate::login_form::{is_login_fields, LoginForm};
use crate::text::{chars_of, contains_chars, contains_seq};
use vstd::prelude::*;

verus! {

// ---------------------------------------------------------------------------
// The caller-driven HTTP protocol
// ---------------------------------------------------------------------------
// The library never talks to the network itself.  A protocol step hands the
// caller one request; the caller performs it over its own session (one
// cookie jar for all requests) and hands the outcome back as an event.

/// One HTTP request the caller is asked to perform.
#[derive(Debug)]
pub enum HttpRequest {
    /// A plain GET of the page at `url`.
    Get { url: String },
    /// A form-encoded POST of `fields`, in order, to `url`.
    PostForm { url: String, fields: Vec<(String, String)> },
}

/// What came back from one HTTP request.
#[derive(Debug)]
pub enum HttpEvent {
    /// The decoded response body.
    Body(String),
    /// The transport failed or the body could not be decoded.
    TransportFailed,
}

/// The login page of the portal.
pub open spec fn login_url_spec() -> Seq<char> {
    "https://skauting.tee-pee.com/login"@
}

/// The login page of the portal.
pub fn login_url() -> (r: String)
    ensures
        r@ == login_url_spec(),
{
    "https://skauting.tee-pee.com/login".to_owned()
}

/// The selector of the hidden input that carries the ViewState token.
pub open spec fn view_state_selector_spec() -> Seq<char> {
    "input[name=\"javax.faces.ViewState\"]"@
}

/// The literal failure message the portal renders for bad credentials.
pub open spec fn auth_failure_text() -> Seq<char> {
    "Nesprávne používateľské meno alebo heslo"@
}

/// Extracts the anti-forgery ViewState token from a rendered page: the
/// `value` of the hidden input named `javax.faces.ViewState`.  A page
/// without that input has no token, which signals an unreachable page or an
/// unauthenticated redirect.
pub fn extract_view_state(html: &str) -> (r: Result<String, ScrapeError>)
    ensures
        match r {
            Ok(token) => selector_valid(view_state_selector_spec()) && first_attr_of(
                html@,
                view_state_selector_spec(),
                "value"@,
            ) == Some(token@),
            Err(e) => match e {
                ScrapeError::MissingTokenError => selector_valid(view_state_selector_spec())
                    && first_attr_of(html@, view_state_selector_spec(), "value"@) is None,
                ScrapeError::InvalidSelector => !selector_valid(view_state_selector_spec()),
                _ => false,
            },
        },
{
    match html_first_attr(html, "input[name=\"javax.faces.ViewState\"]", "value") {
        Ok(Some(token)) => Ok(token),
        Ok(None) => Err(ScrapeError::MissingTokenError),
        Err(e) => Err(e),
    }
}

/// Whether a login response body reports rejected credentials.  The portal
/// renders no explicit success marker: a body without its literal failure
/// message counts as success, fragile as that is.
pub fn login_rejected(body: &str) -> (r: bool)
    ensures
        r == contains_seq(body@, auth_failure_text()),
{
    let text = chars_of(body);
    let pattern = chars_of("Nesprávne používateľské meno alebo heslo");
    contains_chars(&text, &pattern)
}

// ---------------------------------------------------------------------------
// The login handshake
// ---------------------------------------------------------------------------
// GET the login page, lift its ViewState token, POST the login form, and
// read the outcome off the response body.

#[derive(Debug)]
enum LoginState {
    AwaitPage { username: String, password: String },
    AwaitResponse,
}

/// The login handshake in progress.  Obtain one with [`LoginFlow::begin`],
/// then feed each response to the matching `on_` step.
#[derive(Debug)]
pub struct LoginFlow {
    state: LoginState,
}

impl LoginFlow {
    /// The handshake still awaits the login page.
    pub closed spec fn awaiting_page(&self) -> bool {
        self.state is AwaitPage
    }

    /// The handshake still awaits the response to the posted form.
    pub closed spec fn awaiting_response(&self) -> bool {
        self.state is AwaitResponse
    }

    pub closed spec fn spec_username(&self) -> Seq<char> {
        match self.state {
            LoginState::AwaitPage { username, .. } => username@,
            LoginState::AwaitResponse => Seq::empty(),
        }
    }

    pub closed spec fn spec_password(&self) -> Seq<char> {
        match self.state {
            LoginState::AwaitPage { password, .. } => password@,
            LoginState::AwaitResponse => Seq::empty(),
        }
    }

    /// Starts the handshake from an already-resolved password lookup.  An
    /// absent password fails here, before any request is issued; a failing
    /// credential store is propagated verbatim.
    pub fn begin_with(username: &str, lookup: PasswordLookup) -> (r: Result<
        (LoginFlow, HttpRequest),
        ScrapeError,
    >)
        ensures
            match lookup {
                PasswordLookup::Present(pw) => r is Ok && r->Ok_0.0.awaiting_page()
                    && r->Ok_0.0.spec_username() == username@ && r->Ok_0.0.spec_password() == pw@
                    && (r->Ok_0.1 matches HttpRequest::Get { url } && url@ == login_url_spec()),
                PasswordLookup::Absent => r is Err && r->Err_0 is PasswordAbsent,
                PasswordLookup::Failed(e) => r is Err && (r->Err_0 matches
                    ScrapeError::CredentialStore(e2) && e2 == e),
            },
    {
        match lookup {
            PasswordLookup::Present(password) => Ok(
                (
                    LoginFlow {
                        state: LoginState::AwaitPage { username: username.to_owned(), password },
                    },
                    HttpRequest::Get { url: login_url() },
                ),
            ),
            PasswordLookup::Absent => Err(ScrapeError::PasswordAbsent),
            PasswordLookup::Failed(e) => Err(ScrapeError::CredentialStore(e)),
        }
    }

    /// Starts the handshake for stored credentials: looks the password up
    /// and fails before any request when it is absent.
    pub fn begin(credentials: &Credentials) -> (r: Result<(LoginFlow, HttpRequest), ScrapeError>)
        ensures
            match r {
                Ok((flow, req)) => flow.awaiting_page() && flow.spec_username()
                    == credentials.spec_username() && (req matches HttpRequest::Get { url } && url@
                    == login_url_spec()),
                Err(e) => e is PasswordAbsent || e is CredentialStore,
            },
    {
        let lookup = credentials.password();
        LoginFlow::begin_with(credentials.username(), lookup)
    }

    /// Consumes the fetched login page: lifts its ViewState token and asks
    /// for the login form to be posted.
    pub fn on_page(self, event: HttpEvent) -> (r: Result<(LoginFlow, HttpRequest), ScrapeError>)
        requires
            self.awaiting_page(),
        ensures
            match event {
                HttpEvent::TransportFailed => r is Err && r->Err_0 is NetworkError,
                HttpEvent::Body(body) => {
                    if !selector_valid(view_state_selector_spec()) {
                        r is Err && r->Err_0 is InvalidSelector
                    } else {
                        match first_attr_of(body@, view_state_selector_spec(), "value"@) {
                            Some(token) => r is Ok && r->Ok_0.0.awaiting_response() && (r->Ok_0.1
                                matches HttpRequest::PostForm { url, fields } && url@
                                == login_url_spec() && is_login_fields(
                                fields@,
                                self.spec_username(),
                                self.spec_password(),
                                token,
                            )),
                            None => r is Err && r->Err_0 is MissingTokenError,
                        }
                    }
                },
            },
    {
        match event {
            HttpEvent::TransportFailed => Err(ScrapeError::NetworkError),
            HttpEvent::Body(body) => {
                match self.state {
                    LoginState::AwaitPage { username, password } => {
                        match extract_view_state(body.as_str()) {
                            Ok(token) => {
                                let form = LoginForm::new(
                                    username.as_str(),
                                    password.as_str(),
                                    token.as_str(),
                                );
                                let fields = form.to_fields();
                                Ok(
                                    (
                                        LoginFlow { state: LoginState::AwaitResponse },
                                        HttpRequest::PostForm { url: login_url(), fields },
                                    ),
                                )
                            },
                            Err(e) => Err(e),
                        }
                    },
                    LoginState::AwaitResponse => vstd::pervasive::unreached(),
                }
            },
        }
    }

    /// Consumes the response to the posted form.  The portal's literal
    /// failure message means the credentials were rejected; any other body
    /// means the session cookie now carries an authenticated session.
    pub fn on_response(self, event: HttpEvent) -> (r: Result<(), ScrapeError>)
        requires
            self.awaiting_response(),
        ensures
            match event {
                HttpEvent::TransportFailed => r is Err && r->Err_0 is NetworkError,
                HttpEvent::Body(body) => if contains_seq(body@, auth_failure_text()) {
                    r is Err && r->Err_0 is AuthenticationFailed
                } else {
                    r is Ok
                },
            },
    {
        match event {
            HttpEvent::TransportFailed => Err(ScrapeError::NetworkError),
            HttpEvent::Body(body) => {
                if login_rejected(body.as_str()) {
                    Err(ScrapeError::AuthenticationFailed)
                } else {
                    Ok(())
                }
            },
        }
    }
}

} // verus!
