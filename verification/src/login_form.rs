use crate::credentials::{Credentials, PasswordLookup};
use crate::errors::ScrapeError;
use vstd::prelude::*;

verus! {

/// The exact field list the portal's login form requires, in order.
pub open spec fn is_login_fields(
    fields: Seq<(String, String)>,
    username: Seq<char>,
    password: Seq<char>,
    view_state: Seq<char>,
) -> bool {
    &&& fields.len() == 5
    &&& fields[0].0@ == "loginForm"@ && fields[0].1@ == "loginForm"@
    &&& fields[1].0@ == "usernameId"@ && fields[1].1@ == username
    &&& fields[2].0@ == "passwordId"@ && fields[2].1@ == password
    &&& fields[3].0@ == "loginBtnId"@ && fields[3].1@.len() == 0
    &&& fields[4].0@ == "javax.faces.ViewState"@ && fields[4].1@ == view_state
}

/// The data of the portal's login form: the fixed form identifier, the
/// credentials, an empty submit-button value and the page's ViewState token.
pub struct LoginForm {
    login_form: String,
    username_id: String,
    password_id: String,
    login_btn_id: String,
    javax_faces_view_state: String,
}

impl LoginForm {
    pub closed spec fn spec_username(&self) -> Seq<char> {
        self.username_id@
    }

    pub closed spec fn spec_password(&self) -> Seq<char> {
        self.password_id@
    }

    pub closed spec fn spec_view_state(&self) -> Seq<char> {
        self.javax_faces_view_state@
    }

    /// A well-formed login form carries the fixed marker values.
    pub closed spec fn wf(&self) -> bool {
        self.login_form@ == "loginForm"@ && self.login_btn_id@.len() == 0
    }

    /// Assembles the login form from its three variable parts.
    pub fn new(username: &str, password: &str, javax_faces_view_state: &str) -> (r: LoginForm)
        ensures
            r.wf(),
            r.spec_username() == username@,
            r.spec_password() == password@,
            r.spec_view_state() == javax_faces_view_state@,
    {
        LoginForm {
            login_form: "loginForm".to_owned(),
            username_id: username.to_owned(),
            password_id: password.to_owned(),
            login_btn_id: String::new(),
            javax_faces_view_state: javax_faces_view_state.to_owned(),
        }
    }

    /// Assembles the login form for stored credentials; fails without a
    /// network call when the password is absent, and propagates a failing
    /// credential store verbatim.
    pub fn from_credentials(credentials: &Credentials, javax_faces_view_state: &str) -> (r: Result<
        LoginForm,
        ScrapeError,
    >)
        ensures
            match r {
                Ok(form) => form.wf() && form.spec_username() == credentials.spec_username()
                    && form.spec_view_state() == javax_faces_view_state@,
                Err(e) => e is PasswordAbsent || e is CredentialStore,
            },
    {
        match credentials.password() {
            PasswordLookup::Present(password) => Ok(
                LoginForm::new(credentials.username(), password.as_str(), javax_faces_view_state),
            ),
            PasswordLookup::Absent => Err(ScrapeError::PasswordAbsent),
            PasswordLookup::Failed(e) => Err(ScrapeError::CredentialStore(e)),
        }
    }

    /// The form as the ordered name/value pairs the portal expects.
    pub fn to_fields(&self) -> (r: Vec<(String, String)>)
        requires
            self.wf(),
        ensures
            is_login_fields(r@, self.spec_username(), self.spec_password(), self.spec_view_state()),
    {
        let mut fields: Vec<(String, String)> = Vec::new();
        fields.push(("loginForm".to_owned(), self.login_form.clone()));
        fields.push(("usernameId".to_owned(), self.username_id.clone()));
        fields.push(("passwordId".to_owned(), self.password_id.clone()));
        fields.push(("loginBtnId".to_owned(), self.login_btn_id.clone()));
        fields.push(("javax.faces.ViewState".to_owned(), self.javax_faces_view_state.clone()));
        fields
    }
}

} // verus!
