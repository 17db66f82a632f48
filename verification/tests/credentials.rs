use tee_pee_scraper::credentials::PasswordLookup;
use tee_pee_scraper::{Credentials, LoginForm, ScrapeError};

#[test]
fn empty_username_is_rejected() {
    let result = Credentials::new("");
    assert!(matches!(result, Err(ScrapeError::InvalidUsername)));
}

#[test]
fn username_is_kept() {
    let creds = Credentials::new("credentials_username").unwrap();
    assert_eq!(creds.username(), "credentials_username");
}

#[test]
fn password_round_trip() {
    let creds = Credentials::new("credentials_round_trip").unwrap();
    assert!(!creds.has_password());
    assert!(matches!(creds.password(), PasswordLookup::Absent));

    creds.set_password("pass").unwrap();
    assert!(creds.has_password());
    match creds.password() {
        PasswordLookup::Present(p) => assert_eq!(p, "pass"),
        _ => panic!("a stored password must be readable"),
    }

    creds.remove_password().unwrap();
    assert!(!creds.has_password());
}

#[test]
fn login_form_needs_a_stored_password() {
    let creds = Credentials::new("credentials_form").unwrap();
    let result = LoginForm::from_credentials(&creds, "vs");
    assert!(matches!(result, Err(ScrapeError::PasswordAbsent)));

    creds.set_password("heslo").unwrap();
    let Ok(form) = LoginForm::from_credentials(&creds, "vs") else {
        panic!("a stored password must yield a form");
    };
    let fields = form.to_fields();
    assert_eq!(fields[1].1, "credentials_form");
    assert_eq!(fields[2].1, "heslo");
    creds.remove_password().unwrap();
}
