use tee_pee_scraper::credentials::PasswordLookup;
use tee_pee_scraper::session::login_rejected;
use tee_pee_scraper::{HttpEvent, HttpRequest, LoginFlow, LoginForm, ScrapeError};

const LOGIN_PAGE: &str =
    "<form><input type=\"hidden\" name=\"javax.faces.ViewState\" value=\"vs-77\"/></form>";

#[test]
fn absent_password_fails_before_any_request() {
    let err = LoginFlow::begin_with("ferko", PasswordLookup::Absent).unwrap_err();
    assert!(matches!(err, ScrapeError::PasswordAbsent));
}

#[test]
fn present_password_asks_for_the_login_page() {
    let (_flow, request) = LoginFlow::begin_with(
        "ferko",
        PasswordLookup::Present("tajne".to_string()),
    )
    .unwrap();
    match request {
        HttpRequest::Get { url } => {
            assert_eq!(url, "https://skauting.tee-pee.com/login");
        },
        HttpRequest::PostForm { .. } => panic!("the handshake must start with a GET"),
    }
}

#[test]
fn login_page_yields_the_exact_form_post() {
    let (flow, _) =
        LoginFlow::begin_with("ferko", PasswordLookup::Present("tajne".to_string())).unwrap();
    let (_flow, request) = flow.on_page(HttpEvent::Body(LOGIN_PAGE.to_string())).unwrap();
    match request {
        HttpRequest::PostForm { url, fields } => {
            assert_eq!(url, "https://skauting.tee-pee.com/login");
            let expected = vec![
                ("loginForm", "loginForm"),
                ("usernameId", "ferko"),
                ("passwordId", "tajne"),
                ("loginBtnId", ""),
                ("javax.faces.ViewState", "vs-77"),
            ];
            assert_eq!(fields.len(), expected.len());
            for (got, want) in fields.iter().zip(expected.iter()) {
                assert_eq!(got.0, want.0);
                assert_eq!(got.1, want.1);
            }
        },
        HttpRequest::Get { .. } => panic!("the filled form must be posted"),
    }
}

#[test]
fn login_page_without_token_fails() {
    let (flow, _) =
        LoginFlow::begin_with("ferko", PasswordLookup::Present("tajne".to_string())).unwrap();
    let err = flow.on_page(HttpEvent::Body("<html></html>".to_string())).unwrap_err();
    assert!(matches!(err, ScrapeError::MissingTokenError));
}

#[test]
fn transport_failure_is_a_network_error() {
    let (flow, _) =
        LoginFlow::begin_with("ferko", PasswordLookup::Present("tajne".to_string())).unwrap();
    let err = flow.on_page(HttpEvent::TransportFailed).unwrap_err();
    assert!(matches!(err, ScrapeError::NetworkError));
}

fn flow_awaiting_response() -> LoginFlow {
    let (flow, _) =
        LoginFlow::begin_with("ferko", PasswordLookup::Present("tajne".to_string())).unwrap();
    let (flow, _) = flow.on_page(HttpEvent::Body(LOGIN_PAGE.to_string())).unwrap();
    flow
}

#[test]
fn failure_message_means_rejected_credentials() {
    let body = format!(
        "<html>Nesprávne používateľské meno alebo heslo{}</html>",
        "!"
    );
    let err = flow_awaiting_response().on_response(HttpEvent::Body(body)).unwrap_err();
    assert!(matches!(err, ScrapeError::AuthenticationFailed));
}

#[test]
fn any_other_body_means_success() {
    let result = flow_awaiting_response().on_response(HttpEvent::Body("<html>Vitaj</html>".to_string()));
    assert!(result.is_ok());
}

#[test]
fn rejection_detector_matches_the_literal_message() {
    assert!(login_rejected("pred Nesprávne používateľské meno alebo heslo po"));
    assert!(!login_rejected("whatever else the portal renders"));
}

#[test]
fn login_form_lists_its_fields_in_order() {
    let form = LoginForm::new("user", "pass", "vs");
    let fields = form.to_fields();
    assert_eq!(fields[0], ("loginForm".to_string(), "loginForm".to_string()));
    assert_eq!(fields[1], ("usernameId".to_string(), "user".to_string()));
    assert_eq!(fields[2], ("passwordId".to_string(), "pass".to_string()));
    assert_eq!(fields[3], ("loginBtnId".to_string(), String::new()));
    assert_eq!(fields[4], ("javax.faces.ViewState".to_string(), "vs".to_string()));
}
