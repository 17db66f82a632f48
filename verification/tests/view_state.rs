use tee_pee_scraper::session::extract_view_state;
use tee_pee_scraper::ScrapeError;

#[test]
fn test_extract_view_state() {
    let html =
        "<input type=\"hidden\" name=\"javax.faces.ViewState\" value=\"test_view_state\" />";
    assert_eq!(extract_view_state(html).unwrap(), "test_view_state".to_string());

    let html_missing = "<html><body>No view state here</body></html>";
    assert!(extract_view_state(html_missing).is_err());
}

#[test]
fn view_state_missing_is_missing_token() {
    let err = extract_view_state("<html><body>nothing</body></html>").unwrap_err();
    assert!(matches!(err, ScrapeError::MissingTokenError));
}

#[test]
fn view_state_takes_first_matching_input() {
    let html = "<form>\
        <input type=\"hidden\" name=\"javax.faces.ViewState\" value=\"first\"/>\
        <input type=\"hidden\" name=\"javax.faces.ViewState\" value=\"second\"/>\
        </form>";
    assert_eq!(extract_view_state(html).unwrap(), "first".to_string());
}

#[test]
fn view_state_ignores_other_inputs() {
    let html = "<input name=\"other\" value=\"nope\"/>\
        <input name=\"javax.faces.ViewState\" value=\"tok-123\"/>";
    assert_eq!(extract_view_state(html).unwrap(), "tok-123".to_string());
}
