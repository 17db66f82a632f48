use tee_pee_scraper::validator::{LoginOutcome, Phase, StoreAction};
use tee_pee_scraper::PasswordValidator;
use tee_pee_scraper::ScrapeError;

fn reject_once(v: PasswordValidator) -> PasswordValidator {
    let (v, action) = v.submit();
    assert_eq!(action, StoreAction::Persist);
    let (v, action) = v.on_login_outcome(&LoginOutcome::AuthenticationFailed);
    assert_eq!(action, Some(StoreAction::Rollback));
    v
}

#[test]
fn three_rejections_are_fatal() {
    let v = PasswordValidator::new();
    let v = reject_once(v);
    assert_eq!(v.phase(), Phase::Invalid);
    let v = reject_once(v);
    assert_eq!(v.phase(), Phase::Invalid);
    let v = reject_once(v);
    assert_eq!(v.phase(), Phase::Fatal);
    assert_eq!(v.attempts(), 3);
}

#[test]
fn two_rejections_still_accept_a_prompt() {
    let v = PasswordValidator::new();
    let v = reject_once(v);
    let v = reject_once(v);
    assert_eq!(v.phase(), Phase::Invalid);
    assert_eq!(v.attempts(), 2);

    // A further prompt is accepted, and success still wins.
    let (v, action) = v.submit();
    assert_eq!(action, StoreAction::Persist);
    let (v, action) = v.on_login_outcome(&LoginOutcome::Success);
    assert_eq!(v.phase(), Phase::Valid);
    assert_eq!(action, None);
}

#[test]
fn success_keeps_password_persisted() {
    let v = PasswordValidator::new();
    let (v, _) = v.submit();
    let (v, action) = v.on_login_outcome(&LoginOutcome::Success);
    assert_eq!(v.phase(), Phase::Valid);
    assert_eq!(action, None);
}

#[test]
fn other_failures_are_fatal_and_consume_no_attempt() {
    let v = PasswordValidator::new();
    let (v, _) = v.submit();
    let (v, action) = v.on_login_outcome(&LoginOutcome::Other(ScrapeError::NetworkError));
    assert_eq!(v.phase(), Phase::Fatal);
    assert_eq!(v.attempts(), 0);
    assert_eq!(action, Some(StoreAction::Rollback));
}
