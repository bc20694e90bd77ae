use gmail_hotkey_sender::config::Config;
use gmail_hotkey_sender::dispatch::{
    authenticate, Action, AuthError, Dispatch, DispatchError, Event, Phase, TransportError,
};
use gmail_hotkey_sender::preview::console_lines;
use gmail_hotkey_sender::request::SendRequest;

fn request(draft: bool) -> SendRequest {
    SendRequest::build("a@b.com", Some("Hi"), Some("Hello"), None, None, None, draft).unwrap()
}

fn sending(log: bool) -> Dispatch {
    Dispatch { is_draft: false, log_enabled: log, phase: Phase::Idle }
}

#[test]
fn draft_end_to_end_succeeds_without_auth_or_log() {
    let req = request(true);
    let lines = console_lines(&req);
    assert_eq!(
        lines,
        vec![
            "Would create draft to: a@b.com".to_string(),
            "Subject: Hi".to_string(),
            "Body: Hello".to_string(),
        ]
    );
    let mut d = Dispatch::start(&req, &Config::default());
    assert!(d.log_enabled);
    assert_eq!(d.handle(Event::Begin), Action::CreateDraft);
    assert_eq!(d.handle(Event::Transported(Ok(()))), Action::Finish);
    assert!(d.is_finished());
    assert!(d.into_result().is_ok());
}

#[test]
fn send_fails_with_unimplemented_auth() {
    let req = request(false);
    let mut d = Dispatch::start(&req, &Config::default());
    assert_eq!(d.handle(Event::Begin), Action::Authenticate);
    let auth = authenticate();
    assert_eq!(auth, Err(AuthError::NotImplemented));
    assert_eq!(d.handle(Event::Authenticated(auth)), Action::Finish);
    assert_eq!(d.handle(Event::Transported(Ok(()))), Action::Finish);
    assert!(matches!(d.into_result(), Err(DispatchError::Auth(AuthError::NotImplemented))));
}

#[test]
fn send_logs_after_success_when_enabled() {
    let mut d = sending(true);
    assert_eq!(d.handle(Event::Begin), Action::Authenticate);
    assert_eq!(d.handle(Event::Authenticated(Ok(()))), Action::Send);
    assert_eq!(d.handle(Event::Transported(Ok(()))), Action::RecordAudit);
    assert!(!d.is_finished());
    assert_eq!(d.handle(Event::Recorded(Ok(()))), Action::Finish);
    assert!(d.into_result().is_ok());
}

#[test]
fn send_skips_log_when_disabled() {
    let mut d = sending(false);
    d.handle(Event::Begin);
    d.handle(Event::Authenticated(Ok(())));
    assert_eq!(d.handle(Event::Transported(Ok(()))), Action::Finish);
    assert!(d.into_result().is_ok());
}

#[test]
fn log_failure_fails_the_dispatch() {
    let mut d = sending(true);
    d.handle(Event::Begin);
    d.handle(Event::Authenticated(Ok(())));
    d.handle(Event::Transported(Ok(())));
    assert_eq!(d.handle(Event::Recorded(Err("disk full".to_string()))), Action::Finish);
    match d.into_result() {
        Err(DispatchError::Io(m)) => assert_eq!(m, "disk full"),
        other => panic!("unexpected {:?}", other),
    }
}

#[test]
fn transport_failure_fails_the_dispatch() {
    let mut d = sending(true);
    d.handle(Event::Begin);
    d.handle(Event::Authenticated(Ok(())));
    let e = TransportError { message: "refused".to_string() };
    assert_eq!(d.handle(Event::Transported(Err(e))), Action::Finish);
    match d.into_result() {
        Err(DispatchError::Transport(t)) => assert_eq!(t.message, "refused"),
        other => panic!("unexpected {:?}", other),
    }
}

#[test]
fn event_out_of_order_fails() {
    let mut d = sending(true);
    assert_eq!(d.handle(Event::Recorded(Ok(()))), Action::Finish);
    assert!(matches!(d.into_result(), Err(DispatchError::OutOfOrder)));
}
