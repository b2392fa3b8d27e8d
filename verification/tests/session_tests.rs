use codify::publish::PublishError;
use codify::session::{
    FatalError, SessionAction, SessionEvent, SessionManager, SessionState, fatal_exit_code,
};

fn bring_up(m: &mut SessionManager) {
    assert!(matches!(m.step(SessionEvent::ConnectStarted), SessionAction::Continue));
    assert!(matches!(m.step(SessionEvent::AuthAccepted), SessionAction::Continue));
}

#[test]
fn first_ready_runs_setup_exactly_once() {
    let mut m = SessionManager::new();
    assert!(m.shared.is_none());
    bring_up(&mut m);
    assert!(matches!(m.step(SessionEvent::GatewayReady), SessionAction::PublishRegistry));
    assert!(m.shared.is_none(), "setup completes only when the publish is answered");
    assert!(matches!(m.step(SessionEvent::PublishAccepted), SessionAction::Continue));
    assert!(m.shared.is_some());
    assert_eq!(m.setup_runs, 1);
}

#[test]
fn ready_after_reconnect_does_not_rerun_setup() {
    let mut m = SessionManager::new();
    bring_up(&mut m);
    m.step(SessionEvent::GatewayReady);
    m.step(SessionEvent::PublishAccepted);
    assert_eq!(m.setup_runs, 1);
    // drop and reconnect: a session already exists
    assert!(matches!(m.step(SessionEvent::ConnectionDropped), SessionAction::Continue));
    assert!(matches!(m.state, SessionState::Disconnected));
    bring_up(&mut m);
    assert!(matches!(m.step(SessionEvent::GatewayReady), SessionAction::Continue));
    assert!(m.shared.is_some());
    assert_eq!(m.setup_runs, 1);
}

#[test]
fn rejected_credentials_are_fatal() {
    let mut m = SessionManager::new();
    m.step(SessionEvent::ConnectStarted);
    match m.step(SessionEvent::AuthRejected) {
        SessionAction::Exit(FatalError::AuthenticationFailed) => {}
        _ => panic!("rejected credentials must abort startup"),
    }
}

#[test]
fn failed_publish_is_fatal_during_setup() {
    let mut m = SessionManager::new();
    bring_up(&mut m);
    m.step(SessionEvent::GatewayReady);
    match m.step(SessionEvent::PublishRejected(PublishError::Transport)) {
        SessionAction::Exit(FatalError::SetupFailed(PublishError::Transport)) => {}
        _ => panic!("a publish failure during setup must abort startup"),
    }
    assert!(m.shared.is_none());
    assert_eq!(m.setup_runs, 0);
}

#[test]
fn exhausted_retries_end_the_process() {
    let mut m = SessionManager::new();
    bring_up(&mut m);
    m.step(SessionEvent::GatewayReady);
    m.step(SessionEvent::PublishAccepted);
    m.step(SessionEvent::ConnectionDropped);
    match m.step(SessionEvent::RetriesExhausted) {
        SessionAction::Exit(FatalError::SessionLost) => {}
        _ => panic!("exhausted retries must end the process"),
    }
}

#[test]
fn fatal_exit_codes_are_nonzero() {
    assert_ne!(fatal_exit_code(&FatalError::AuthenticationFailed), 0);
    assert_ne!(fatal_exit_code(&FatalError::SetupFailed(PublishError::InvalidScope)), 0);
    assert_ne!(fatal_exit_code(&FatalError::SessionLost), 0);
}
