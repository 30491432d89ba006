use lightdm_contest_rs_greeter::greeter::{
    AuthOutcome, BackendCall, ControllerState, CoreCommand, Greeter, GreeterError, MessageType,
    backend_error_event, on_authentication_complete, on_message,
};
use lightdm_contest_rs_greeter::messages::GreeterMessage;
use lightdm_contest_rs_greeter::{CoreUICommand, UICoreCommand};

fn connected() -> Greeter {
    Greeter::new(Ok(())).expect("a successful connection yields a controller")
}

#[test]
fn connection_error_is_fatal() {
    let r = Greeter::new(Err(GreeterError("no daemon".to_string())));
    assert_eq!(r, Err(GreeterError("no daemon".to_string())));
}

#[test]
fn valid_login_starts_exactly_one_session() {
    let mut g = connected();
    let eff = g.authenticate("alice".to_string(), "secret".to_string());
    assert_eq!(
        eff.calls,
        vec![
            BackendCall::RespondSecret("secret".to_string()),
            BackendCall::Authenticate("alice".to_string()),
        ]
    );
    assert!(eff.events.is_empty());
    assert_eq!(g.state, ControllerState::Authenticating);

    let eff = g.handle_auth_outcome(on_authentication_complete(true));
    assert_eq!(eff.calls, vec![BackendCall::StartSession(None)]);
    assert!(eff.events.is_empty());
    assert_eq!(g.state, ControllerState::SessionStarting);
}

#[test]
fn invalid_login_reports_exactly_one_error() {
    let mut g = connected();
    let eff = g.authenticate("alice".to_string(), "wrong".to_string());
    assert!(eff.events.is_empty());

    let eff = g.handle_auth_outcome(on_authentication_complete(false));
    assert!(eff.calls.is_empty());
    assert_eq!(eff.events, vec![CoreUICommand::SetError("Authentication failed".to_string())]);
    assert_eq!(g.state, ControllerState::Connected);
}

#[test]
fn login_during_authentication_waits_its_turn() {
    let mut g = connected();
    let first = g.authenticate("alice".to_string(), "a".to_string());
    assert_eq!(first.calls.len(), 2);
    let second = g.authenticate("bob".to_string(), "b".to_string());
    assert!(second.calls.is_empty(), "no concurrent authenticate call is issued");
    assert_eq!(g.pending.len(), 1);

    let eff = g.handle_auth_outcome(AuthOutcome::Failure("bad password".to_string()));
    assert_eq!(eff.events, vec![CoreUICommand::SetError("bad password".to_string())]);
    assert_eq!(
        eff.calls,
        vec![
            BackendCall::RespondSecret("b".to_string()),
            BackendCall::Authenticate("bob".to_string()),
        ]
    );
    assert_eq!(g.state, ControllerState::Authenticating);
    assert!(g.pending.is_empty());
}

#[test]
fn queued_logins_are_dropped_once_a_session_starts() {
    let mut g = connected();
    g.authenticate("alice".to_string(), "a".to_string());
    g.authenticate("bob".to_string(), "b".to_string());
    let eff = g.handle_auth_outcome(AuthOutcome::Success);
    assert_eq!(eff.calls, vec![BackendCall::StartSession(None)]);
    assert!(g.pending.is_empty());
    let late = g.authenticate("carol".to_string(), "c".to_string());
    assert!(late.calls.is_empty());
}

#[test]
fn expiry_and_login_race_in_either_order() {
    // Expiry first, then the authentication completes.
    let mut g = connected();
    g.authenticate("alice".to_string(), "a".to_string());
    let e1 = g.handle_countdown_expired();
    assert_eq!(e1.calls, vec![BackendCall::StartSession(None)]);
    let e2 = g.handle_auth_outcome(AuthOutcome::Success);
    assert_eq!(e2.calls, vec![BackendCall::StartSession(None)]);
    assert!(e2.events.is_empty());
    assert_eq!(g.state, ControllerState::SessionStarting);

    // The authentication completes first, then the expiry arrives.
    let mut h = connected();
    h.authenticate("alice".to_string(), "a".to_string());
    let e1 = h.handle_auth_outcome(AuthOutcome::Success);
    assert_eq!(e1.calls, vec![BackendCall::StartSession(None)]);
    let e2 = h.handle_countdown_expired();
    assert_eq!(e2.calls, vec![BackendCall::StartSession(None)]);
    assert_eq!(h.state, ControllerState::SessionStarting);
    assert_eq!(g, h);
}

#[test]
fn auth_failure_after_session_start_only_reports() {
    let mut g = connected();
    g.handle_countdown_expired();
    let eff = g.handle_auth_outcome(AuthOutcome::Failure("late".to_string()));
    assert!(eff.calls.is_empty());
    assert_eq!(eff.events, vec![CoreUICommand::SetError("late".to_string())]);
    assert_eq!(g.state, ControllerState::SessionStarting);
}

#[test]
fn backend_messages_only_errors_reach_the_route() {
    assert_eq!(on_message("hello".to_string(), MessageType::Info), None);
    assert_eq!(
        on_message("broken".to_string(), MessageType::Error),
        Some(CoreCommand::SetError("broken".to_string()))
    );
}

#[test]
fn core_commands_are_routed() {
    let mut g = connected();
    let eff = g.handle_core_command(CoreCommand::SetError("oops".to_string()));
    assert!(eff.calls.is_empty());
    assert_eq!(eff.events, vec![CoreUICommand::SetError("oops".to_string())]);
    assert_eq!(g.state, ControllerState::Connected);

    let eff = g.handle_core_command(CoreCommand::StartSession(Some("gnome".to_string())));
    assert_eq!(eff.calls, vec![BackendCall::StartSession(Some("gnome".to_string()))]);
    assert_eq!(g.state, ControllerState::SessionStarting);
}

#[test]
fn ui_commands_reach_authentication() {
    let mut g = connected();
    let eff = g.handle_ui_command(UICoreCommand::Login("alice".to_string(), "a".to_string()));
    assert_eq!(
        eff.calls,
        vec![
            BackendCall::RespondSecret("a".to_string()),
            BackendCall::Authenticate("alice".to_string()),
        ]
    );
    assert_eq!(g.state, ControllerState::Authenticating);
}

#[test]
fn backend_errors_are_reported_with_their_context() {
    assert_eq!(
        backend_error_event("start_session_sync", "no seat"),
        CoreUICommand::SetError("start_session_sync failed: no seat".to_string())
    );
}

#[test]
fn greeter_messages_are_dispatched() {
    let mut g = connected();
    let eff = g.handle_greeter_message(GreeterMessage::LoginWithCreds(
        "alice".to_string(),
        "a".to_string(),
    ));
    assert_eq!(eff.calls.len(), 2);

    let mut g = connected();
    let eff = g.handle_greeter_message(GreeterMessage::Login());
    assert_eq!(eff.calls, vec![BackendCall::StartSession(None)]);

    let mut g = connected();
    let eff = g.handle_greeter_message(GreeterMessage::StartSession(Some("sway".to_string())));
    assert_eq!(eff.calls, vec![BackendCall::StartSession(Some("sway".to_string()))]);
}
