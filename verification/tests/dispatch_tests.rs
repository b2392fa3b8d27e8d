use codify::dispatch::{DispatchAction, Event, ReceiveLoop, dispatch_step};
use codify::registry::{CommandDefinition, CommandRegistry, Handler};
use codify::session::SharedState;

fn ping_only_registry() -> CommandRegistry {
    CommandRegistry::build(vec![CommandDefinition {
        name: "ping".to_string(),
        description: "replies with a fixed text".to_string(),
        parameters: Vec::new(),
        handler: Handler::Ping,
    }])
    .unwrap()
}

fn invocation(interaction: u64, user: u64, name: &str) -> Event {
    Event::Invocation { interaction, user, command_name: name.to_string() }
}

#[test]
fn heartbeat_is_ignored() {
    let reg = ping_only_registry();
    assert!(matches!(dispatch_step(&reg, &Event::Heartbeat), DispatchAction::Ignore));
    assert!(matches!(dispatch_step(&reg, &Event::DisconnectNotice), DispatchAction::Ignore));
}

#[test]
fn unknown_command_draws_one_generic_reply_and_loop_continues() {
    let reg = ping_only_registry();
    let mut rl = ReceiveLoop::new();
    rl.handle_event(&reg, &invocation(7, 42, "frobnicate"));
    assert_eq!(rl.sent.len(), 1);
    assert_eq!(rl.sent[0].interaction, 7);
    assert_eq!(rl.sent[0].text, "command unavailable");
    assert_eq!(rl.in_flight.len(), 0);
    // the loop is still live: the next event is processed normally
    rl.handle_event(&reg, &invocation(8, 42, "ping"));
    assert_eq!(rl.in_flight.len(), 1);
}

#[test]
fn ping_invocation_replies_pong() {
    let reg = ping_only_registry();
    let mut rl = ReceiveLoop::new();
    rl.handle_event(&reg, &invocation(1, 99, "ping"));
    assert_eq!(rl.sent.len(), 0);
    assert_eq!(rl.in_flight.len(), 1);
    let shared = SharedState {};
    rl.complete_task(0, &shared);
    assert_eq!(rl.in_flight.len(), 0);
    assert_eq!(rl.sent.len(), 1);
    assert_eq!(rl.sent[0].interaction, 1);
    assert_eq!(rl.sent[0].text, "pong");
}

#[test]
fn back_to_back_pings_both_receive_replies() {
    let reg = ping_only_registry();
    let mut rl = ReceiveLoop::new();
    // the first handler is still running (artificially delayed): the
    // receive loop dispatches the second event without awaiting it
    rl.handle_event(&reg, &invocation(1, 5, "ping"));
    rl.handle_event(&reg, &invocation(2, 5, "ping"));
    assert_eq!(rl.in_flight.len(), 2);
    assert_eq!(rl.sent.len(), 0);
    let shared = SharedState {};
    // the second invocation even completes first
    rl.complete_task(1, &shared);
    assert_eq!(rl.sent.len(), 1);
    assert_eq!(rl.sent[0].interaction, 2);
    assert_eq!(rl.sent[0].text, "pong");
    rl.complete_task(0, &shared);
    assert_eq!(rl.sent.len(), 2);
    assert_eq!(rl.sent[1].interaction, 1);
    assert_eq!(rl.sent[1].text, "pong");
}

#[test]
fn dispatch_resolves_to_first_definition_with_the_name() {
    let reg = ping_only_registry();
    match dispatch_step(&reg, &invocation(3, 4, "ping")) {
        DispatchAction::Invoke { index, context } => {
            assert_eq!(index, 0);
            assert_eq!(context.interaction, 3);
            assert_eq!(context.user, 4);
        }
        _ => panic!("registered name must resolve"),
    }
}

#[test]
fn dispatch_unknown_name_targets_the_event_interaction() {
    let reg = ping_only_registry();
    match dispatch_step(&reg, &invocation(11, 12, "nope")) {
        DispatchAction::ReplyUnavailable { interaction } => assert_eq!(interaction, 11),
        _ => panic!("unregistered name must draw the generic reply"),
    }
}
