use std::collections::HashMap;
use gromnie_client::bridge::{
    check_connect_arguments, ends_entering_world, ends_session, entering_world_timed_out, forward_event,
    keepalive_due, result_message, select_character_action, valid_host, BridgeEvent, BridgeEventKind, Emitter, ResultCode,
};
use gromnie_client::events::{
    CharacterIdentity, ClientEvent, ClientStateEvent, ClientSystemEvent, SimpleClientAction, SimpleGameEvent,
};
use gromnie_client::instant::Instant;

fn character(id: u32, name: &str) -> CharacterIdentity {
    CharacterIdentity { character_id: id, name: name.to_string(), seconds_greyed_out: 0 }
}

#[test]
fn host_validation_allows_dns_and_ipv4_only() {
    assert!(valid_host("play.example.com"));
    assert!(valid_host("192.0.2.42"));
    assert!(!valid_host("https://play.example.com"));
    assert!(!valid_host("[2001:db8::1]"));
    assert!(!valid_host("bad host"));
}

#[test]
fn host_validation_rejects_empty_and_ports() {
    assert!(!valid_host(""));
    assert!(!valid_host("host:9000"));
    assert!(valid_host("a-b.c"));
}

#[test]
fn ffi_rejects_invalid_connect_arguments_without_starting_a_worker() {
    let r = check_connect_arguments(9000, Some("[2001:db8::1]"), 13, Some("account"), 7, Some("password"), 8);
    assert_eq!(r, Err(ResultCode::InvalidArgument));
    assert_eq!(ResultCode::InvalidArgument.code(), 2);
    assert_eq!(ResultCode::InvalidState.code(), 3);
}

#[test]
fn connect_arguments_checks() {
    assert_eq!(check_connect_arguments(9000, Some("localhost"), 9, Some("a"), 1, Some("p"), 1), Ok(()));
    assert!(check_connect_arguments(0, Some("localhost"), 9, Some("a"), 1, Some("p"), 1).is_err());
    assert!(check_connect_arguments(9000, Some("localhost"), 9, Some(""), 0, Some("p"), 1).is_err());
    assert!(check_connect_arguments(9000, Some("localhost"), 9, Some("a"), 1, None, 1).is_err());
    assert!(check_connect_arguments(9000, Some("localhost"), 256, Some("a"), 1, Some("p"), 1).is_err());
    assert!(check_connect_arguments(9000, Some("localhost"), 9, Some("a"), 1, Some("p"), 513).is_err());
}

#[test]
fn result_messages() {
    assert_eq!(result_message(0), "ok");
    assert_eq!(result_message(1), "no event available");
    assert_eq!(result_message(4), "command queue is full");
    assert_eq!(result_message(42), "internal error");
    assert_eq!(result_message(ResultCode::TimedOut.code()), "operation timed out");
}

#[test]
fn emitter_sequences_events_monotonically() {
    let mut emitter = Emitter::new();
    let first = emitter.emit(BridgeEventKind::Connecting);
    let second = emitter.disconnected("done".to_string(), true);
    assert_eq!(first.sequence, 1);
    assert_eq!(second.sequence, 2);
    assert!(second.timestamp_ms >= first.timestamp_ms);
}

#[test]
fn emitter_stamps_the_given_time() {
    let mut emitter = Emitter::new();
    let e = emitter.emit_at(BridgeEventKind::Connecting, 123);
    assert_eq!(e.sequence, 1);
    assert_eq!(e.timestamp_ms, 123);
    let err = emitter.error("login", "nope".to_string(), "characters");
    assert_eq!(err.sequence, 2);
    assert_eq!(
        err.kind,
        BridgeEventKind::Error { code: "login".to_string(), message: "nope".to_string(), recover_to: "characters".to_string() }
    );
}

#[test]
fn forward_event_maps_character_list_and_records_names() {
    let mut emitter = Emitter::new();
    let mut names = HashMap::new();
    let event = forward_event(
        &mut emitter,
        ClientEvent::Game(SimpleGameEvent::CharacterListReceived {
            account: "acct".to_string(),
            characters: vec![character(1, "Alice"), character(2, "Bob")],
            num_slots: 5,
        }),
        &mut names,
    )
    .expect("expected a characters event");
    match event.kind {
        BridgeEventKind::Characters { account, slots, characters } => {
            assert_eq!(account, "acct");
            assert_eq!(slots, 5);
            assert_eq!(characters.len(), 2);
            assert_eq!(characters[0].id, 1);
            assert_eq!(characters[0].name, "Alice");
        }
        other => panic!("unexpected event: {other:?}"),
    }
    assert_eq!(names.get(&1).map(String::as_str), Some("Alice"));
    assert_eq!(names.get(&2).map(String::as_str), Some("Bob"));
    assert_eq!(emitter.sequence, 1);
}

#[test]
fn forward_event_maps_login_succeeded_to_entered_world() {
    let mut emitter = Emitter::new();
    let mut names = HashMap::new();
    let event = forward_event(
        &mut emitter,
        ClientEvent::Game(SimpleGameEvent::LoginSucceeded { character_id: 7, character_name: "Alice".to_string() }),
        &mut names,
    )
    .expect("expected an entered_world event");
    match event.kind {
        BridgeEventKind::EnteredWorld { character_id, character_name } => {
            assert_eq!(character_id, 7);
            assert_eq!(character_name, "Alice");
        }
        other => panic!("unexpected event: {other:?}"),
    }
}

#[test]
fn forward_event_maps_chat() {
    let mut emitter = Emitter::new();
    let mut names = HashMap::new();
    let event = forward_event(
        &mut emitter,
        ClientEvent::Game(SimpleGameEvent::ChatMessageReceived { message: "hello".to_string(), message_type: 2 }),
        &mut names,
    )
    .expect("expected a chat event");
    match event.kind {
        BridgeEventKind::Chat { message, message_type } => {
            assert_eq!(message, "hello");
            assert_eq!(message_type, 2);
        }
        other => panic!("unexpected event: {other:?}"),
    }
}

#[test]
fn forward_event_routes_failures_to_the_right_screen() {
    let cases = vec![
        (ClientEvent::Game(SimpleGameEvent::LoginFailed { reason: "nope".to_string() }), "login", "characters"),
        (
            ClientEvent::Game(SimpleGameEvent::CharacterError { error_code: 1, error_message: "bad".to_string() }),
            "character",
            "characters",
        ),
        (
            ClientEvent::System(ClientSystemEvent::AuthenticationFailed { reason: "bad".to_string() }),
            "authentication",
            "form",
        ),
    ];
    for (event, code, recover_to) in cases {
        let mut emitter = Emitter::new();
        let mut names = HashMap::new();
        let e = forward_event(&mut emitter, event, &mut names).expect("expected an error event");
        match e.kind {
            BridgeEventKind::Error { code: actual_code, recover_to: actual_recover, .. } => {
                assert_eq!(actual_code, code);
                assert_eq!(actual_recover, recover_to);
            }
            other => panic!("unexpected event: {other:?}"),
        }
    }
}

#[test]
fn forward_event_ignores_unmapped_events() {
    let mut emitter = Emitter::new();
    let mut names = HashMap::new();
    assert!(forward_event(&mut emitter, ClientEvent::State(ClientStateEvent::InWorld), &mut names).is_none());
    assert_eq!(emitter.sequence, 0);
}

#[test]
fn selecting_a_character_needs_its_name() {
    let mut names = HashMap::new();
    names.insert(5u32, "Alice".to_string());
    let action = select_character_action(&names, 5, &"acct".to_string()).unwrap();
    assert_eq!(
        action,
        SimpleClientAction::LoginCharacter { character_id: 5, character_name: "Alice".to_string(), account: "acct".to_string() }
    );
    let (code, message, to) = select_character_action(&names, 6, &"acct".to_string()).unwrap_err();
    assert_eq!(code, "character");
    assert_eq!(message, "The selected character is not available.");
    assert_eq!(to, "characters");
}

#[test]
fn session_loop_decisions() {
    assert!(ends_entering_world(&ClientEvent::Game(SimpleGameEvent::LoginFailed { reason: String::new() })));
    assert!(!ends_entering_world(&ClientEvent::State(ClientStateEvent::InWorld)));
    assert!(ends_session(&ClientEvent::System(ClientSystemEvent::AuthenticationFailed { reason: String::new() })));
    assert!(!ends_session(&ClientEvent::State(ClientStateEvent::Connected)));
    let t0 = Instant::from_millis(1_000);
    assert!(!entering_world_timed_out(None, t0.add_millis(60_000)));
    assert!(!entering_world_timed_out(Some(t0), t0.add_millis(19_999)));
    assert!(entering_world_timed_out(Some(t0), t0.add_millis(20_000)));
    assert!(!keepalive_due(t0, t0.add_millis(4_999)));
    assert!(keepalive_due(t0, t0.add_millis(5_000)));
}

use gromnie_client::bridge::{Command, CommandStep, SessionActor};

#[test]
fn session_actor_walks_a_session() {
    let t0 = Instant::from_millis(10_000);
    let mut actor = SessionActor::new("acct".to_string(), t0);
    let first = actor.start(1);
    assert_eq!(first.sequence, 1);
    assert_eq!(first.kind, BridgeEventKind::Connecting);

    // an unknown character is reported and the session goes on
    match actor.on_command(Command::SelectCharacter(5)) {
        CommandStep::Report(e) => {
            assert_eq!(e.sequence, 2);
            assert!(matches!(e.kind, BridgeEventKind::Error { ref code, .. } if code == "character"));
        }
        other => panic!("unexpected step: {other:?}"),
    }

    let (fwd, end) = actor.on_client_event(ClientEvent::Game(SimpleGameEvent::CharacterListReceived {
        account: "acct".to_string(),
        characters: vec![character(5, "Alice")],
        num_slots: 2,
    }));
    assert!(end.is_none());
    assert_eq!(fwd.unwrap().sequence, 3);

    let step = actor.on_command(Command::SelectCharacter(5));
    assert_eq!(
        step,
        CommandStep::LoginCharacter(SimpleClientAction::LoginCharacter {
            character_id: 5,
            character_name: "Alice".to_string(),
            account: "acct".to_string(),
        })
    );
    let entering = actor.on_character_login_sent(5, Ok(()), t0);
    assert_eq!(entering.kind, BridgeEventKind::EnteringWorld { character_id: 5 });
    assert_eq!(actor.entering_world_since, Some(t0));

    // a login left unanswered for twenty seconds ends the session
    assert!(actor.on_tick(t0.add_millis(19_999), false).is_none());
    let (event, reason) = actor.on_tick(t0.add_millis(20_000), false).unwrap();
    assert_eq!(reason, "entering world timed out");
    assert!(matches!(event.unwrap().kind, BridgeEventKind::Error { ref recover_to, .. } if recover_to == "characters"));

    let last = actor.finish(reason);
    assert_eq!(last.kind, BridgeEventKind::Disconnected { reason: "entering world timed out".to_string(), user_initiated: false });
}

#[test]
fn session_actor_settles_logins_and_stops_on_failed_authentication() {
    let t0 = Instant::from_millis(0);
    let mut actor = SessionActor::new("acct".to_string(), t0);
    actor.entering_world_since = Some(t0);
    let (fwd, end) = actor.on_client_event(ClientEvent::Game(SimpleGameEvent::LoginSucceeded {
        character_id: 1,
        character_name: "A".to_string(),
    }));
    assert!(fwd.is_some() && end.is_none());
    assert!(actor.entering_world_since.is_none());
    let (fwd, end) = actor.on_client_event(ClientEvent::System(ClientSystemEvent::AuthenticationFailed { reason: "bad".to_string() }));
    assert!(fwd.is_some());
    assert_eq!(end.as_deref(), Some("authentication failed"));
    assert_eq!(actor.on_tick(t0, true).map(|(e, r)| (e.is_none(), r)), Some((true, "connection timed out".to_string())));
}

#[test]
fn session_actor_disconnect_and_chat_commands() {
    let mut actor = SessionActor::new("acct".to_string(), Instant::from_millis(0));
    assert_eq!(
        actor.on_command(Command::SendChat("hi".to_string())),
        CommandStep::Chat(SimpleClientAction::SendChatSay { message: "hi".to_string() })
    );
    let failed = actor.on_character_login_sent(3, Err("boom".to_string()), Instant::from_millis(1));
    assert!(matches!(failed.kind, BridgeEventKind::Error { ref code, ref message, .. } if code == "network" && message == "boom"));
    assert!(actor.entering_world_since.is_none());
    assert_eq!(actor.on_command(Command::Disconnect), CommandStep::End("disconnected by user".to_string()));
    assert!(actor.user_initiated);
    assert!(!actor.finished);
    let last = actor.finish("disconnected by user".to_string());
    assert_eq!(last.sequence, 2);
    assert_eq!(last.kind, BridgeEventKind::Disconnected { reason: "disconnected by user".to_string(), user_initiated: true });
    assert!(actor.finished);
}

#[test]
fn session_actor_keepalive_every_five_seconds() {
    let t0 = Instant::from_millis(100);
    let mut actor = SessionActor::new("acct".to_string(), t0);
    assert!(!actor.keepalive_due_at(t0.add_millis(4_999)));
    assert!(actor.keepalive_due_at(t0.add_millis(5_000)));
    assert_eq!(actor.last_keepalive, t0.add_millis(5_000));
    assert!(!actor.keepalive_due_at(t0.add_millis(6_000)));
}

fn terminal_count(events: &[BridgeEvent]) -> usize {
    events.iter().filter(|e| matches!(e.kind, BridgeEventKind::Disconnected { .. })).count()
}

#[test]
fn actor_reports_transport_failure_then_one_terminal_event() {
    // The session loop's steps for a transport whose receive fails at once.
    let mut actor = SessionActor::new("acct".to_string(), Instant::from_millis(0));
    let mut events = vec![actor.start(1)];
    events.push(actor.report_error("network", "receive failed".to_string(), "form"));
    events.push(actor.finish("UDP receive failed".to_string()));

    assert!(matches!(events.first().map(|event| &event.kind), Some(BridgeEventKind::Connecting)));
    assert!(
        events.iter().any(|event| matches!(event.kind, BridgeEventKind::Error { .. })),
        "a fatal transport error must surface as an error event"
    );
    assert_eq!(terminal_count(&events), 1);
    assert!(matches!(
        events.last().map(|event| &event.kind),
        Some(BridgeEventKind::Disconnected { user_initiated: false, .. })
    ));
    let sequences: Vec<u64> = events.iter().map(|e| e.sequence).collect();
    assert_eq!(sequences, vec![1, 2, 3]);
}

#[test]
fn actor_disconnect_command_emits_one_terminal_event() {
    let mut actor = SessionActor::new("acct".to_string(), Instant::from_millis(0));
    let first = actor.start(1);
    assert!(matches!(first.kind, BridgeEventKind::Connecting));

    let mut events = Vec::new();
    match actor.on_command(Command::Disconnect) {
        CommandStep::End(reason) => events.push(actor.finish(reason)),
        other => panic!("unexpected step: {other:?}"),
    }

    assert_eq!(terminal_count(&events), 1);
    assert!(matches!(
        events.last().map(|event| &event.kind),
        Some(BridgeEventKind::Disconnected { user_initiated: true, .. })
    ));
}

#[test]
fn emitter_stamps_never_go_back() {
    let mut emitter = Emitter::new();
    assert_eq!(emitter.emit_at(BridgeEventKind::Connecting, 500).timestamp_ms, 500);
    assert_eq!(emitter.emit_at(BridgeEventKind::Connecting, 200).timestamp_ms, 500);
    assert_eq!(emitter.emit_at(BridgeEventKind::Connecting, 900).timestamp_ms, 900);
    assert_eq!(emitter.last_timestamp_ms, 900);
}

use gromnie_client::bridge::{check_chat_message, check_connect_phase, check_running_phase, SessionPhase};

#[test]
fn chat_messages_must_be_text_short_and_not_blank() {
    assert_eq!(check_chat_message(Some("hello"), 5), Ok(()));
    assert_eq!(check_chat_message(None, 3), Err(ResultCode::InvalidArgument));
    assert_eq!(check_chat_message(Some(" \t\n"), 3), Err(ResultCode::InvalidArgument));
    assert_eq!(check_chat_message(Some(""), 0), Err(ResultCode::InvalidArgument));
    let long = "a".repeat(513);
    assert_eq!(check_chat_message(Some(&long), 513), Err(ResultCode::InvalidArgument));
    let max = "a".repeat(512);
    assert_eq!(check_chat_message(Some(&max), 512), Ok(()));
}

#[test]
fn session_phases_decide_which_calls_are_allowed() {
    assert_eq!(check_connect_phase(SessionPhase::Idle), Ok(()));
    assert_eq!(check_connect_phase(SessionPhase::Closed), Ok(()));
    assert_eq!(check_connect_phase(SessionPhase::Running), Err(ResultCode::InvalidState));
    assert_eq!(check_running_phase(SessionPhase::Running), Ok(()));
    assert_eq!(check_running_phase(SessionPhase::Idle), Err(ResultCode::InvalidState));
    assert_eq!(check_running_phase(SessionPhase::Closed), Err(ResultCode::InvalidState));
}

#[test]
fn forwarding_records_character_names_for_selection() {
    let mut actor = SessionActor::new("acct".to_string(), Instant::from_millis(0));
    let (fwd, _) = actor.on_client_event(ClientEvent::Game(SimpleGameEvent::CharacterListReceived {
        account: "acct".to_string(),
        characters: vec![character(7, "Zed")],
        num_slots: 3,
    }));
    assert!(matches!(fwd.unwrap().kind, BridgeEventKind::Characters { slots: 3, .. }));
    assert_eq!(actor.character_names.get(&7).map(String::as_str), Some("Zed"));
}

use gromnie_client::bridge::DelayedEvents;

#[test]
fn delayed_events_come_due_after_the_ui_delay_in_order() {
    let mut d = DelayedEvents::new();
    let a = ClientEvent::State(ClientStateEvent::Connected);
    let b = ClientEvent::State(ClientStateEvent::InWorld);
    d.schedule(Instant::from_millis(1_000), vec![a.clone(), b.clone()]);
    assert!(d.take_due(Instant::from_millis(1_999)).is_empty());
    assert_eq!(d.queue.len(), 2);
    assert_eq!(d.take_due(Instant::from_millis(2_000)), vec![a.clone(), b.clone()]);
    assert!(d.queue.is_empty());
    d.schedule(Instant::from_millis(5_000), vec![a.clone()]);
    d.schedule(Instant::from_millis(9_000), vec![b.clone()]);
    assert_eq!(d.take_due(Instant::from_millis(6_000)), vec![a.clone()]);
    assert_eq!(d.take_all(), vec![b]);
    assert!(d.queue.is_empty());
}
