use gromnie_client::client::Client;
use gromnie_client::events::{CharacterIdentity, ClientEvent, ClientStateEvent, ClientSystemEvent, SimpleClientAction, SimpleGameEvent};
use gromnie_client::fragments::RawMessage;
use gromnie_client::instant::Instant;
use gromnie_client::queue::OutgoingMessageContent;
use gromnie_client::scene::{ClientError, Scene};

fn client_with(character: Option<String>) -> Client {
    Client::new_at(1, "localhost:9000", "acct".to_string(), "pw".to_string(), character, false, Instant::from_millis(1_000))
}

fn ac_string(out: &mut Vec<u8>, s: &str) {
    out.extend_from_slice(&(s.len() as i16).to_le_bytes());
    out.extend_from_slice(s.as_bytes());
    let written = 2 + s.len();
    for _ in 0..((4 - written % 4) % 4) {
        out.push(0);
    }
}

fn message(opcode: u32, body: &[u8]) -> RawMessage {
    let mut data = opcode.to_le_bytes().to_vec();
    data.extend_from_slice(body);
    RawMessage::from_data(data, 1, 1).unwrap()
}

fn character_set_body() -> Vec<u8> {
    let mut b = Vec::new();
    b.extend_from_slice(&0u32.to_le_bytes());
    b.extend_from_slice(&2u32.to_le_bytes());
    b.extend_from_slice(&1u32.to_le_bytes());
    ac_string(&mut b, "Alice");
    b.extend_from_slice(&0u32.to_le_bytes());
    b.extend_from_slice(&2u32.to_le_bytes());
    ac_string(&mut b, "Bob");
    b.extend_from_slice(&3600u32.to_le_bytes());
    b.extend_from_slice(&0u32.to_le_bytes());
    b.extend_from_slice(&5u32.to_le_bytes());
    ac_string(&mut b, "acct");
    b.extend_from_slice(&0u32.to_le_bytes());
    b.extend_from_slice(&1u32.to_le_bytes());
    b
}

fn handle(c: &mut Client, m: &RawMessage) {
    c.handle_message(m, Instant::from_millis(50_000), 10_000);
}

#[test]
fn character_list_shows_character_select_and_picks_auto_login() {
    let mut c = client_with(Some("ALICE".to_string()));
    c.reconnect_attempt_count = 3;
    handle(&mut c, &message(0xF658, &character_set_body()));
    match &c.scene {
        Scene::CharacterSelect(s) => {
            assert_eq!(s.account_name, "acct");
            assert_eq!(s.characters.len(), 2);
            assert_eq!(s.characters[0].name, "Alice");
            assert!(!s.characters[0].delete_pending);
            assert!(s.characters[1].delete_pending);
        }
        _ => panic!("expected the character select screen"),
    }
    assert_eq!(c.known_characters.len(), 2);
    assert_eq!(c.reconnect_attempt_count, 0);
    assert!(c.ddd_response.is_none());
    assert_eq!(
        c.pending_auto_login,
        Some(SimpleClientAction::LoginCharacter {
            character_id: 1,
            character_name: "Alice".to_string(),
            account: "acct".to_string(),
        })
    );
    assert_eq!(
        c.take_events(),
        vec![
            ClientEvent::State(ClientStateEvent::CharacterSelect),
            ClientEvent::Game(SimpleGameEvent::UpdatingSetProgress { percent: 100 }),
        ]
    );
    let delayed = c.take_delayed_events();
    assert_eq!(delayed.len(), 1);
    match &delayed[0] {
        ClientEvent::Game(SimpleGameEvent::CharacterListReceived { account, characters, num_slots }) => {
            assert_eq!(account, "acct");
            assert_eq!(*num_slots, 5);
            assert_eq!(
                characters[1],
                CharacterIdentity { character_id: 2, name: "Bob".to_string(), seconds_greyed_out: 3600 }
            );
        }
        other => panic!("unexpected event: {other:?}"),
    }
}

#[test]
fn auto_login_skips_characters_pending_deletion() {
    let mut c = client_with(Some("bob".to_string()));
    handle(&mut c, &message(0xF658, &character_set_body()));
    assert!(c.pending_auto_login.is_none());
}

#[test]
fn pending_auto_login_starts_the_login() {
    let mut c = client_with(Some("alice".to_string()));
    handle(&mut c, &message(0xF658, &character_set_body()));
    c.process_actions(vec![]);
    assert!(c.pending_auto_login.is_none());
    assert!(matches!(c.outgoing_message_queue.back().unwrap().content, OutgoingMessageContent::EnterWorldRequest));
    match &c.scene {
        Scene::CharacterSelect(s) => assert_eq!(s.entering_world.as_ref().unwrap().character_id, 1),
        _ => panic!("expected the character select screen"),
    }
}

#[test]
fn create_player_completes_the_login() {
    let mut c = client_with(None);
    handle(&mut c, &message(0xF658, &character_set_body()));
    c.attempt_character_login(1, "Alice".to_string(), "acct".to_string()).unwrap();
    c.take_events();
    handle(&mut c, &message(0xF746, &1u32.to_le_bytes()));
    match &c.scene {
        Scene::InWorld(w) => {
            assert_eq!(w.character_id, 1);
            assert_eq!(w.character_name, "Alice");
        }
        _ => panic!("expected the world"),
    }
    match &c.outgoing_message_queue.back().unwrap().content {
        OutgoingMessageContent::GameAction(b) => {
            assert_eq!(&b[0..4], &0xF7B1u32.to_le_bytes());
            assert_eq!(&b[4..8], &0u32.to_le_bytes());
            assert_eq!(&b[8..12], &0xA1u32.to_le_bytes());
        }
        _ => panic!("expected the LoginComplete notification"),
    }
    assert_eq!(c.next_game_action_sequence, 1);
    assert_eq!(
        c.take_events(),
        vec![
            ClientEvent::Game(SimpleGameEvent::LoginSucceeded { character_id: 1, character_name: "Alice".to_string() }),
            ClientEvent::Game(SimpleGameEvent::CreatePlayer { character_id: 1 }),
        ]
    );
    // a second CreatePlayer sends nothing more
    let queued = c.outgoing_message_queue.len();
    handle(&mut c, &message(0xF746, &1u32.to_le_bytes()));
    assert_eq!(c.outgoing_message_queue.len(), queued);
    assert_eq!(c.take_events(), vec![ClientEvent::Game(SimpleGameEvent::CreatePlayer { character_id: 1 })]);
}

#[test]
fn character_errors() {
    let mut c = client_with(None);
    handle(&mut c, &message(0xF659, &1u32.to_le_bytes()));
    match &c.scene {
        Scene::Error(e) => {
            assert!(matches!(e.error, ClientError::CharacterError(1)));
            assert!(e.can_retry);
        }
        _ => panic!("expected the error screen"),
    }
    assert_eq!(
        c.take_events(),
        vec![
            ClientEvent::State(ClientStateEvent::CharacterError),
            ClientEvent::Game(SimpleGameEvent::CharacterError { error_code: 1, error_message: "Logon".to_string() }),
        ]
    );
    let mut d = client_with(None);
    handle(&mut d, &message(0xF659, &4u32.to_le_bytes()));
    assert_eq!(d.reconnect_attempt_count, 1);
    assert_eq!(d.reconnect_at, Some(Instant::from_millis(60_000)));
    assert_eq!(
        d.take_events(),
        vec![
            ClientEvent::System(ClientSystemEvent::Disconnected { will_reconnect: false, reconnect_attempt: 1, delay_secs: 10 }),
            ClientEvent::Game(SimpleGameEvent::CharacterError { error_code: 4, error_message: "ServerCrash".to_string() }),
        ]
    );
}

#[test]
fn unknown_character_error_codes_are_ignored() {
    let mut c = client_with(None);
    handle(&mut c, &message(0xF659, &0x7777u32.to_le_bytes()));
    assert!(c.take_events().is_empty());
    assert!(c.scene.as_connecting().is_some());
}

#[test]
fn hearing_speech() {
    let mut b = Vec::new();
    ac_string(&mut b, "hello");
    ac_string(&mut b, "Bob");
    b.extend_from_slice(&9u32.to_le_bytes());
    b.extend_from_slice(&2u32.to_le_bytes());
    let mut ranged = Vec::new();
    ac_string(&mut ranged, "hello");
    ac_string(&mut ranged, "Bob");
    ranged.extend_from_slice(&9u32.to_le_bytes());
    ranged.extend_from_slice(&10.0f32.to_le_bytes());
    ranged.extend_from_slice(&2u32.to_le_bytes());
    let mut c = client_with(None);
    handle(&mut c, &message(0x2BB, &b));
    handle(&mut c, &message(0x2BC, &ranged));
    let expected = ClientEvent::Game(SimpleGameEvent::ChatMessageReceived {
        message: "Bob says, \"hello\"".to_string(),
        message_type: 2,
    });
    assert_eq!(c.take_events(), vec![expected.clone(), expected]);
}

#[test]
fn ddd_interrogation_is_answered() {
    let mut b = Vec::new();
    b.extend_from_slice(&1u32.to_le_bytes());
    b.extend_from_slice(&1u32.to_le_bytes());
    b.extend_from_slice(&1u32.to_le_bytes());
    b.extend_from_slice(&0u32.to_le_bytes());
    let mut c = client_with(None);
    handle(&mut c, &message(0xF7E5, &b));
    assert_eq!(c.outgoing_message_queue.len(), 1);
    assert_eq!(c.outgoing_message_queue[0].deadline, Some(Instant::from_millis(51_000)));
    assert!(c.retry_ddd_response().is_ok());
    assert_eq!(c.outgoing_message_queue.len(), 2);
    assert!(c.outgoing_message_queue[1].deadline.is_none());
}

#[test]
fn retrying_without_a_ddd_response_fails() {
    let mut c = client_with(None);
    assert!(c.retry_ddd_response().is_err());
    assert!(c.outgoing_message_queue.is_empty());
}

#[test]
fn character_creation_verified_reports_the_known_list() {
    let mut c = client_with(None);
    handle(&mut c, &message(0xF658, &character_set_body()));
    c.take_delayed_events();
    let mut b = Vec::new();
    b.extend_from_slice(&1u32.to_le_bytes());
    b.extend_from_slice(&3u32.to_le_bytes());
    ac_string(&mut b, "Carol");
    b.extend_from_slice(&0u32.to_le_bytes());
    handle(&mut c, &message(0xF643, &b));
    let delayed = c.take_delayed_events();
    assert_eq!(delayed.len(), 1);
    match &delayed[0] {
        ClientEvent::Game(SimpleGameEvent::CharacterListReceived { account, characters, num_slots }) => {
            assert_eq!(account, "");
            assert_eq!(characters.len(), 2);
            assert_eq!(*num_slots, 0);
        }
        other => panic!("unexpected event: {other:?}"),
    }
}

#[test]
fn transient_string_game_event_is_read_from_the_event_opcode_on() {
    // The event is read from the ninth byte of the message on, where the
    // event opcode sits: its low half is taken as the string length.
    let mut body = Vec::new();
    body.extend_from_slice(&0x5000_0001u32.to_le_bytes());
    body.extend_from_slice(&0x2EBu32.to_le_bytes());
    body.extend(std::iter::repeat(b'A').take(745));
    body.extend_from_slice(&[0, 0, 0]);
    let mut c = client_with(None);
    handle(&mut c, &message(0xF7B0, &body));
    let mut expected = String::from("\u{0}\u{0}");
    expected.push_str(&"A".repeat(745));
    assert_eq!(
        c.take_events(),
        vec![ClientEvent::Game(SimpleGameEvent::ChatMessageReceived { message: expected, message_type: 5 })]
    );
}

#[test]
fn short_game_events_are_ignored() {
    let mut c = client_with(None);
    handle(&mut c, &message(0xF7B0, &[0u8; 4]));
    assert!(c.take_events().is_empty());
}

#[test]
fn chat_actions_queue_game_messages() {
    let mut c = client_with(None);
    c.send_chat_say("hi".to_string());
    c.send_chat_tell("Bob".to_string(), "yo".to_string());
    assert_eq!(c.next_game_action_sequence, 2);
    match &c.outgoing_message_queue[0].content {
        OutgoingMessageContent::GameAction(b) => {
            assert_eq!(&b[0..4], &0xF7B1u32.to_le_bytes());
            assert_eq!(&b[4..8], &0u32.to_le_bytes());
            assert_eq!(&b[8..12], &0x15u32.to_le_bytes());
            assert_eq!(&b[12..], &[2, 0, b'h', b'i']);
        }
        _ => panic!("expected a game action"),
    }
    match &c.outgoing_message_queue[1].content {
        OutgoingMessageContent::GameAction(b) => {
            assert_eq!(&b[4..8], &1u32.to_le_bytes());
            assert_eq!(&b[8..12], &0x5Du32.to_le_bytes());
        }
        _ => panic!("expected a game action"),
    }
}

#[test]
fn unknown_opcodes_change_nothing() {
    let mut c = client_with(None);
    handle(&mut c, &message(0x1234_5678, &[1, 2, 3, 4]));
    assert!(c.take_events().is_empty());
    assert!(c.outgoing_message_queue.is_empty());
}

#[test]
fn test_character_delete_pending_mapping() {
    let mut b = Vec::new();
    b.extend_from_slice(&0u32.to_le_bytes());
    b.extend_from_slice(&2u32.to_le_bytes());
    b.extend_from_slice(&1u32.to_le_bytes());
    ac_string(&mut b, "ActiveChar");
    b.extend_from_slice(&0u32.to_le_bytes());
    b.extend_from_slice(&2u32.to_le_bytes());
    ac_string(&mut b, "DeletedChar");
    b.extend_from_slice(&86400u32.to_le_bytes());
    b.extend_from_slice(&0u32.to_le_bytes());
    b.extend_from_slice(&5u32.to_le_bytes());
    ac_string(&mut b, "TestAccount");
    b.extend_from_slice(&0u32.to_le_bytes());
    b.extend_from_slice(&0u32.to_le_bytes());

    let mut c = client_with(None);
    handle(&mut c, &message(0xF658, &b));
    let delayed = c.take_delayed_events();
    assert_eq!(delayed.len(), 1);
    match &delayed[0] {
        ClientEvent::Game(SimpleGameEvent::CharacterListReceived { account, characters, num_slots }) => {
            assert_eq!(account, "TestAccount");
            assert_eq!(*num_slots, 5);
            assert_eq!(characters.len(), 2);
            assert_eq!(characters[0].character_id, 0x1);
            assert_eq!(characters[0].name, "ActiveChar");
            assert_eq!(characters[0].seconds_greyed_out, 0);
            assert_eq!(characters[1].character_id, 0x2);
            assert_eq!(characters[1].name, "DeletedChar");
            assert_eq!(characters[1].seconds_greyed_out, 86400);
        }
        _ => panic!("Expected LoginCharacterSet variant"),
    }
    match &c.scene {
        Scene::CharacterSelect(s) => {
            assert!(!s.characters[0].delete_pending);
            assert!(s.characters[1].delete_pending);
        }
        _ => panic!("expected the character select screen"),
    }
}

#[test]
fn test_login_create_player_conversion() {
    let mut c = client_with(None);
    handle(&mut c, &message(0xF746, &0x12345678u32.to_le_bytes()));
    let events = c.take_events();
    assert!(
        events.contains(&ClientEvent::Game(SimpleGameEvent::CreatePlayer { character_id: 0x12345678 })),
        "Expected LoginCreatePlayer variant"
    );
}

#[test]
fn test_character_error_conversion() {
    // LogonServerFull
    let mut c = client_with(None);
    handle(&mut c, &message(0xF659, &0x15u32.to_le_bytes()));
    let found = c.take_events().into_iter().find_map(|e| match e {
        ClientEvent::Game(SimpleGameEvent::CharacterError { error_code, error_message }) => Some((error_code, error_message)),
        _ => None,
    });
    match found {
        Some((error_code, error_message)) => {
            assert_eq!(error_code, 0x15);
            assert!(!error_message.is_empty());
        }
        None => panic!("Expected CharacterError variant"),
    }
}

#[test]
fn speech_is_read_when_its_other_fields_hold_bytes_like_a_long_string_length() {
    // The sender id 0xFFFFFFFF followed by the range -1.0 holds the bytes
    // FF FF .. .. 80 outside any string; the speech is still read.
    let mut ranged = Vec::new();
    ac_string(&mut ranged, "hi");
    ac_string(&mut ranged, "Bo");
    ranged.extend_from_slice(&0xFFFF_FFFFu32.to_le_bytes());
    ranged.extend_from_slice(&(-1.0f32).to_le_bytes());
    ranged.extend_from_slice(&2u32.to_le_bytes());
    let mut c = client_with(None);
    handle(&mut c, &message(0x2BC, &ranged));
    assert_eq!(
        c.take_events(),
        vec![ClientEvent::Game(SimpleGameEvent::ChatMessageReceived { message: "Bo says, \"hi\"".to_string(), message_type: 2 })]
    );
}
