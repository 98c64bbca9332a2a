use gromnie_client::client::Client;
use gromnie_client::events::{ClientEvent, ClientStateEvent, ClientSystemEvent, SimpleGameEvent};
use gromnie_client::exchange::{login_request_bytes, login_request_length, outgoing_message_data, PacketOutcome};
use gromnie_client::fragments::RawMessage;
use gromnie_client::instant::Instant;
use gromnie_client::packet::{packet_bytes, C2sPacket, FLAG_ACK_SEQUENCE, FLAG_BLOB_FRAGMENTS, FLAG_CONNECT_RESPONSE, FLAG_TIME_SYNC};
use gromnie_client::protocol::BlobFragment;
use gromnie_client::queue::OutgoingMessageContent;
use gromnie_client::scene::{ClientError, ConnectingProgress, Scene};
use gromnie_client::session::SessionState;

fn client() -> Client {
    Client::new_at(1, "localhost:9000", "Acct".to_string(), "pw".to_string(), None, true, Instant::from_millis(1_000))
}

fn header(sequence: u32, flags: u32, iteration: u16) -> Vec<u8> {
    let mut b = Vec::new();
    b.extend_from_slice(&sequence.to_le_bytes());
    b.extend_from_slice(&flags.to_le_bytes());
    b.extend_from_slice(&0u32.to_le_bytes());
    b.extend_from_slice(&7u16.to_le_bytes());
    b.extend_from_slice(&0u16.to_le_bytes());
    b.extend_from_slice(&0u16.to_le_bytes());
    b.extend_from_slice(&iteration.to_le_bytes());
    b
}

fn connect_request_packet() -> Vec<u8> {
    let mut b = header(1, 0x40000, 3);
    b.extend_from_slice(&1.5f64.to_le_bytes());
    b.extend_from_slice(&0x1122_3344_5566_7788u64.to_le_bytes());
    b.extend_from_slice(&42i32.to_le_bytes());
    b.extend_from_slice(&0xAAAAu32.to_le_bytes());
    b.extend_from_slice(&0xBBBBu32.to_le_bytes());
    b.extend_from_slice(&0u32.to_le_bytes());
    b
}

fn textbox_message(text: &str, message_type: u32) -> Vec<u8> {
    let mut m = Vec::new();
    m.extend_from_slice(&0xF7E0u32.to_le_bytes());
    m.extend_from_slice(&(text.len() as i16).to_le_bytes());
    m.extend_from_slice(text.as_bytes());
    while m.len() % 4 != 0 {
        m.push(0);
    }
    m.extend_from_slice(&message_type.to_le_bytes());
    m
}

#[test]
fn a_new_client_starts_connecting() {
    let c = client();
    assert_eq!(c.server.host, "localhost");
    assert_eq!(c.server.login_port, 9000);
    assert_eq!(c.server.world_port, 9001);
    assert_eq!(c.session.state, SessionState::AuthLoginRequest);
    assert!(c.scene.as_connecting().is_some());
    assert_eq!(c.fragment_sequence, 1);
    assert!(c.reconnect_config.enabled);
}

#[test]
fn login_request_then_connect_handshake() {
    let mut c = client();
    assert_eq!(c.login_account(), "acct");
    c.on_login_request_sent();
    assert_eq!(c.send_count, 1);
    assert_eq!(c.scene.as_connecting().unwrap().connect_progress, ConnectingProgress::LoginRequestSent);

    let packet = connect_request_packet();
    let outcome = c.receive_packet(&packet);
    assert_eq!(outcome, Some(PacketOutcome::ConnectResponseDue));
    assert_eq!(c.recv_count, 1);
    assert_eq!(c.session.state, SessionState::AuthConnectResponse);
    let conn = c.session.connection.as_ref().unwrap();
    assert_eq!(conn.cookie, 0x1122_3344_5566_7788);
    assert_eq!(conn.client_id, 42);
    assert_eq!(conn.table, 3);
    assert_eq!(c.scene.as_connecting().unwrap().connect_progress, ConnectingProgress::ConnectRequestReceived);

    let response = c.connect_response_packet_at(Instant::from_millis(2_000), 10_000).unwrap();
    assert_eq!(response.flags & FLAG_CONNECT_RESPONSE, FLAG_CONNECT_RESPONSE);
    assert_eq!(response.connect_response, Some(0x1122_3344_5566_7788));
    assert_eq!(response.recipient_id, 42);
    assert_eq!(response.iteration, 3);
    assert_eq!(response.sequence, 0);
    // the server's packet 1 is acknowledged on the way out
    assert_eq!(response.ack_sequence, Some(1));
    assert_eq!(c.last_ack_sent, 1);
    assert_eq!(c.packet_port(&response), 9001);

    c.on_connect_response_sent_at(Instant::from_millis(3_000));
    let events = c.take_events();
    assert!(events.contains(&ClientEvent::System(ClientSystemEvent::AuthenticationSucceeded)));
    assert!(events.contains(&ClientEvent::Game(SimpleGameEvent::ConnectingSetProgress { percent: 33 })));
    assert!(events.contains(&ClientEvent::Game(SimpleGameEvent::ConnectingSetProgress { percent: 66 })));
    assert!(events.contains(&ClientEvent::Game(SimpleGameEvent::ConnectingSetProgress { percent: 100 })));
    assert_eq!(events.last(), Some(&ClientEvent::State(ClientStateEvent::Connected)));
    let scene = c.scene.as_connecting().unwrap();
    assert_eq!(scene.connect_progress, ConnectingProgress::Initial);
    assert_eq!(scene.started_at, Instant::from_millis(3_000));
}

#[test]
fn malformed_connect_request_is_refused() {
    let mut c = client();
    let mut packet = header(1, 0x40000, 3);
    packet.extend_from_slice(&[0u8; 4]);
    assert_eq!(c.receive_packet(&packet), None);
    assert!(c.session.connection.is_none());
    assert_eq!(c.receive_packet(&[0u8; 10]), None);
}

#[test]
fn any_packet_resets_the_unanswered_count() {
    let mut c = client();
    c.unacked_send_count = 5;
    let packet = header(0, 0, 0);
    assert_eq!(c.receive_packet(&packet), Some(PacketOutcome::Handled));
    assert_eq!(c.unacked_send_count, 0);
    assert_eq!(c.recv_count, 0);
    let newer = header(9, 0, 0);
    c.receive_packet(&newer);
    assert_eq!(c.recv_count, 9);
    let older = header(4, 0, 0);
    c.receive_packet(&older);
    assert_eq!(c.recv_count, 9);
}

fn empty_packet(flags: u32) -> C2sPacket {
    C2sPacket {
        sequence: 0,
        flags,
        checksum: 0,
        recipient_id: 0,
        time_since_last_packet: 0,
        size: 0,
        iteration: 0,
        ack_sequence: None,
        connect_response: None,
        time: None,
        fragments: None,
    }
}

#[test]
fn sends_are_numbered_and_acknowledge_once() {
    let mut c = client();
    c.recv_count = 4;
    let now = Instant::from_millis(5_000);
    let first = c.prepare_send_at(empty_packet(FLAG_TIME_SYNC), true, true, now, 10_000).unwrap();
    assert_eq!(first.sequence, 1);
    assert_eq!(first.ack_sequence, Some(4));
    assert_eq!(first.flags, FLAG_TIME_SYNC | FLAG_ACK_SEQUENCE);
    let second = c.prepare_send_at(empty_packet(FLAG_TIME_SYNC), true, true, now, 10_000).unwrap();
    assert_eq!(second.sequence, 2);
    assert_eq!(second.ack_sequence, None);
    let unsequenced = c.prepare_send_at(empty_packet(FLAG_TIME_SYNC), false, false, now, 10_000).unwrap();
    assert_eq!(unsequenced.sequence, 0);
    assert_eq!(c.send_count, 2);
    assert_eq!(c.unacked_send_count, 3);
}

#[test]
fn twenty_unanswered_sends_drop_the_connection() {
    let mut c = client();
    let now = Instant::from_millis(5_000);
    for _ in 0..19 {
        assert!(c.prepare_send_at(empty_packet(FLAG_TIME_SYNC), false, false, now, 10_000).is_ok());
    }
    assert!(c.prepare_send_at(empty_packet(FLAG_TIME_SYNC), false, false, now, 10_000).is_err());
    assert_eq!(c.reconnect_attempt_count, 1);
    assert_eq!(c.reconnect_at, Some(Instant::from_millis(15_000)));
    assert_eq!(c.unacked_send_count, 0);
    let events = c.take_events();
    assert_eq!(
        events.last(),
        Some(&ClientEvent::System(ClientSystemEvent::Disconnected {
            will_reconnect: true,
            reconnect_attempt: 1,
            delay_secs: 10,
        }))
    );
}

#[test]
fn keepalive_needs_a_connection() {
    let mut c = client();
    let now = Instant::from_millis(90_000);
    assert!(c.keepalive_packet_at(now, 10_000).is_none());
    c.receive_packet(&connect_request_packet());
    let p = c.keepalive_packet_at(now, 10_000).unwrap().unwrap();
    assert_eq!(p.flags & FLAG_TIME_SYNC, FLAG_TIME_SYNC);
    assert_eq!(p.time, Some(90));
    assert_eq!(p.recipient_id, 42);
    assert_eq!(p.iteration, 3);
    assert_eq!(c.packet_port(&p), 9000);
}

#[test]
fn game_messages_go_out_in_one_fragment() {
    let mut c = client();
    c.receive_packet(&connect_request_packet());
    let p = c.outgoing_packet(&OutgoingMessageContent::EnterWorldRequest);
    assert_eq!(p.sequence, 1);
    assert_eq!(p.flags & FLAG_BLOB_FRAGMENTS, FLAG_BLOB_FRAGMENTS);
    assert_eq!(p.ack_sequence, Some(1));
    let f = p.fragments.unwrap();
    assert_eq!(f.sequence, 1);
    assert_eq!(f.id, 0x8000_0000);
    assert_eq!(f.count, 1);
    assert_eq!(f.index, 0);
    assert_eq!(f.group, 0xA);
    assert_eq!(f.data, vec![0xC8, 0xF7, 0x00, 0x00]);
    assert_eq!(f.size, 20);
    assert_eq!(c.fragment_sequence, 2);
    let again = c.fragment_packet(vec![0u8; 70_000], 0xA);
    assert_eq!(again.fragments.unwrap().size, ((16 + 70_000) % 65_536) as u16);
    assert_eq!(again.ack_sequence, None);
}

#[test]
fn outgoing_message_bytes() {
    assert_eq!(outgoing_message_data(&OutgoingMessageContent::GameAction(vec![1, 2, 3])), vec![1, 2, 3]);
    assert_eq!(outgoing_message_data(&OutgoingMessageContent::EnterWorldRequest), vec![0xC8, 0xF7, 0, 0]);
}

#[test]
fn login_request_length_counts_strings_with_padding() {
    // account "acct": 2 + 4 = 6, padded to 8; password "pw": 1 + 2 = 3, padded to 4, plus 4
    assert_eq!(login_request_length(4, 2), 12 + 8 + 4 + 8);
    // a password over 255 bytes takes a two-byte packed length
    assert_eq!(login_request_length(0, 256), 12 + 4 + 4 + (4 + 260));
}

#[test]
fn chat_textbox_message_becomes_a_chat_event() {
    let mut c = client();
    let m = RawMessage::from_data(textbox_message("hello", 1), 1, 2).unwrap();
    assert_eq!(m.opcode(), 0xF7E0);
    c.handle_message(&m, Instant::from_millis(1_000), 10_000);
    let events = c.take_events();
    assert_eq!(
        events,
        vec![ClientEvent::Game(SimpleGameEvent::ChatMessageReceived { message: "hello".to_string(), message_type: 1 })]
    );
}

#[test]
fn short_data_is_no_message() {
    assert!(RawMessage::from_data(vec![1, 2, 3], 1, 2).is_none());
}

#[test]
fn a_fragment_is_reassembled_and_handled() {
    let mut c = client();
    let body = textbox_message("hi there", 3);
    let mut packet = header(2, FLAG_BLOB_FRAGMENTS, 0);
    packet.extend_from_slice(&0x5151u32.to_le_bytes());
    packet.extend_from_slice(&0x8000_0001u32.to_le_bytes());
    packet.extend_from_slice(&1u16.to_le_bytes());
    packet.extend_from_slice(&((16 + body.len()) as u16).to_le_bytes());
    packet.extend_from_slice(&0u16.to_le_bytes());
    packet.extend_from_slice(&0xAu16.to_le_bytes());
    packet.extend_from_slice(&body);
    assert_eq!(c.receive_packet(&packet), Some(PacketOutcome::Handled));
    assert_eq!(c.message_queue.len(), 1);
    assert_eq!(c.message_queue[0].sequence(), 0x5151);
    assert_eq!(c.message_queue[0].id(), 0x8000_0001);
    c.process_messages_at(Instant::from_millis(2_000), 10_000);
    assert!(c.message_queue.is_empty());
    let events = c.take_events();
    assert_eq!(
        events,
        vec![ClientEvent::Game(SimpleGameEvent::ChatMessageReceived { message: "hi there".to_string(), message_type: 3 })]
    );
}

#[test]
fn server_ready_queues_enter_world_for_the_entering_character() {
    let mut c = client();
    c.transition_to_char_select(&vec![]);
    c.begin_entering_world(77, "Hero".to_string());
    c.handle_enter_game_server_ready();
    let last = c.outgoing_message_queue.back().unwrap();
    match &last.content {
        OutgoingMessageContent::EnterWorld(e) => {
            assert_eq!(e.character_id, 77);
            assert_eq!(e.account, "Acct");
        }
        _ => panic!("expected EnterWorld"),
    }
    assert!(last.deadline.is_none());
}

#[test]
fn ddd_interrogation_answer_waits_for_the_ui_delay() {
    let mut c = client();
    c.handle_ddd_interrogation(Instant::from_millis(10_000));
    let q = &c.outgoing_message_queue;
    assert_eq!(q.len(), 1);
    assert_eq!(q[0].deadline, Some(Instant::from_millis(11_000)));
    match &q[0].content {
        OutgoingMessageContent::GameAction(b) => assert_eq!(b, &vec![0xE6, 0xF7, 0, 0, 1, 0, 0, 0, 0, 0, 0, 0]),
        _ => panic!("expected the DDD response"),
    }
    assert!(c.get_ddd_response().is_some());
    assert!(c.events.contains(&ClientEvent::Game(SimpleGameEvent::UpdatingSetProgress { percent: 33 })));
}

#[test]
fn server_crash_drops_the_connection_other_errors_show_the_error_screen() {
    let mut c = client();
    c.handle_character_error(4, "ServerCrash".to_string(), Instant::from_millis(1_000), 10_000);
    assert_eq!(c.reconnect_attempt_count, 1);
    assert!(c.session.connection.is_none());
    let mut d = client();
    d.handle_character_error(7, "Other".to_string(), Instant::from_millis(1_000), 10_000);
    assert!(matches!(d.scene, Scene::Error(_)));
    assert!(d.scene.can_retry());
    assert_eq!(
        d.events.last(),
        Some(&ClientEvent::Game(SimpleGameEvent::CharacterError { error_code: 7, error_message: "Other".to_string() }))
    );
}

#[test]
fn a_fragment_announcing_less_than_its_header_is_refused() {
    let mut c = client();
    let mut packet = header(2, FLAG_BLOB_FRAGMENTS | FLAG_ACK_SEQUENCE, 0);
    packet.extend_from_slice(&9u32.to_le_bytes());
    packet.extend_from_slice(&0x5151u32.to_le_bytes());
    packet.extend_from_slice(&0x8000_0001u32.to_le_bytes());
    packet.extend_from_slice(&1u16.to_le_bytes());
    packet.extend_from_slice(&10u16.to_le_bytes());
    packet.extend_from_slice(&0u16.to_le_bytes());
    packet.extend_from_slice(&0xAu16.to_le_bytes());
    packet.extend_from_slice(&[0u8; 8]);
    assert_eq!(c.receive_packet(&packet), None);
    assert_eq!(c.recv_count, 0);
    assert!(c.message_queue.is_empty());
}

#[test]
fn a_string_announcing_a_negative_length_is_not_read() {
    let mut m = Vec::new();
    m.extend_from_slice(&0xF7E0u32.to_le_bytes());
    m.extend_from_slice(&[0xFF, 0xFF, 0x00, 0x00, 0x00, 0x80]);
    m.extend_from_slice(&[0u8; 6]);
    let bad = RawMessage::from_data(m, 1, 1).unwrap();
    let mut d = client();
    d.handle_message(&bad, Instant::from_millis(2_000), 10_000);
    assert!(d.take_events().is_empty());
    let mut fine = Vec::new();
    fine.extend_from_slice(&0xF7E0u32.to_le_bytes());
    fine.extend_from_slice(&[0xFF, 0xFF, 0x02, 0x00, 0x00, 0x00, b'h', b'i']);
    fine.extend_from_slice(&3u32.to_le_bytes());
    let raw = RawMessage::from_data(fine, 1, 1).unwrap();
    let mut c = client();
    c.handle_message(&raw, Instant::from_millis(2_000), 10_000);
    assert_eq!(
        c.take_events(),
        vec![ClientEvent::Game(SimpleGameEvent::ChatMessageReceived { message: "hi".to_string(), message_type: 3 })]
    );
}

#[test]
fn the_login_request_carries_version_credentials_and_timestamp() {
    let b = login_request_bytes("acct", "pw", 1000);
    let mut expected = Vec::new();
    expected.extend_from_slice(&0u32.to_le_bytes());
    expected.extend_from_slice(&0x10000u32.to_le_bytes());
    expected.extend_from_slice(&0xbadd70ddu32.to_le_bytes());
    expected.extend_from_slice(&0u16.to_le_bytes());
    expected.extend_from_slice(&0u16.to_le_bytes());
    expected.extend_from_slice(&44u16.to_le_bytes());
    expected.extend_from_slice(&0u16.to_le_bytes());
    expected.extend_from_slice(&[4, 0, b'1', b'8', b'0', b'2', 0, 0]);
    expected.extend_from_slice(&32u32.to_le_bytes());
    expected.extend_from_slice(&2u32.to_le_bytes());
    expected.extend_from_slice(&0u32.to_le_bytes());
    expected.extend_from_slice(&1000i32.to_le_bytes());
    expected.extend_from_slice(&[4, 0, b'a', b'c', b'c', b't', 0, 0]);
    expected.extend_from_slice(&0u32.to_le_bytes());
    expected.extend_from_slice(&[3, 0, 0, 0, 2, b'p', b'w', 0]);
    assert_eq!(b, expected);
}

#[test]
fn packets_are_encoded_with_their_optional_parts_and_fragment() {
    let mut p = empty_packet(FLAG_ACK_SEQUENCE | FLAG_BLOB_FRAGMENTS);
    p.sequence = 7;
    p.ack_sequence = Some(9);
    p.fragments = Some(BlobFragment { sequence: 1, id: 2, count: 1, size: 19, index: 0, group: 0xA, data: vec![5, 6, 7] });
    let b = packet_bytes(&p).expect("known group");
    assert_eq!(b.len(), 20 + 4 + 16 + 3);
    assert_eq!(&b[0..4], &7u32.to_le_bytes());
    assert_eq!(&b[8..12], &0xbadd70ddu32.to_le_bytes());
    assert_eq!(&b[16..18], &23u16.to_le_bytes());
    assert_eq!(&b[20..24], &9u32.to_le_bytes());
    assert_eq!(&b[24..28], &1u32.to_le_bytes());
    assert_eq!(&b[34..36], &19u16.to_le_bytes());
    assert_eq!(&b[38..40], &0xAu16.to_le_bytes());
    assert_eq!(&b[40..43], &[5, 6, 7]);
    p.fragments = Some(BlobFragment { sequence: 1, id: 2, count: 1, size: 19, index: 0, group: 7, data: vec![] });
    assert!(packet_bytes(&p).is_none());
}

#[test]
fn reconnection_is_refused_when_off_and_nothing_else_changes() {
    let mut c = Client::new_at(1, "localhost:9000", "Acct".to_string(), "pw".to_string(), None, false, Instant::from_millis(1_000));
    c.reconnect_attempt_count = 2;
    let events_before = c.events.clone();
    assert!(!c.start_reconnection(10_000));
    match &c.scene {
        Scene::Error(e) => {
            assert!(!e.can_retry);
            assert!(matches!(&e.error, ClientError::ConnectionFailed(m) if m == "Connection lost and reconnection disabled"));
        }
        _ => panic!("expected the error screen"),
    }
    assert_eq!(c.reconnect_attempt_count, 2);
    assert_eq!(c.reconnect_at, None);
    assert_eq!(c.events, events_before);
}

#[test]
fn reconnection_waits_the_backoff_and_reports_the_attempt() {
    let mut c = client();
    c.reconnect_attempt_count = 1;
    c.reconnect_at = Some(Instant::from_millis(5));
    assert!(c.start_reconnection_at(Instant::from_millis(20_000), 4_000));
    match &c.scene {
        Scene::Connecting(s) => {
            assert_eq!(s.started_at, Instant::from_millis(20_000));
            assert_eq!(s.last_retry_at, Instant::from_millis(24_000));
        }
        _ => panic!("expected the connecting screen"),
    }
    assert_eq!(c.reconnect_at, None);
    assert_eq!(c.events.last(), Some(&ClientEvent::System(ClientSystemEvent::Reconnecting { attempt: 1, delay_secs: 4 })));
}

#[test]
fn a_disconnect_resets_the_counters_and_reports_itself() {
    let mut c = client();
    c.send_count = 9;
    c.recv_count = 4;
    c.last_ack_sent = 4;
    c.unacked_send_count = 3;
    c.fragment_sequence = 6;
    c.enter_disconnected(10_000);
    assert_eq!((c.send_count, c.recv_count, c.last_ack_sent, c.unacked_send_count, c.fragment_sequence), (0, 0, 0, 0, 1));
    assert_eq!(c.reconnect_attempt_count, 1);
    assert!(c.session.connection.is_none());
    assert!(c.scene.as_connecting().is_some());
    assert_eq!(
        c.events.last(),
        Some(&ClientEvent::System(ClientSystemEvent::Disconnected { will_reconnect: true, reconnect_attempt: 1, delay_secs: 10 }))
    );
}
