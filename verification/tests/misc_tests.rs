use gromnie_client::ace_protocol::{AceCharGenConfig, AceCharGenResult, PackableList, RawSkillAdvancementClass};
use gromnie_client::config::{AccountConfig, GromnieConfig, ScriptingConfig, ServerConfig};
use gromnie_client::connection::{parse_address, ServerInfo};
use gromnie_client::events::{
    CharacterIdentity, ClientStateEvent, EventContext, EventEnvelope, EventSource, SimpleClientAction,
    SimpleGameEvent,
};
use gromnie_client::exchange::outgoing_message_data;
use gromnie_client::fragments::PendingFragments;
use gromnie_client::instant::Instant;
use gromnie_client::keyboard::{KeyCode, KeyEventKind, KeyModifiers, KeyboardEvent};
use gromnie_client::packet::{parse_packet_header, set_size_and_placeholder, PacketHeader, FLAG_TIME_SYNC};
use gromnie_client::queue::{OutgoingMessage, OutgoingMessageContent};
use gromnie_client::scripts::AutoLoginScript;
use gromnie_client::text::{eq_ignore_ascii_case, parse_u16, u64_to_decimal};
use gromnie_client::wire::{push_string, push_u16, push_u32, push_u64};
use gromnie_client::wizard::{LaunchWizard, WizardStage};

#[test]
fn keyboard_constructors() {
    let e = KeyboardEvent::char_press('x');
    assert_eq!(e.key, KeyCode::Char('x'));
    assert_eq!(e.kind, KeyEventKind::Press);
    assert!(e.modifiers.is_empty());
    let k = KeyboardEvent::key_press(KeyCode::Enter);
    assert_eq!(k.key, KeyCode::Enter);
    assert!(KeyModifiers::ctrl().ctrl && !KeyModifiers::ctrl().is_empty());
    assert!(KeyModifiers::alt().alt && !KeyModifiers::alt().shift);
    assert!(KeyModifiers::shift().shift);
    assert!(KeyModifiers::new().is_empty());
    let n = KeyboardEvent::new(KeyCode::F(5), KeyModifiers::shift(), KeyEventKind::Release);
    assert_eq!(n.key, KeyCode::F(5));
    assert_eq!(n.kind, KeyEventKind::Release);
}

#[test]
fn event_context_metadata_overwrites_a_key() {
    let ctx = EventContext::new(3, 9)
        .with_metadata("a".to_string(), "1".to_string())
        .with_metadata("b".to_string(), "2".to_string())
        .with_metadata("a".to_string(), "3".to_string());
    assert_eq!(ctx.client_id, 3);
    assert_eq!(ctx.client_sequence, 9);
    assert_eq!(ctx.metadata.len(), 2);
    assert!(ctx.metadata.contains(&("a".to_string(), "3".to_string())));
    assert!(ctx.metadata.contains(&("b".to_string(), "2".to_string())));
}

#[test]
fn envelopes_carry_their_event() {
    let game = EventEnvelope::game_event(SimpleGameEvent::CreatePlayer { character_id: 4 }, 1, 2, EventSource::Network);
    assert_eq!(game.extract_game_event(), Some(&SimpleGameEvent::CreatePlayer { character_id: 4 }));
    assert_eq!(game.context.client_id, 1);
    assert_eq!(game.context.client_sequence, 2);
    let state = EventEnvelope::state_event(ClientStateEvent::InWorld, 1, 3, EventSource::ClientInternal);
    assert!(state.extract_game_event().is_none());
}

fn chargen_config(name: &str, skills: Vec<u32>) -> AceCharGenConfig {
    AceCharGenConfig {
        heritage: 1,
        gender: 2,
        eyes_strip: 3,
        nose_strip: 4,
        mouth_strip: 5,
        hair_color: 6,
        eye_color: 7,
        hair_style: 8,
        headgear_style: 9,
        headgear_color: 10,
        shirt_style: 11,
        shirt_color: 12,
        trousers_style: 13,
        trousers_color: 14,
        footwear_style: 15,
        footwear_color: 16,
        skin_shade: 17,
        hair_shade: 18,
        headgear_shade: 19,
        shirt_shade: 20,
        trousers_shade: 21,
        tootwear_shade: 22,
        template_num: 23,
        strength: 24,
        endurance: 25,
        coordination: 26,
        quickness: 27,
        focus: 28,
        self_: 29,
        slot: 30,
        class_id: 31,
        skills: PackableList {
            count: skills.len() as u32,
            list: skills.into_iter().map(RawSkillAdvancementClass).collect(),
        },
        name: name.to_string(),
        start_area: 32,
        is_admin: 0,
        is_envoy: 0,
        validation: 1,
    }
}

#[test]
fn character_creation_layout() {
    let result = AceCharGenResult::from_generic(chargen_config("Hero", vec![2, 3]));
    assert_eq!(result.one, 1);
    assert_eq!(result.heritage_group, 1);
    let mut out = Vec::new();
    result.write(&mut out);
    // 26 numbers of four bytes before the skills, six shades of eight, the
    // skills (a count and two entries), the name (2 + 4 bytes, padded to 8)
    // and four trailing numbers.
    assert_eq!(out.len(), 4 * 26 + 8 * 6 + 12 + 8 + 16);
    assert_eq!(&out[0..4], &1u32.to_le_bytes());
    assert_eq!(&out[4..8], &1u32.to_le_bytes());
    assert_eq!(&out[8..12], &2u32.to_le_bytes());
    let data = outgoing_message_data(&OutgoingMessageContent::CharacterCreationAce("acct".to_string(), result));
    assert_eq!(&data[0..4], &0xF656u32.to_le_bytes());
    assert_eq!(&data[4..12], &[4, 0, b'a', b'c', b'c', b't', 0, 0]);
    assert_eq!(&data[12..], &out[..]);
}

#[test]
fn outgoing_message_delays() {
    let now = Instant::from_millis(10_000);
    let m = OutgoingMessage::new(OutgoingMessageContent::EnterWorldRequest).with_delay_ms_at(now, 1_500);
    assert_eq!(m.deadline, Some(Instant::from_millis(11_500)));
    assert!(!m.is_ready_at(Instant::from_millis(11_499)));
    assert!(m.is_ready_at(Instant::from_millis(11_500)));
    assert!(OutgoingMessage::new(OutgoingMessageContent::EnterWorldRequest).is_ready());
    let far = OutgoingMessage::new(OutgoingMessageContent::EnterWorldRequest).with_delay(3_600);
    assert!(!far.is_ready());
    let saturated = OutgoingMessage::new(OutgoingMessageContent::EnterWorldRequest)
        .with_delay_ms_at(Instant::from_millis(u64::MAX - 1), 10);
    assert_eq!(saturated.deadline, Some(Instant::from_millis(u64::MAX)));
}

#[test]
fn wire_encodings() {
    let mut out = Vec::new();
    push_u16(&mut out, 0x0102);
    push_u32(&mut out, 0x0304_0506);
    push_u64(&mut out, 0x0708_090A_0B0C_0D0E);
    push_string(&mut out, "abc");
    assert_eq!(out, vec![2, 1, 6, 5, 4, 3, 0x0E, 0x0D, 0x0C, 0x0B, 0x0A, 9, 8, 7, 3, 0, b'a', b'b', b'c', 0, 0, 0]);
}

#[test]
fn header_round_trip_and_size_field() {
    let h = PacketHeader { sequence: 7, flags: 0x4, checksum: 0xDEAD_BEEF, id: 11, time: 12, size: 13, iteration: 14 };
    let mut bytes = Vec::new();
    push_u32(&mut bytes, h.sequence);
    push_u32(&mut bytes, h.flags);
    push_u32(&mut bytes, h.checksum);
    push_u16(&mut bytes, h.id);
    push_u16(&mut bytes, h.time);
    push_u16(&mut bytes, h.size);
    push_u16(&mut bytes, h.iteration);
    assert_eq!(parse_packet_header(&bytes), h);
    bytes.extend_from_slice(&[1, 2, 3]);
    let sized = set_size_and_placeholder(&bytes);
    let back = parse_packet_header(&sized);
    assert_eq!(back.size, 3);
    assert_eq!(back.checksum, 0xBADD_70DD);
    assert_eq!(back.sequence, 7);
    assert_eq!(&sized[20..], &[1, 2, 3]);
}

#[test]
fn addresses() {
    assert_eq!(parse_address("example.org:9050"), ("example.org".to_string(), 9050));
    assert_eq!(parse_address("example.org"), ("example.org".to_string(), 9000));
    assert_eq!(parse_address("example.org:notaport"), ("example.org".to_string(), 9000));
    let s = ServerInfo::new("example.org".to_string(), 9050);
    assert_eq!(s.world_port, 9051);
    assert!(s.is_from(&"example.org".to_string()));
    assert!(s.is_from(&"127.0.0.1".to_string()));
    assert!(!s.is_from(&"10.0.0.1".to_string()));
}

#[test]
fn text_helpers() {
    assert!(eq_ignore_ascii_case(&['A', 'b'], &['a', 'B']));
    assert!(!eq_ignore_ascii_case(&['a'], &['a', 'b']));
    assert_eq!(u64_to_decimal(0), "0");
    assert_eq!(u64_to_decimal(18_446_744_073_709_551_615), "18446744073709551615");
    assert_eq!(parse_u16(&['9', '0', '0', '0']), Some(9000));
    assert_eq!(parse_u16(&['7', '0', '0', '0', '0']), None);
    assert_eq!(parse_u16(&[]), None);
}

#[test]
fn clock_reads_after_the_epoch() {
    let now = Instant::now();
    assert!(now.millis > 1_600_000_000_000);
    let earlier = Instant::from_millis(now.millis - 500);
    assert_eq!(now.duration_since(earlier), 500);
    assert_eq!(earlier.duration_since(now), 0);
}

#[test]
fn auto_login_script_takes_the_first_character_once() {
    let mut script = AutoLoginScript::new();
    let list = SimpleGameEvent::CharacterListReceived {
        account: "acct".to_string(),
        characters: vec![
            CharacterIdentity { character_id: 8, name: "First".to_string(), seconds_greyed_out: 0 },
            CharacterIdentity { character_id: 9, name: "Second".to_string(), seconds_greyed_out: 0 },
        ],
        num_slots: 3,
    };
    assert_eq!(
        script.on_event(&list),
        Some(SimpleClientAction::LoginCharacter { character_id: 8, character_name: "First".to_string(), account: "acct".to_string() })
    );
    assert_eq!(script.on_event(&list), None);
    let mut empty = AutoLoginScript::new();
    let none = SimpleGameEvent::CharacterListReceived { account: "acct".to_string(), characters: vec![], num_slots: 3 };
    assert_eq!(empty.on_event(&none), None);
    assert!(empty.handled);
    let mut other = AutoLoginScript::new();
    assert_eq!(other.on_event(&SimpleGameEvent::CreatePlayer { character_id: 1 }), None);
    assert!(!other.handled);
}

fn wizard_config() -> GromnieConfig {
    GromnieConfig {
        servers: vec![
            ("a".to_string(), ServerConfig { host: "alpha".to_string(), port: 9000 }),
            ("b".to_string(), ServerConfig { host: "beta".to_string(), port: 9050 }),
        ],
        accounts: vec![("main".to_string(), AccountConfig { username: "me".to_string(), password: "pw".to_string(), character: None })],
        scripting: ScriptingConfig::default(),
        reconnect: false,
    }
}

#[test]
fn wizard_lines_follow_the_stage() {
    let mut w = LaunchWizard::new(wizard_config());
    assert_eq!(w.stage, WizardStage::Welcome);
    assert_eq!(w.lines("/c.toml"), vec!["Welcome to Gromnie!", "Config: /c.toml", ""]);
    w.stage = WizardStage::SelectingServer;
    w.selected_server_idx = 1;
    assert_eq!(
        w.lines("/c.toml"),
        vec!["Welcome to Gromnie!", "Config: /c.toml", "", "? Pick a server", "  ○ alpha:9000", "  ● beta:9050"]
    );
    w.stage = WizardStage::Confirming;
    assert_eq!(
        w.lines("/c.toml"),
        vec![
            "Welcome to Gromnie!", "Config: /c.toml", "", "* Pick a server", "  beta:9050", "", "* Pick an account",
            "  me", "", "? Ready to log in? <enter>",
        ]
    );
    assert_eq!(w.get_selected_server().host, "beta");
    assert_eq!(w.get_selected_account().username, "me");
}

#[test]
fn fragments_of_one_message_are_collected_until_complete() {
    let mut pending = PendingFragments::new();
    let first = vec![1u8; 448];
    let second = vec![2u8; 10];
    assert!(pending.accepts_chunk(0x7001, 2, 0, first.len()));
    assert!(pending.add(0x7001, 2, 0, &first).is_none());
    let done = pending.add(0x7001, 2, 1, &second).expect("complete");
    assert_eq!(done.len(), 2 * 448);
    assert_eq!(done[0], 1);
    assert_eq!(done[448], 2);
    assert_eq!(done[458], 0);
    assert!(!pending.accepts_chunk(0x7003, 1, 1, 0));
}

#[test]
fn test_field_extraction_helpers() {
    let mut buffer = vec![0u8; 24];

    buffer[0..4].copy_from_slice(&42u32.to_le_bytes());
    buffer[4..8].copy_from_slice(&FLAG_TIME_SYNC.to_le_bytes());
    buffer[8..12].copy_from_slice(&0xDEADBEEFu32.to_le_bytes());
    buffer[12..14].copy_from_slice(&5u16.to_le_bytes());
    buffer[14..16].copy_from_slice(&100u16.to_le_bytes());
    buffer[16..18].copy_from_slice(&4u16.to_le_bytes());
    buffer[18..20].copy_from_slice(&3u16.to_le_bytes());

    let h = parse_packet_header(&buffer);
    assert_eq!(h.sequence, 42);
    assert_eq!(h.flags, FLAG_TIME_SYNC);
    assert_eq!(h.checksum, 0xDEADBEEF);
    assert_eq!(h.id, 5);
    assert_eq!(h.time, 100);
    assert_eq!(h.size, 4);
    assert_eq!(h.iteration, 3);
}

#[test]
fn a_repeated_chunk_does_not_complete_a_message() {
    let mut pending = PendingFragments::new();
    let chunk = vec![7u8; 448];
    assert!(pending.add(0x7101, 2, 0, &chunk).is_none());
    assert!(pending.add(0x7101, 2, 0, &chunk).is_none());
    let done = pending.add(0x7101, 2, 1, &vec![8u8; 4]).expect("complete");
    assert_eq!(done[448], 8);
}

#[test]
fn reassemblies_of_one_sequence_in_two_places_stay_apart() {
    let mut a = PendingFragments::new();
    let mut b = PendingFragments::new();
    assert!(a.add(0x7201, 3, 0, &vec![1u8; 448]).is_none());
    let single = b.add(0x7201, 1, 0, &vec![2u8; 20]).expect("one chunk completes");
    assert_eq!(single.len(), 448);
    assert!(a.add(0x7201, 3, 2, &vec![3u8; 448]).is_none());
    let done = a.add(0x7201, 3, 1, &vec![4u8; 448]).expect("complete");
    assert_eq!((done[0], done[448], done[896]), (1, 4, 3));
}
