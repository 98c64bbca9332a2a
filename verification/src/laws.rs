//! Properties of the library that span several operations.

use vstd::prelude::*;
use crate::bridge::host_valid;
use crate::client::{Client, MAX_UNACKED_SENDS, ready_messages, waiting_messages};
use crate::config::{path_join, xdg_dir, PathEnv, home_of};
use crate::exchange::{PacketOutcome, ServerNotResponding};
use crate::instant::Instant;
use crate::packet::{C2sPacket, PacketHeader, header_bytes, header_of};
use crate::queue::OutgoingMessage;
use crate::scene::{ClientError, ErrorScene, Scene};
use crate::wire::{u16_le, u32_le, u64_le, u16_from_le, u32_from_le, ac_string_bytes};
use crate::client::{tells_text, says_text};
use crate::events::{ClientEvent, SimpleGameEvent};
use crate::protocol::{DirectSpeechMsg, SpeechMsg, hear_direct_speech_in};
use crate::ace_protocol::AceCharGenResult;
use crate::queue::OutgoingMessageContent;

verus! {

/// Splitting the outgoing queue at `now` loses and duplicates nothing: every
/// message is either ready or still waiting, and the two parts together are
/// as long as the queue.
pub proof fn lemma_ready_and_waiting_partition_queue(q: Seq<OutgoingMessage>, now: Instant)
    ensures
        ready_messages(q, now).len() + waiting_messages(q, now).len() == q.len(),
        forall|i: int| 0 <= i < ready_messages(q, now).len() ==> #[trigger] ready_messages(q, now)[i].ready_at(now),
        forall|i: int| 0 <= i < waiting_messages(q, now).len() ==> !#[trigger] waiting_messages(q, now)[i].ready_at(now),
    decreases q.len(),
{
    if q.len() > 0 {
        lemma_ready_and_waiting_partition_queue(q.drop_last(), now);
        let r0 = ready_messages(q.drop_last(), now);
        let w0 = waiting_messages(q.drop_last(), now);
        if q.last().ready_at(now) {
            assert forall|i: int| 0 <= i < ready_messages(q, now).len() implies #[trigger] ready_messages(q, now)[i].ready_at(now) by {
                if i < r0.len() { assert(ready_messages(q, now)[i] == r0[i]); }
            }
        } else {
            assert forall|i: int| 0 <= i < waiting_messages(q, now).len() implies !#[trigger] waiting_messages(q, now)[i].ready_at(now) by {
                if i < w0.len() { assert(waiting_messages(q, now)[i] == w0[i]); }
            }
        }
    }
}

/// A message without a deadline is ready at once: queued with no delay, it
/// goes out with the next batch.
pub proof fn lemma_undelayed_message_is_ready(m: OutgoingMessage, now: Instant)
    requires
        m.deadline is None,
    ensures
        m.ready_at(now),
        ready_messages(seq![m], now) == seq![m],
        waiting_messages(seq![m], now).len() == 0,
{
    let q = seq![m];
    assert(q.drop_last() =~= Seq::<OutgoingMessage>::empty());
    assert(q.last() == m);
    reveal_with_fuel(ready_messages, 2);
    reveal_with_fuel(waiting_messages, 2);
    assert(ready_messages(q.drop_last(), now) == Seq::<OutgoingMessage>::empty());
    assert(ready_messages(q, now) =~= seq![m]);
}

/// The LoginComplete notification goes out at most once: a second attempt
/// right after the first changes nothing.
pub proof fn lemma_login_complete_sent_once(c0: Client, c1: Client, c2: Client)
    requires
        c0.login_complete_effect(c1),
        c1.login_complete_effect(c2),
    ensures
        c2 == c1,
{
}

/// Each server packet is acknowledged at most once: after a send that
/// piggybacks an acknowledgement, another send with no packet received in
/// between carries none.
pub proof fn lemma_ack_sent_once(
    c0: Client, p1: C2sPacket, inc1: bool, incr1: bool, r1: C2sPacket, c1: Client,
    p2: C2sPacket, inc2: bool, incr2: bool, r2: C2sPacket, c2: Client, now: Instant, delay_ms: u64,
)
    requires
        c0.send_effect(p1, inc1, incr1, now, delay_ms, Ok(r1), c1),
        c1.send_effect(p2, inc2, incr2, now, delay_ms, Ok(r2), c2),
    ensures
        r2.ack_sequence == p2.ack_sequence,
        r2.flags == p2.flags,
        c1.last_ack_sent == c0.recv_count || c1.last_ack_sent == c0.last_ack_sent,
{
}

/// Sending never lowers the sequence count, and a send that numbers its
/// packet gives it a sequence number above every earlier one.
pub proof fn lemma_send_sequence_increases(
    c0: Client, p: C2sPacket, numbered: bool, increment: bool, now: Instant, delay_ms: u64, r: C2sPacket, c1: Client,
)
    requires
        increment ==> c0.send_count < u32::MAX,
        c0.send_effect(p, numbered, increment, now, delay_ms, Ok(r), c1),
    ensures
        c1.send_count >= c0.send_count,
        numbered && increment ==> r.sequence == c0.send_count + 1 && r.sequence > c0.send_count,
{
}

/// The connection counts as dead once too many packets went out unanswered:
/// with one short of the limit already unanswered, the next send fails and
/// drops the connection.
pub proof fn lemma_dead_after_unanswered_sends(
    c0: Client, p: C2sPacket, numbered: bool, increment: bool, now: Instant, delay_ms: u64,
    r: Result<C2sPacket, ServerNotResponding>, c1: Client,
)
    requires
        c0.unacked_send_count == MAX_UNACKED_SENDS - 1,
        c0.send_effect(p, numbered, increment, now, delay_ms, r, c1),
    ensures
        r is Err,
        c1.session.connection is None,
        c1.send_count == 0 && c1.recv_count == 0 && c1.unacked_send_count == 0,
{
}

/// A received packet never moves the acknowledged sequence backwards, and
/// shows the server alive.
pub proof fn lemma_recv_count_never_decreases(c0: Client, buffer: Seq<u8>, size: nat, r: PacketOutcome, c1: Client)
    requires
        c0.packet_effect(buffer, size, r, c1),
    ensures
        c1.recv_count >= c0.recv_count,
        c1.unacked_send_count == 0,
{
}

/// A retryable error screen can be left by a retry.
pub proof fn lemma_retryable_error_allows_retry(error: ClientError)
    ensures
        Scene::Error(ErrorScene { error, can_retry: true }).can_retry_spec(),
        !Scene::Error(ErrorScene { error, can_retry: false }).can_retry_spec(),
{
}

/// A host the bridge accepts holds no port, path, IPv6 bracket or space.
pub proof fn lemma_valid_host_has_no_url_parts(host: Seq<char>)
    requires
        host_valid(host),
    ensures
        forall|i: int| 0 <= i < host.len() ==> #[trigger] host[i] != ':' && host[i] != '/'
            && host[i] != '[' && host[i] != ']' && host[i] != ' ',
{
    assert forall|i: int| 0 <= i < host.len() implies #[trigger] host[i] != ':' && host[i] != '/'
        && host[i] != '[' && host[i] != ']' && host[i] != ' ' by {
        assert(crate::bridge::host_char(host[i]));
    }
}

/// A project directory always ends with the name joined onto it.
pub proof fn lemma_joined_path_ends_with_name(base: Seq<char>, name: Seq<char>)
    ensures
        path_join(base, name).len() >= name.len(),
        path_join(base, name).subrange(path_join(base, name).len() - name.len(), path_join(base, name).len() as int) == name,
{
    let j = path_join(base, name);
    assert(j.subrange(j.len() - name.len(), j.len() as int) =~= name);
}

/// Without `XDG_CONFIG_HOME`, the configuration file of the project `name`
/// lives at `<home>/.config/<name>/config.toml`.
pub proof fn lemma_default_config_path(env: PathEnv, name: Seq<char>)
    requires
        env.xdg_config_home is None,
        home_of(env) matches Some(h) && h@.len() > 0 && h@.last() != '/',
        name.len() > 0 && name[0] != '/' && name.last() != '/',
    ensures
        path_join(xdg_dir(env.xdg_config_home, home_of(env), ".config"@, ".config"@, name), "config.toml"@)
            == home_of(env)->0@ + "/.config/"@ + name + "/config.toml"@,
{
    let h = home_of(env)->0@;
    reveal_strlit(".config");
    reveal_strlit("config.toml");
    reveal_strlit("/");
    reveal_strlit("/.config/");
    reveal_strlit("/config.toml");
    let base = path_join(h, ".config"@);
    assert(base =~= h + "/"@ + ".config"@);
    let dir = path_join(base, name);
    assert(base.last() == 'g');
    assert(dir =~= base + "/"@ + name);
    let file = path_join(dir, "config.toml"@);
    assert(dir.last() == name.last());
    assert(file =~= dir + "/"@ + "config.toml"@);
    assert(file =~= h + "/.config/"@ + name + "/config.toml"@);
}

proof fn lemma_u32_le_roundtrip(v: u32)
    ensures
        u32_from_le(u32_le(v), 0) == v,
{
    let b = u32_le(v);
    let b0 = b[0];
    let b1 = b[1];
    let b2 = b[2];
    let b3 = b[3];
    assert(b0 == (v & 0xff) as u8 && b1 == ((v >> 8u32) & 0xff) as u8
        && b2 == ((v >> 16u32) & 0xff) as u8 && b3 == ((v >> 24u32) & 0xff) as u8);
    assert((b0 as u32) | ((b1 as u32) << 8u32) | ((b2 as u32) << 16u32) | ((b3 as u32) << 24u32) == v) by (bit_vector)
        requires
            b0 == (v & 0xff) as u8, b1 == ((v >> 8u32) & 0xff) as u8,
            b2 == ((v >> 16u32) & 0xff) as u8, b3 == ((v >> 24u32) & 0xff) as u8;
}

proof fn lemma_u16_le_roundtrip(v: u16)
    ensures
        u16_from_le(u16_le(v), 0) == v,
{
    let b = u16_le(v);
    let b0 = b[0];
    let b1 = b[1];
    assert(b0 == (v & 0xff) as u8 && b1 == ((v >> 8u16) & 0xff) as u8);
    assert((b0 as u16) | ((b1 as u16) << 8u16) == v) by (bit_vector)
        requires
            b0 == (v & 0xff) as u8, b1 == ((v >> 8u16) & 0xff) as u8;
}

/// Reading a written header gives the header back.
pub proof fn lemma_header_roundtrip(h: PacketHeader)
    ensures
        header_of(header_bytes(h)) == h,
{
    let b = header_bytes(h);
    lemma_u32_le_roundtrip(h.sequence);
    lemma_u32_le_roundtrip(h.flags);
    lemma_u32_le_roundtrip(h.checksum);
    lemma_u16_le_roundtrip(h.id);
    lemma_u16_le_roundtrip(h.time);
    lemma_u16_le_roundtrip(h.size);
    lemma_u16_le_roundtrip(h.iteration);
    assert(b.subrange(0, 4) =~= u32_le(h.sequence));
    assert(b.subrange(4, 8) =~= u32_le(h.flags));
    assert(b.subrange(8, 12) =~= u32_le(h.checksum));
    assert(b.subrange(12, 14) =~= u16_le(h.id));
    assert(b.subrange(14, 16) =~= u16_le(h.time));
    assert(b.subrange(16, 18) =~= u16_le(h.size));
    assert(b.subrange(18, 20) =~= u16_le(h.iteration));
    assert(u32_from_le(b, 0) == u32_from_le(b.subrange(0, 4), 0));
    assert(u32_from_le(b, 4) == u32_from_le(b.subrange(4, 8), 0));
    assert(u32_from_le(b, 8) == u32_from_le(b.subrange(8, 12), 0));
    assert(u16_from_le(b, 12) == u16_from_le(b.subrange(12, 14), 0));
    assert(u16_from_le(b, 14) == u16_from_le(b.subrange(14, 16), 0));
    assert(u16_from_le(b, 16) == u16_from_le(b.subrange(16, 18), 0));
    assert(u16_from_le(b, 18) == u16_from_le(b.subrange(18, 20), 0));
}


/// The chat line of a direct tell names the sender first: it is the sender's
/// name, then ` tells you, "`, then the message, then a closing quote.
pub proof fn lemma_tell_text_is_sender_then_message(sender: Seq<char>, message: Seq<char>)
    ensures
        tells_text(sender, message) == sender + " tells you, \""@ + message + "\""@,
        tells_text(sender, message).len() == sender.len() + 13 + message.len() + 1,
        tells_text(sender, message).subrange(0, sender.len() as int) == sender,
        tells_text(sender, message).subrange(sender.len() + 13int, sender.len() + 13int + message.len()) == message,
{
    reveal_strlit(" tells you, \"");
    reveal_strlit("\"");
    let t = tells_text(sender, message);
    assert(t.subrange(0, sender.len() as int) =~= sender);
    assert(t.subrange(sender.len() + 13int, sender.len() + 13int + message.len()) =~= message);
}

/// A direct tell heard from another character (game event 0x2BD) becomes one
/// chat event whose text is the sender's name, ` tells you, "`, the message
/// and a closing quote, with the tell's chat type.
pub proof fn lemma_direct_tell_reports_sender_then_message(c: Client, d: Seq<u8>, post: Client, s: DirectSpeechMsg)
    requires
        d.len() >= 12,
        u32_from_le(d, 8) == 0x2BD,
        hear_direct_speech_in(d.subrange(8, d.len() as int)) == Some(s),
        c.game_event_effect(d, post),
    ensures
        post.events@.len() == c.events@.len() + 1,
        post.events@.drop_last() == c.events@,
        post.events@.last() matches ClientEvent::Game(SimpleGameEvent::ChatMessageReceived { message, message_type })
            && message@ == s.sender_name@ + " tells you, \""@ + s.message@ + "\""@
            && message_type == s.message_type,
{
}

/// The ACE character creation layout: after seventeen 4-byte fields and six
/// 8-byte shades, the template number sits at bytes 116..120, then strength
/// at 120..124, endurance at 124..128, coordination at 128..132, quickness at
/// 132..136, focus at 136..140 and self at 140..144, each little-endian.
pub proof fn lemma_char_gen_attribute_offsets(r: AceCharGenResult)
    ensures
        r.bytes_spec().subrange(116, 120) == u32_le(r.template_num),
        r.bytes_spec().subrange(120, 124) == u32_le(r.strength),
        r.bytes_spec().subrange(124, 128) == u32_le(r.endurance),
        r.bytes_spec().subrange(128, 132) == u32_le(r.coordination),
        r.bytes_spec().subrange(132, 136) == u32_le(r.quickness),
        r.bytes_spec().subrange(136, 140) == u32_le(r.focus),
        r.bytes_spec().subrange(140, 144) == u32_le(r.self_),
{
    let p23 = u32_le(r.one)
        + u32_le(r.heritage_group)
        + u32_le(r.gender)
        + u32_le(r.eyes_strip)
        + u32_le(r.nose_strip)
        + u32_le(r.mouth_strip)
        + u32_le(r.hair_color)
        + u32_le(r.eye_color)
        + u32_le(r.hair_style)
        + u32_le(r.headgear_style)
        + u32_le(r.headgear_color)
        + u32_le(r.shirt_style)
        + u32_le(r.shirt_color)
        + u32_le(r.trousers_style)
        + u32_le(r.trousers_color)
        + u32_le(r.footwear_style)
        + u32_le(r.footwear_color)
        + u64_le(r.skin_shade)
        + u64_le(r.hair_shade)
        + u64_le(r.headgear_shade)
        + u64_le(r.shirt_shade)
        + u64_le(r.trousers_shade)
        + u64_le(r.tootwear_shade);
    assert(p23.len() == 116);
    let p24 = p23 + u32_le(r.template_num);
    let p25 = p24 + u32_le(r.strength);
    let p26 = p25 + u32_le(r.endurance);
    let p27 = p26 + u32_le(r.coordination);
    let p28 = p27 + u32_le(r.quickness);
    let p29 = p28 + u32_le(r.focus);
    let p30 = p29 + u32_le(r.self_);
    let p31 = p30 + u32_le(r.slot);
    let p32 = p31 + u32_le(r.class_id);
    let p33 = p32 + r.skills.bytes_spec();
    let p34 = p33 + ac_string_bytes(r.name@);
    let p35 = p34 + u32_le(r.start_area);
    let p36 = p35 + u32_le(r.is_admin);
    let p37 = p36 + u32_le(r.is_envoy);
    let p38 = p37 + u32_le(r.validation);
    assert(p38 == r.bytes_spec());
    // Each field sits at the end of its prefix, and later pieces keep the prefix.
    lemma_piece_at_end(p23, u32_le(r.template_num));
    lemma_piece_at_end(p24, u32_le(r.strength));
    lemma_piece_at_end(p25, u32_le(r.endurance));
    lemma_piece_at_end(p26, u32_le(r.coordination));
    lemma_piece_at_end(p27, u32_le(r.quickness));
    lemma_piece_at_end(p28, u32_le(r.focus));
    lemma_piece_at_end(p29, u32_le(r.self_));
    lemma_prefix_kept(p30, u32_le(r.slot), 116, 144);
    lemma_prefix_kept(p31, u32_le(r.class_id), 116, 144);
    lemma_prefix_kept(p32, r.skills.bytes_spec(), 116, 144);
    lemma_prefix_kept(p33, ac_string_bytes(r.name@), 116, 144);
    lemma_prefix_kept(p34, u32_le(r.start_area), 116, 144);
    lemma_prefix_kept(p35, u32_le(r.is_admin), 116, 144);
    lemma_prefix_kept(p36, u32_le(r.is_envoy), 116, 144);
    lemma_prefix_kept(p37, u32_le(r.validation), 116, 144);
    assert(r.bytes_spec().subrange(116, 144) == p30.subrange(116, 144));
    lemma_prefix_kept(p24, u32_le(r.strength), 116, 120);
    lemma_prefix_kept(p25, u32_le(r.endurance), 116, 124);
    lemma_prefix_kept(p26, u32_le(r.coordination), 116, 128);
    lemma_prefix_kept(p27, u32_le(r.quickness), 116, 132);
    lemma_prefix_kept(p28, u32_le(r.focus), 116, 136);
    lemma_prefix_kept(p29, u32_le(r.self_), 116, 140);
    let w = p30.subrange(116, 144);
    assert(r.bytes_spec().subrange(116, 120) =~= w.subrange(0, 4));
    assert(r.bytes_spec().subrange(120, 124) =~= w.subrange(4, 8));
    assert(r.bytes_spec().subrange(124, 128) =~= w.subrange(8, 12));
    assert(r.bytes_spec().subrange(128, 132) =~= w.subrange(12, 16));
    assert(r.bytes_spec().subrange(132, 136) =~= w.subrange(16, 20));
    assert(r.bytes_spec().subrange(136, 140) =~= w.subrange(20, 24));
    assert(r.bytes_spec().subrange(140, 144) =~= w.subrange(24, 28));
}

/// `y` sits right after `x` in `x + y`.
proof fn lemma_piece_at_end(x: Seq<u8>, y: Seq<u8>)
    ensures
        (x + y).subrange(x.len() as int, (x.len() + y.len()) as int) == y,
{
    assert((x + y).subrange(x.len() as int, (x.len() + y.len()) as int) =~= y);
}

/// Appending keeps what lies within the prefix.
proof fn lemma_prefix_kept(x: Seq<u8>, y: Seq<u8>, i: int, j: int)
    requires
        0 <= i <= j <= x.len(),
    ensures
        (x + y).subrange(i, j) == x.subrange(i, j),
{
    assert((x + y).subrange(i, j) =~= x.subrange(i, j));
}

/// A tell queues one game action: the OrderedGameAction opcode 0xF7B1, the
/// client's next action sequence, the TalkDirectByName opcode 0x5D, then the
/// message and, after it, the recipient's name as AC strings.
pub proof fn lemma_tell_sends_message_to_recipient(c: Client, recipient: Seq<char>, message: Seq<char>, post: Client)
    requires
        c.next_game_action_sequence < u32::MAX,
        c.chat_tell_effect(recipient, message, post),
    ensures
        post.outgoing_message_queue@.len() == c.outgoing_message_queue@.len() + 1,
        post.outgoing_message_queue@.last().content matches OutgoingMessageContent::GameAction(b)
            && b@ == u32_le(0xF7B1) + u32_le(c.next_game_action_sequence) + u32_le(0x5D)
                + ac_string_bytes(message) + ac_string_bytes(recipient),
        post.next_game_action_sequence == c.next_game_action_sequence + 1,
{
}

/// The ASCII letter `c` in lower case; anything else as it is.
pub open spec fn ascii_lower(c: char) -> char {
    if 'A' <= c && c <= 'Z' { ((c as u32) + 32) as char } else { c }
}

/// Every ASCII letter of either case, every digit, the dot and the hyphen
/// may stand in a host: a non-empty host made of them is valid.
pub proof fn lemma_host_of_letters_digits_dots_hyphens_is_valid(host: Seq<char>)
    requires
        host.len() > 0,
        forall|i: int| 0 <= i < host.len() ==> {
            let c = #[trigger] host[i];
            ('a' <= c && c <= 'z') || ('A' <= c && c <= 'Z') || ('0' <= c && c <= '9') || c == '.' || c == '-'
        },
    ensures
        host_valid(host),
{
}

/// Host validity ignores letter case: a host is valid exactly when its
/// lower-case form is.
pub proof fn lemma_host_validity_ignores_case(host: Seq<char>)
    ensures
        host_valid(host) == host_valid(host.map_values(|c: char| ascii_lower(c))),
{
    let low = host.map_values(|c: char| ascii_lower(c));
    assert forall|i: int| 0 <= i < host.len() implies
        (crate::bridge::host_char(#[trigger] host[i]) == crate::bridge::host_char(low[i])) by {
        let c = host[i];
        if 'A' <= c && c <= 'Z' {
            assert(low[i] == ((c as u32) + 32) as char);
            assert('a' <= low[i] && low[i] <= 'z');
        }
    }
    if host_valid(low) {
        assert forall|i: int| 0 <= i < host.len() implies crate::bridge::host_char(#[trigger] host[i]) by {
            assert(crate::bridge::host_char(low[i]));
        }
    }
    if host_valid(host) {
        assert forall|i: int| 0 <= i < low.len() implies crate::bridge::host_char(#[trigger] low[i]) by {
            assert(crate::bridge::host_char(host[i]));
        }
    }
}


/// The chat line of heard speech names the speaker first: the speaker's
/// name, then ` says, "`, then the message, then a closing quote.
pub proof fn lemma_say_text_is_sender_then_message(sender: Seq<char>, message: Seq<char>)
    ensures
        says_text(sender, message) == sender + " says, \""@ + message + "\""@,
        says_text(sender, message).len() == sender.len() + 8 + message.len() + 1,
        says_text(sender, message).subrange(0, sender.len() as int) == sender,
        says_text(sender, message).subrange(sender.len() + 8int, sender.len() + 8int + message.len()) == message,
{
    reveal_strlit(" says, \"");
    reveal_strlit("\"");
    let t = says_text(sender, message);
    assert(t.subrange(0, sender.len() as int) =~= sender);
    assert(t.subrange(sender.len() + 8int, sender.len() + 8int + message.len()) =~= message);
}

/// Heard speech becomes one chat event whose text is the speaker's name,
/// ` says, "`, the message and a closing quote, with the speech's chat type.
pub proof fn lemma_speech_reports_sender_then_message(c: Client, s: SpeechMsg, post: Client)
    requires
        c.speech_effect(Some(s), post),
    ensures
        post.events@.len() == c.events@.len() + 1,
        post.events@.drop_last() == c.events@,
        post.events@.last() matches ClientEvent::Game(SimpleGameEvent::ChatMessageReceived { message, message_type })
            && message@ == s.sender_name@ + " says, \""@ + s.message@ + "\""@
            && message_type == s.message_type,
{
}

/// Saying something queues one game action: the OrderedGameAction opcode
/// 0xF7B1, the client's next action sequence, the Talk opcode 0x15, then
/// the message as an AC string.
pub proof fn lemma_say_sends_message(c: Client, message: Seq<char>, post: Client)
    requires
        c.next_game_action_sequence < u32::MAX,
        c.chat_say_effect(message, post),
    ensures
        post.outgoing_message_queue@.len() == c.outgoing_message_queue@.len() + 1,
        post.outgoing_message_queue@.last().content matches OutgoingMessageContent::GameAction(b)
            && b@ == u32_le(0xF7B1) + u32_le(c.next_game_action_sequence) + u32_le(0x15) + ac_string_bytes(message),
        post.next_game_action_sequence == c.next_game_action_sequence + 1,
{
}

} // verus!
