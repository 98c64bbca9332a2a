//! The client's side of the packet exchange: what a received packet changes,
//! and the packets the client sends, with their sequence numbers and
//! piggybacked acknowledgements.

use vstd::prelude::*;
use vstd::string::StringSliceAdditionalSpecFns;
use crate::client::Client;
use crate::crypto::{CryptoSystem, seed_bytes};
use crate::events::{ClientEvent, ClientSystemEvent, SimpleGameEvent};
use crate::fragments::{RawMessage, with_chunk, with_arrival, all_arrived};
use crate::packet::{
    PacketHeader, header_of, has_flag, parse_packet_header, FLAG_BLOB_FRAGMENTS, FLAG_ACK_SEQUENCE,
    FLAG_CONNECT_REQUEST, FLAG_TIME_SYNC,
};
use crate::protocol::{
    BlobFragment, ConnectRequest, decoded_connect_request, decoded_blob_fragment,
    decode_connect_request, decode_blob_fragment, fragment_size_readable, check_fragment_size_readable,
};
use crate::scene::{ConnectingProgress, ConnectingScene, Scene};
use crate::session::{ConnectionState, SessionState};
use crate::instant::Instant;
use crate::ace_protocol::AceCharGenResult;
use crate::events::ClientStateEvent;
use crate::packet::{C2sPacket, FLAG_CONNECT_RESPONSE, FLAG_LOGIN_REQUEST, FRAGMENT_GROUP_OBJECT, FRAGMENT_HEADER_SIZE,
    header_bytes, sized_with_placeholder, set_size_and_placeholder};
use crate::protocol::{enter_world_message, enter_world_request_bytes, enter_world_bytes};
use crate::queue::{OutgoingMessageContent, sat_add};
use crate::text::{to_lowercase, unicode_lowercase};
use crate::wire::{u32_le, u16_le, ac_string_bytes, ac_string32l_bytes, push_u32, push_u16, push_string, push_string32l, push_all};

verus! {

/// What the caller owes the server after a packet.
#[derive(Clone, Copy, Debug, PartialEq, Eq, Structural)]
pub enum PacketOutcome {
    /// Nothing.
    Handled,
    /// The server asked to connect: after the UI delay, send the
    /// ConnectResponse and report it sent.
    ConnectResponseDue,
}

/// `c` is the connection a ConnectRequest `req` sets up, with table `table`.
pub open spec fn connection_from(c: ConnectionState, req: ConnectRequest, table: u16) -> bool {
    &&& c.cookie == req.cookie
    &&& c.client_id == req.net_id as u16
    &&& c.table == table
    &&& c.send_generator.seed_spec() == seed_bytes(req.incoming_seed)
    &&& c.send_generator.drawn_spec() == 0
}

impl Client {
    /// Session, events and scene of `post` after the ConnectRequest `req`
    /// with table `table`: the connection is set up, authentication
    /// succeeded, and the connecting scene shows the request received (66%).
    pub open spec fn connect_request_fields(self, table: u16, req: ConnectRequest, post: Client) -> bool {
        &&& post.session.connection is Some
        &&& connection_from(post.session.connection->0, req, table)
        &&& post.session.state == SessionState::AuthConnectResponse
        &&& post.session.metadata == self.session.metadata
        &&& match self.scene {
                Scene::Connecting(s) => {
                    &&& post.scene == Scene::Connecting(ConnectingScene { connect_progress: ConnectingProgress::ConnectRequestReceived, ..s })
                    &&& post.events@ == self.events@
                            .push(ClientEvent::System(ClientSystemEvent::AuthenticationSucceeded))
                            .push(ClientEvent::Game(SimpleGameEvent::ConnectingSetProgress { percent: 66 }))
                },
                _ => {
                    &&& post.scene == self.scene
                    &&& post.events@ == self.events@.push(ClientEvent::System(ClientSystemEvent::AuthenticationSucceeded))
                },
            }
    }

    /// Reassembly state and message queue of `post` after the fragment `f`:
    /// only `f`'s message changes its place among those under reassembly, and
    /// a message that completes joins the queue.
    pub open spec fn fragment_fields(self, f: BlobFragment, post: Client) -> bool {
        &&& forall|k: u32| k != f.sequence ==> (#[trigger] self.pending_fragments.keys().contains(k)
                <==> post.pending_fragments.keys().contains(k))
        &&& forall|k: u32| k != f.sequence ==> #[trigger] post.pending_fragments.state_of(k)
                == self.pending_fragments.state_of(k)
        &&& post.pending_fragments.keys().contains(f.sequence) <==> !all_arrived(self.arrivals(f))
        &&& if post.pending_fragments.keys().contains(f.sequence) {
                &&& post.pending_fragments.state_of(f.sequence) == Some((self.assembled(f), self.arrivals(f)))
                &&& post.message_queue@ == self.message_queue@
            } else if self.assembled(f).len() >= 4 {
                &&& post.message_queue@.len() == self.message_queue@.len() + 1
                &&& post.message_queue@.drop_last() == self.message_queue@
                &&& post.message_queue@.last().sequence_spec() == f.sequence
                &&& post.message_queue@.last().id_spec() == f.id
                &&& post.message_queue@.last().data_spec() == self.assembled(f)
            } else {
                post.message_queue@ == self.message_queue@
            }
    }

    /// The reassembly buffer of `f`'s message once `f`'s chunk is written into it.
    pub open spec fn assembled(self, f: BlobFragment) -> Seq<u8> {
        with_chunk(self.pending_fragments.start_buffer(f.sequence, f.count), f.data@, f.index * 448)
    }

    /// Which chunks of `f`'s message have arrived, `f`'s included.
    pub open spec fn arrivals(self, f: BlobFragment) -> Seq<bool> {
        with_arrival(self.pending_fragments.start_arrived(f.sequence, f.count),
            self.pending_fragments.start_buffer(f.sequence, f.count).len(), f.data@.len(), f.index as int)
    }

    /// Whether `process_packet` may take these bytes: the header is there,
    /// and every part its flags announce can be read.
    pub open spec fn packet_acceptable(self, buffer: Seq<u8>, size: nat) -> bool {
        let h = header_of(buffer);
        &&& 20 <= buffer.len()
        &&& size <= buffer.len()
        &&& has_flag(h, FLAG_CONNECT_REQUEST) ==> 20 <= size
                && decoded_connect_request(buffer.subrange(20, size as int)) is Some
        &&& has_flag(h, FLAG_ACK_SEQUENCE) ==> 24 <= size
        &&& has_flag(h, FLAG_TIME_SYNC) ==> 28 <= buffer.len()
        &&& has_flag(h, FLAG_BLOB_FRAGMENTS) ==> fragment_size_readable(buffer.subrange(0, size as int))
                && match decoded_blob_fragment(buffer.subrange(0, size as int)) {
                    Some(f) => self.pending_fragments.chunk_acceptable(f.sequence, f.count, f.index, f.data@.len()),
                    None => true,
                }
    }

    /// The effect of the packet `buffer` (of which `size` bytes were received).
    pub open spec fn packet_effect(self, buffer: Seq<u8>, size: nat, r: PacketOutcome, post: Client) -> bool {
        let h = header_of(buffer);
        let connect = has_flag(h, FLAG_CONNECT_REQUEST);
        let fragment = if has_flag(h, FLAG_BLOB_FRAGMENTS) {
            decoded_blob_fragment(buffer.subrange(0, size as int))
        } else {
            None
        };
        &&& (r == PacketOutcome::ConnectResponseDue) == connect
        &&& post.recv_count == (if h.sequence > 0 && h.sequence > self.recv_count { h.sequence } else { self.recv_count })
        &&& post.unacked_send_count == 0
        &&& if connect {
                self.connect_request_fields(h.iteration, decoded_connect_request(buffer.subrange(20, size as int))->0, post)
            } else {
                post.session == self.session && post.events == self.events && post.scene == self.scene
            }
        &&& match fragment {
                Some(f) => self.fragment_fields(f, post),
                None => post.pending_fragments == self.pending_fragments && post.message_queue == self.message_queue,
            }
        &&& post == (Client {
                recv_count: post.recv_count,
                unacked_send_count: 0,
                session: post.session,
                events: post.events,
                scene: post.scene,
                pending_fragments: post.pending_fragments,
                message_queue: post.message_queue,
                ..self
            })
    }

    /// The server's ConnectRequest `req`, in a packet with table `table`:
    /// set up the connection, keyed by the server's seed for our packets.
    fn handle_connect_request(&mut self, table: u16, req: ConnectRequest)
        ensures
            old(self).connect_request_fields(table, req, *final(self)),
            *final(self) == (Client { session: final(self).session, events: final(self).events, scene: final(self).scene, ..*old(self) }),
    {
        self.session.set_connection(ConnectionState {
            cookie: req.cookie,
            client_id: req.net_id as u16,
            table,
            send_generator: CryptoSystem::new(req.incoming_seed),
        });
        self.session.transition_to(SessionState::AuthConnectResponse);
        self.events.push(ClientEvent::System(ClientSystemEvent::AuthenticationSucceeded));
        let connecting = match self.scene {
            Scene::Connecting(_) => true,
            _ => false,
        };
        if connecting {
            self.update_connect_progress(ConnectingProgress::ConnectRequestReceived);
            self.events.push(ClientEvent::Game(SimpleGameEvent::ConnectingSetProgress { percent: 66 }));
        }
    }

    /// One fragment of a server message: add it to its message's reassembly,
    /// and queue the message once it is complete.
    pub fn handle_fragment(&mut self, f: BlobFragment)
        requires
            old(self).pending_fragments.chunk_acceptable(f.sequence, f.count, f.index, f.data@.len()),
        ensures
            old(self).fragment_fields(f, *final(self)),
            *final(self) == (Client { pending_fragments: final(self).pending_fragments, message_queue: final(self).message_queue, ..*old(self) }),
    {
        let sequence = f.sequence;
        let id = f.id;
        let done = self.pending_fragments.add(f.sequence, f.count, f.index, &f.data);
        if let Some(bytes) = done {
            if let Some(m) = RawMessage::from_data(bytes, sequence, id) {
                self.message_queue.push_back(m);
                proof { assert(self.message_queue@.drop_last() =~= old(self).message_queue@); }
            }
        }
    }

    /// A packet from the server, of which the first `size` bytes of `buffer`
    /// were received: note its sequence for acknowledgement (any packet shows
    /// the server alive), take in a ConnectRequest and a fragment it carries.
    pub fn process_packet(&mut self, buffer: &[u8], size: usize) -> (r: PacketOutcome)
        requires
            old(self).packet_acceptable(buffer@, size as nat),
        ensures
            old(self).packet_effect(buffer@, size as nat, r, *final(self)),
    {
        let h = parse_packet_header(buffer);
        if h.sequence > 0 && h.sequence > self.recv_count {
            self.recv_count = h.sequence;
        }
        self.unacked_send_count = 0;
        let ghost counted = *self;
        let mut r = PacketOutcome::Handled;
        if h.flags & FLAG_CONNECT_REQUEST != 0 {
            let payload = vstd::slice::slice_subrange(buffer, 20, size);
            if let Some(req) = decode_connect_request(payload) {
                self.handle_connect_request(h.iteration, req);
            }
            r = PacketOutcome::ConnectResponseDue;
        }
        let ghost connected = *self;
        proof {
            if has_flag(h, FLAG_CONNECT_REQUEST) {
                assert(old(self).connect_request_fields(h.iteration,
                    decoded_connect_request(buffer@.subrange(20, size as int))->0, connected));
            }
            assert(connected.pending_fragments == old(self).pending_fragments);
            assert(connected.message_queue == old(self).message_queue);
        }
        if h.flags & FLAG_BLOB_FRAGMENTS != 0 {
            let whole = vstd::slice::slice_subrange(buffer, 0, size);
            if let Some(f) = decode_blob_fragment(whole) {
                self.handle_fragment(f);
                proof { assert(old(self).fragment_fields(f, *self)); }
            }
        }
        proof {
            assert(self.session == connected.session);
            assert(self.events == connected.events);
            assert(self.scene == connected.scene);
        }
        r
    }

    /// `process_packet` on a whole received packet, when it may take it;
    /// `None`, with nothing changed, when a part its flags announce cannot be
    /// read or a fragment could not be placed.
    pub fn receive_packet(&mut self, buffer: &[u8]) -> (r: Option<PacketOutcome>)
        ensures
            r is None <==> !old(self).packet_acceptable(buffer@, buffer@.len()),
            r is None ==> *final(self) == *old(self),
            r matches Some(o) ==> old(self).packet_effect(buffer@, buffer@.len(), o, *final(self)),
    {
        let size = buffer.len();
        if size < 20 {
            return None;
        }
        let h = parse_packet_header(buffer);
        if h.flags & FLAG_CONNECT_REQUEST != 0 {
            let payload = vstd::slice::slice_subrange(buffer, 20, size);
            if decode_connect_request(payload).is_none() {
                return None;
            }
        }
        if h.flags & FLAG_ACK_SEQUENCE != 0 && size < 24 {
            return None;
        }
        if h.flags & FLAG_TIME_SYNC != 0 && size < 28 {
            return None;
        }
        if h.flags & FLAG_BLOB_FRAGMENTS != 0 {
            let whole = vstd::slice::slice_subrange(buffer, 0, size);
            if !check_fragment_size_readable(whole) {
                return None;
            }
            if let Some(f) = decode_blob_fragment(whole) {
                if !self.pending_fragments.accepts_chunk(f.sequence, f.count, f.index, f.data.len()) {
                    return None;
                }
            }
        }
        proof { assert(buffer@.subrange(0, size as int) =~= buffer@.subrange(0, buffer@.len() as int)); }
        Some(self.process_packet(buffer, size))
    }
}

/// Where a packet goes: the login server or the world server.
#[derive(Clone, Copy, Debug, PartialEq, Eq, Structural)]
pub enum TransportChannel {
    Login,
    World,
}

/// The server stopped answering: too many packets went out unanswered.
#[derive(Clone, Copy, Debug, PartialEq, Eq, Structural)]
pub struct ServerNotResponding;

/// The fragment id of game messages.
pub const GAME_MESSAGE_FRAGMENT_ID: u32 = 0x8000_0000;

/// The opcode of ACE's character creation message.
pub const CHAR_GEN_OPCODE: u32 = 0xF656;

/// The bytes of an outgoing message, opcode first.
pub open spec fn outgoing_bytes(c: OutgoingMessageContent) -> Seq<u8> {
    match c {
        OutgoingMessageContent::CharacterCreationAce(account, cg) =>
            u32_le(CHAR_GEN_OPCODE) + ac_string_bytes(account@) + cg.bytes_spec(),
        OutgoingMessageContent::EnterWorldRequest => u32_le(0xF7C8),
        OutgoingMessageContent::EnterWorld(e) => enter_world_message(e.character_id, e.account@),
        OutgoingMessageContent::GameAction(b) => b@,
    }
}

/// The bytes of an outgoing message.
pub fn outgoing_message_data(c: &OutgoingMessageContent) -> (r: Vec<u8>)
    ensures
        r@ == outgoing_bytes(*c),
{
    match c {
        OutgoingMessageContent::CharacterCreationAce(account, cg) => {
            let mut out: Vec<u8> = Vec::new();
            push_u32(&mut out, CHAR_GEN_OPCODE);
            push_string(&mut out, account.as_str());
            cg.write(&mut out);
            proof {
                assert(out@ =~= u32_le(CHAR_GEN_OPCODE) + ac_string_bytes(account@) + cg.bytes_spec());
            }
            out
        },
        OutgoingMessageContent::EnterWorldRequest => enter_world_request_bytes(),
        OutgoingMessageContent::EnterWorld(e) => enter_world_bytes(e.character_id, e.account.as_str()),
        OutgoingMessageContent::GameAction(b) => {
            let mut out: Vec<u8> = Vec::new();
            push_all(&mut out, b.as_slice());
            proof { assert(out@ =~= b@); }
            out
        },
    }
}

/// The length field of a LoginRequest: login type, unknown and timestamp
/// (four bytes each), the account as an AC string (a two-byte length, the
/// text, padding to four), an empty account to log in as (four bytes) and the
/// password as a packed AC string (a four-byte length, a one- or two-byte
/// packed length, the text, padding to four).
pub open spec fn login_request_length_spec(account_len: nat, password_len: nat) -> nat {
    let account_size = (2 + account_len) + ((4 - (2 + account_len) % 4) % 4);
    let packed = if password_len > 255 { 2nat } else { 1nat };
    let password_size = 4 + (packed + password_len) + ((4 - (packed + password_len) % 4) % 4);
    (12 + account_size + 4 + password_size) as nat
}

/// The login type of the LoginRequest: the admin account override.
pub const LOGIN_ADMIN_OVERRIDE: u32 = 0x2;

/// The header of the LoginRequest before its size is filled in: no
/// sequence, the LoginRequest flag, every other field zero.
pub open spec fn login_header() -> Seq<u8> {
    header_bytes(PacketHeader { sequence: 0, flags: FLAG_LOGIN_REQUEST, checksum: 0, id: 0, time: 0, size: 0, iteration: 0 })
}

/// The LoginRequest payload: the client version "1802", the length of what
/// follows it, the login type, a zero, the timestamp, the account, an empty
/// account to log in as, and the password. The length counts the strings by
/// their byte lengths `account_len` and `password_len`.
pub open spec fn login_payload(account: Seq<char>, account_len: nat, password: Seq<char>, password_len: nat,
    timestamp: i32) -> Seq<u8>
{
    ac_string_bytes("1802"@) + u32_le(login_request_length_spec(account_len, password_len) as u32)
        + u32_le(LOGIN_ADMIN_OVERRIDE) + u32_le(0) + u32_le(timestamp as u32) + ac_string_bytes(account)
        + u32_le(0) + ac_string32l_bytes(password)
}

/// The LoginRequest packet for `account` and `password` at `timestamp`
/// (seconds since the epoch), its size filled in and the checksum
/// placeholder in place.
pub fn login_request_bytes(account: &str, password: &str, timestamp: i32) -> (r: Vec<u8>)
    requires
        account.spec_bytes().len() < 0x4000_0000,
        password.spec_bytes().len() < 0x4000_0000,
    ensures
        r@ == sized_with_placeholder(login_header() + login_payload(account@, account.spec_bytes().len(),
            password@, password.spec_bytes().len(), timestamp)),
{
    let mut out: Vec<u8> = Vec::new();
    push_u32(&mut out, 0);
    push_u32(&mut out, FLAG_LOGIN_REQUEST);
    push_u32(&mut out, 0);
    push_u16(&mut out, 0);
    push_u16(&mut out, 0);
    push_u16(&mut out, 0);
    push_u16(&mut out, 0);
    let ghost head = out@;
    let length = login_request_length(account.len(), password.len());
    push_string(&mut out, "1802");
    push_u32(&mut out, length);
    push_u32(&mut out, LOGIN_ADMIN_OVERRIDE);
    push_u32(&mut out, 0);
    push_u32(&mut out, timestamp as u32);
    push_string(&mut out, account);
    push_u32(&mut out, 0);
    push_string32l(&mut out, password);
    proof {
        assert(head =~= login_header());
        assert(out@ =~= login_header() + login_payload(account@, account.spec_bytes().len(),
            password@, password.spec_bytes().len(), timestamp));
    }
    set_size_and_placeholder(&out)
}

/// Compute `login_request_length_spec` (it fits: both strings are far shorter than 2^30 bytes).
pub fn login_request_length(account_len: usize, password_len: usize) -> (r: u32)
    requires
        account_len < 0x4000_0000,
        password_len < 0x4000_0000,
    ensures
        r == login_request_length_spec(account_len as nat, password_len as nat),
{
    let a: u64 = 2 + account_len as u64;
    let account_size: u64 = a + (4 - a % 4) % 4;
    let packed: u64 = if password_len > 255 { 2 } else { 1 };
    let d: u64 = packed + password_len as u64;
    let password_size: u64 = 4 + d + (4 - d % 4) % 4;
    (12 + account_size + 4 + password_size) as u32
}

impl Client {
    /// The effect of handing `packet` to the sender with these flags: the
    /// result, and the client after it.
    pub open spec fn send_effect(self, packet: C2sPacket, include_sequence: bool, increment_sequence: bool,
        now: Instant, delay_ms: u64, r: Result<C2sPacket, ServerNotResponding>, post: Client) -> bool
    {
        let send_count = if increment_sequence { (self.send_count + 1) as u32 } else { self.send_count };
        let unacked = (self.unacked_send_count + 1) as u32;
        if unacked >= crate::client::MAX_UNACKED_SENDS {
            &&& r is Err
            &&& (Client { send_count, unacked_send_count: unacked, ..self }).disconnect_effect(now, delay_ms, post)
        } else {
            let sequenced = C2sPacket { sequence: if include_sequence { send_count } else { 0 }, ..packet };
            &&& r is Ok
            &&& if self.recv_count > self.last_ack_sent {
                    &&& r->Ok_0 == (C2sPacket {
                            ack_sequence: Some(self.recv_count),
                            flags: sequenced.flags | FLAG_ACK_SEQUENCE,
                            ..sequenced
                        })
                    &&& post == (Client { send_count, unacked_send_count: unacked, last_ack_sent: self.recv_count, ..self })
                } else {
                    &&& r->Ok_0 == sequenced
                    &&& post == (Client { send_count, unacked_send_count: unacked, ..self })
                }
        }
    }

    /// Hand `packet` to the sender at `now`: number it (counting it first when
    /// `increment_sequence`, and writing the count into it when
    /// `include_sequence`, else zero), count it as unanswered, and piggyback
    /// an acknowledgement of the newest server packet not yet acknowledged.
    /// When too many packets went unanswered the connection counts as lost
    /// (`delay_ms` being the backoff of the next attempt) and nothing is sent.
    pub fn prepare_send_at(&mut self, packet: C2sPacket, include_sequence: bool, increment_sequence: bool,
        now: Instant, delay_ms: u64) -> (r: Result<C2sPacket, ServerNotResponding>)
        requires
            increment_sequence ==> old(self).send_count < u32::MAX,
            old(self).unacked_send_count < u32::MAX,
            old(self).reconnect_attempt_count < u32::MAX,
        ensures
            old(self).send_effect(packet, include_sequence, increment_sequence, now, delay_ms, r, *final(self)),
    {
        if increment_sequence {
            self.send_count = self.send_count + 1;
        }
        let mut packet = packet;
        packet.sequence = if include_sequence { self.send_count } else { 0 };
        self.unacked_send_count = self.unacked_send_count + 1;
        if self.unacked_send_count >= crate::client::MAX_UNACKED_SENDS {
            self.enter_disconnected_at(now, delay_ms);
            return Err(ServerNotResponding);
        }
        if self.recv_count > self.last_ack_sent {
            let ack = self.recv_count;
            packet = packet.with_ack_sequence(ack);
            self.last_ack_sent = ack;
        }
        Ok(packet)
    }

    /// The port a packet goes to: the world port for the ConnectResponse, the
    /// login port for everything else.
    pub fn packet_port(&self, packet: &C2sPacket) -> (r: u16)
        ensures
            r == (if packet.flags & FLAG_CONNECT_RESPONSE != 0 { self.server.world_port } else { self.server.login_port }),
    {
        if packet.flags & FLAG_CONNECT_RESPONSE != 0 { self.server.world_port } else { self.server.login_port }
    }

    /// The channel a packet goes out on: the world server for the
    /// ConnectResponse, the login server for everything else.
    pub fn packet_channel(&self, packet: &C2sPacket) -> (r: TransportChannel)
        ensures
            r == (if packet.flags & FLAG_CONNECT_RESPONSE != 0 { TransportChannel::World } else { TransportChannel::Login }),
    {
        if packet.flags & FLAG_CONNECT_RESPONSE != 0 { TransportChannel::World } else { TransportChannel::Login }
    }

    /// The ConnectResponse: the session's cookie, to its client id and table,
    /// sent at `now` without a sequence number.
    pub fn connect_response_packet_at(&mut self, now: Instant, delay_ms: u64) -> (r: Result<C2sPacket, ServerNotResponding>)
        requires
            old(self).session.connection is Some,
            old(self).unacked_send_count < u32::MAX,
            old(self).reconnect_attempt_count < u32::MAX,
        ensures
            old(self).send_effect(C2sPacket {
                sequence: 0,
                flags: FLAG_CONNECT_RESPONSE,
                checksum: 0,
                recipient_id: old(self).session.connection->0.client_id,
                time_since_last_packet: 0,
                size: 8,
                iteration: old(self).session.connection->0.table,
                ack_sequence: None,
                connect_response: Some(old(self).session.connection->0.cookie),
                time: None,
                fragments: None,
            }, false, false, now, delay_ms, r, *final(self)),
    {
        let (cookie, client_id, table) = match &self.session.connection {
            Some(c) => (c.cookie, c.client_id, c.table),
            None => (0, 0, 0),
        };
        let packet = C2sPacket {
            sequence: 0,
            flags: FLAG_CONNECT_RESPONSE,
            checksum: 0,
            recipient_id: client_id,
            time_since_last_packet: 0,
            size: 8,
            iteration: table,
            ack_sequence: None,
            connect_response: Some(cookie),
            time: None,
            fragments: None,
        };
        self.prepare_send_at(packet, false, false, now, delay_ms)
    }

    /// The ConnectResponse went out at `now`: the connecting scene restarts
    /// its timers for the patching phase after showing 100%, and the
    /// connection is reported established.
    pub fn on_connect_response_sent_at(&mut self, now: Instant)
        ensures
            final(self).scene == (match old(self).scene {
                Scene::Connecting(_) => Scene::Connecting(ConnectingScene::new_at_spec(now)),
                other => other,
            }),
            final(self).events@ == (match old(self).scene {
                Scene::Connecting(_) => old(self).events@
                    .push(ClientEvent::Game(SimpleGameEvent::ConnectingSetProgress { percent: 100 })),
                _ => old(self).events@,
            }).push(ClientEvent::State(ClientStateEvent::Connected)),
            *final(self) == (Client { scene: final(self).scene, events: final(self).events, ..*old(self) }),
    {
        if let Scene::Connecting(ref mut s) = self.scene {
            s.connect_progress = ConnectingProgress::ConnectResponseSent;
            s.patch_progress = crate::scene::PatchingProgress::WaitingForDDD;
            s.reset_at(now);
            self.events.push(ClientEvent::Game(SimpleGameEvent::ConnectingSetProgress { percent: 100 }));
        }
        self.events.push(ClientEvent::State(ClientStateEvent::Connected));
    }

    /// The TimeSync keep-alive at `now` (its time field is `now` in seconds
    /// since the epoch), without a sequence number; `None` without a connection.
    pub fn keepalive_packet_at(&mut self, now: Instant, delay_ms: u64) -> (r: Option<Result<C2sPacket, ServerNotResponding>>)
        requires
            old(self).unacked_send_count < u32::MAX,
            old(self).reconnect_attempt_count < u32::MAX,
        ensures
            old(self).session.connection is None ==> r is None && *final(self) == *old(self),
            old(self).session.connection matches Some(c) ==> r matches Some(res)
                && old(self).send_effect(C2sPacket {
                    sequence: 0,
                    flags: FLAG_TIME_SYNC,
                    checksum: 0,
                    recipient_id: if c.client_id > 0 { c.client_id } else { 0 },
                    time_since_last_packet: 0,
                    size: 8,
                    iteration: if c.client_id > 0 { c.table } else { 0 },
                    ack_sequence: None,
                    connect_response: None,
                    time: Some(now.millis / 1000),
                    fragments: None,
                }, false, false, now, delay_ms, res, *final(self)),
    {
        let (client_id, table) = match &self.session.connection {
            Some(c) => (c.client_id, c.table),
            None => return None,
        };
        let (recipient_id, iteration) = if client_id > 0 { (client_id, table) } else { (0, 0) };
        let packet = C2sPacket {
            sequence: 0,
            flags: FLAG_TIME_SYNC,
            checksum: 0,
            recipient_id,
            time_since_last_packet: 0,
            size: 8,
            iteration,
            ack_sequence: None,
            connect_response: None,
            time: Some(now.millis / 1000),
            fragments: None,
        };
        Some(self.prepare_send_at(packet, false, false, now, delay_ms))
    }

    /// The effect of wrapping `data` in a fragment of `group`.
    pub open spec fn fragment_send_effect(self, data: Seq<u8>, group: u16, r: C2sPacket, post: Client) -> bool {
        let c = self.session.connection->0;
        let seq = (self.send_count + 1) as u32;
        let ack = self.recv_count > self.last_ack_sent;
        &&& r.sequence == seq
        &&& r.flags == (if ack { FLAG_BLOB_FRAGMENTS | FLAG_ACK_SEQUENCE } else { FLAG_BLOB_FRAGMENTS })
        &&& r.checksum == 0
        &&& r.recipient_id == c.client_id
        &&& r.time_since_last_packet == 0
        &&& r.size == 0
        &&& r.iteration == c.table
        &&& r.ack_sequence == (if ack { Some(self.recv_count) } else { None })
        &&& r.connect_response is None
        &&& r.time is None
        &&& r.fragments matches Some(f) && f.sequence == self.fragment_sequence && f.id == GAME_MESSAGE_FRAGMENT_ID
                && f.count == 1 && f.size == ((16 + data.len()) % 0x10000) as u16 && f.index == 0 && f.group == group
                && f.data@ == data
        &&& post == (Client {
                fragment_sequence: (self.fragment_sequence + 1) as u32,
                send_count: seq,
                last_ack_sent: if ack { self.recv_count } else { self.last_ack_sent },
                ..self
            })
    }

    /// Wrap a message in a single fragment of `group` and a sequenced packet,
    /// acknowledging the newest server packet if needed. The fragment's size
    /// (header and data) is kept in sixteen bits, wrapping as the protocol's
    /// field does; the packet's size and checksum are filled in when it is written.
    pub fn fragment_packet(&mut self, data: Vec<u8>, group: u16) -> (r: C2sPacket)
        requires
            old(self).session.connection is Some,
            old(self).fragment_sequence < u32::MAX,
            old(self).send_count < u32::MAX,
        ensures
            old(self).fragment_send_effect(data@, group, r, *final(self)),
    {
        let frag_sequence = self.fragment_sequence;
        self.fragment_sequence = self.fragment_sequence + 1;
        let low: usize = data.len() % 0x10000;
        let fragment_size = ((FRAGMENT_HEADER_SIZE + low) % 0x10000) as u16;
        proof {
            let n = data@.len() as int;
            assert((16 + n % 0x10000) % 0x10000 == (16 + n) % 0x10000) by (nonlinear_arith)
                requires n >= 0;
        }
        let ghost data_view = data@;
        let blob = BlobFragment {
            sequence: frag_sequence,
            id: GAME_MESSAGE_FRAGMENT_ID,
            count: 1,
            size: fragment_size,
            index: 0,
            group,
            data,
        };
        let (client_id, table) = match &self.session.connection {
            Some(c) => (c.client_id, c.table),
            None => (0, 0),
        };
        self.send_count = self.send_count + 1;
        let packet = C2sPacket {
            sequence: self.send_count,
            flags: FLAG_BLOB_FRAGMENTS,
            checksum: 0,
            recipient_id: client_id,
            time_since_last_packet: 0,
            size: 0,
            iteration: table,
            ack_sequence: None,
            connect_response: None,
            time: None,
            fragments: Some(blob),
        };
        if self.recv_count > self.last_ack_sent {
            let ack = self.recv_count;
            self.last_ack_sent = ack;
            packet.with_ack_sequence(ack)
        } else {
            packet
        }
    }

    /// The packet for an outgoing message: its bytes in one game-message fragment.
    pub fn outgoing_packet(&mut self, content: &OutgoingMessageContent) -> (r: C2sPacket)
        requires
            old(self).session.connection is Some,
            old(self).fragment_sequence < u32::MAX,
            old(self).send_count < u32::MAX,
        ensures
            old(self).fragment_send_effect(outgoing_bytes(*content), FRAGMENT_GROUP_OBJECT, r, *final(self)),
    {
        let data = outgoing_message_data(content);
        self.fragment_packet(data, FRAGMENT_GROUP_OBJECT)
    }

    /// The account name a LoginRequest carries: the configured name in lower case.
    pub fn login_account(&self) -> (r: String)
        ensures
            r@ == unicode_lowercase(self.account.name@),
    {
        to_lowercase(&self.account.name)
    }

    /// The LoginRequest went out (unsequenced, but counted): a connecting
    /// scene that had made no progress shows it sent (33%).
    pub fn on_login_request_sent(&mut self)
        requires
            old(self).send_count < u32::MAX,
        ensures
            final(self).send_count == old(self).send_count + 1,
            match old(self).scene {
                Scene::Connecting(s) if s.connect_progress == ConnectingProgress::Initial => {
                    &&& final(self).scene == Scene::Connecting(ConnectingScene { connect_progress: ConnectingProgress::LoginRequestSent, ..s })
                    &&& final(self).events@ == old(self).events@.push(ClientEvent::Game(SimpleGameEvent::ConnectingSetProgress { percent: 33 }))
                },
                _ => final(self).scene == old(self).scene && final(self).events == old(self).events,
            },
            *final(self) == (Client { send_count: final(self).send_count, scene: final(self).scene, events: final(self).events, ..*old(self) }),
    {
        self.send_count = self.send_count + 1;
        let initial = match &self.scene {
            Scene::Connecting(s) => s.connect_progress == ConnectingProgress::Initial,
            _ => false,
        };
        if initial {
            self.update_connect_progress(ConnectingProgress::LoginRequestSent);
            self.events.push(ClientEvent::Game(SimpleGameEvent::ConnectingSetProgress { percent: 33 }));
        }
    }
}

} // verus!