//! The client's protocol state machine. Everything that touches the network,
//! the clock or a channel happens outside: the caller hands in the current
//! time, received packets and actions, and takes out the events, the messages
//! ready to send and the packets to put on the wire.

use vstd::prelude::*;
use std::collections::VecDeque;
use vstd::string::*;
use crate::config::ReconnectConfig;
use crate::connection::{ServerInfo, parse_address, before_colon, address_port};
use crate::events::{
    CharacterIdentity, ClientEvent, ClientStateEvent, ClientSystemEvent, SimpleClientAction,
    SimpleGameEvent, character_infos, infos_of,
};
use crate::fragments::{PendingFragments, RawMessage};
use crate::instant::Instant;
use crate::protocol::{login_complete_action, talk_action, tell_action,
    login_complete_action_bytes, talk_action_bytes, tell_action_bytes};
use crate::queue::{OutgoingMessage, OutgoingMessageContent, sat_add};
use crate::scene::{
    CharacterCreateScene, CharacterSelectScene, ClientError, ConnectingProgress, ConnectingScene,
    EnteringWorldState, ErrorScene, InWorldScene, PatchingProgress, Scene,
};
use crate::session::{Account, ClientSession, SessionMetadata, SessionState};
use crate::text::{decimal, u64_to_decimal};
use crate::wire::{u32_le, ac_string_bytes};

verus! {

/// Sends without hearing from the server after which the connection counts as dead.
pub const MAX_UNACKED_SENDS: u32 = 20;
/// How long the connecting or patching phase may last, in milliseconds.
pub const STATE_TIMEOUT_MS: u64 = 20000;
/// How often a lost LoginRequest is retried, in milliseconds.
pub const RETRY_INTERVAL_MS: u64 = 2000;
/// Delay that makes connection progress visible in the UI, in milliseconds.
pub const UI_DELAY_MS: u64 = 1000;
/// The character error code by which the server announces it is going down.
pub const SERVER_CRASH_ERROR: u32 = 4;
/// The chat type of system messages.
pub const SYSTEM_MESSAGE_TYPE: u32 = 5;

/// Why a character login could not be started.
#[derive(Clone, Copy, Debug, PartialEq, Eq, Structural)]
pub enum LoginAttemptError {
    /// The character select screen is not showing.
    NotInCharacterSelect,
    /// A login is already in progress.
    AlreadyInProgress,
}

/// The DDD response cannot be retried because none was cached.
#[derive(Clone, Copy, Debug, PartialEq, Eq, Structural)]
pub struct NoDddResponse;

/// The client's whole protocol state.
pub struct Client {
    pub id: u32,
    pub server: ServerInfo,
    pub account: Account,
    /// Protocol state and metadata.
    pub session: ClientSession,
    /// What the user sees.
    pub scene: Scene,
    pub send_count: u32,
    pub recv_count: u32,
    /// The last server sequence acknowledged to the server.
    pub last_ack_sent: u32,
    /// Sends since the server was last heard from.
    pub unacked_send_count: u32,
    /// The next outgoing fragment sequence.
    pub fragment_sequence: u32,
    /// The next game action sequence.
    pub next_game_action_sequence: u32,
    /// Messages waiting to be sent, in order.
    pub outgoing_message_queue: VecDeque<OutgoingMessage>,
    /// Server messages reassembled and waiting to be handled, oldest first.
    pub message_queue: VecDeque<RawMessage>,
    /// Server messages still being reassembled from fragments.
    pub pending_fragments: PendingFragments,
    /// Events emitted and not yet taken, in order.
    pub events: Vec<ClientEvent>,
    /// Events to deliver after the UI delay, in order.
    pub delayed_events: Vec<ClientEvent>,
    /// The DDD response, kept for retries.
    pub ddd_response: Option<OutgoingMessageContent>,
    /// The last character list received.
    pub known_characters: Vec<CharacterIdentity>,
    pub reconnect_config: ReconnectConfig,
    /// Reconnection attempts so far; survives scene changes.
    pub reconnect_attempt_count: u32,
    /// When to reconnect, while waiting to.
    pub reconnect_at: Option<Instant>,
    /// Character to log in automatically once the list arrives.
    pub character: Option<String>,
    /// Automatic login waiting to be processed.
    pub pending_auto_login: Option<SimpleClientAction>,
}

/// The reconnection policy a client starts with.
pub open spec fn initial_reconnect_config(enabled: bool) -> ReconnectConfig {
    ReconnectConfig { enabled, max_attempts: 0, initial_delay_secs: 10, max_delay_secs: 600 }
}

/// The state event announcing a scene, if the scene has one.
pub open spec fn scene_event(scene: Scene) -> Option<ClientStateEvent> {
    match scene {
        Scene::Connecting(_) => Some(ClientStateEvent::Connecting),
        Scene::CharacterSelect(_) => Some(ClientStateEvent::CharacterSelect),
        Scene::InWorld(_) => Some(ClientStateEvent::InWorld),
        Scene::Error(_) => Some(ClientStateEvent::CharacterError),
        Scene::CharacterCreate(_) => None,
    }
}

/// `events` after announcing `scene`.
pub open spec fn with_scene_event(events: Seq<ClientEvent>, scene: Scene) -> Seq<ClientEvent> {
    match scene_event(scene) {
        Some(e) => events.push(ClientEvent::State(e)),
        None => events,
    }
}

/// Whether some message of `q` may be sent at `now`.
pub open spec fn any_ready(q: Seq<OutgoingMessage>, now: Instant) -> bool {
    exists|i: int| 0 <= i < q.len() && #[trigger] q[i].ready_at(now)
}

/// The messages of `q` that may be sent at `now`, in order.
pub open spec fn ready_messages(q: Seq<OutgoingMessage>, now: Instant) -> Seq<OutgoingMessage>
    decreases q.len(),
{
    if q.len() == 0 {
        q
    } else if q.last().ready_at(now) {
        ready_messages(q.drop_last(), now).push(q.last())
    } else {
        ready_messages(q.drop_last(), now)
    }
}

/// The messages of `q` that must still wait at `now`, in order.
pub open spec fn waiting_messages(q: Seq<OutgoingMessage>, now: Instant) -> Seq<OutgoingMessage>
    decreases q.len(),
{
    if q.len() == 0 {
        q
    } else if !q.last().ready_at(now) {
        waiting_messages(q.drop_last(), now).push(q.last())
    } else {
        waiting_messages(q.drop_last(), now)
    }
}

/// `q` with one more message to send at once, holding `bytes` as a game action.
pub open spec fn queued_game_action(old_q: Seq<OutgoingMessage>, new_q: Seq<OutgoingMessage>, bytes: Seq<u8>) -> bool {
    &&& new_q.len() == old_q.len() + 1
    &&& new_q.drop_last() == old_q
    &&& new_q.last().deadline is None
    &&& new_q.last().content matches OutgoingMessageContent::GameAction(b) && b@ == bytes
}

/// What a character login in progress shows on the select screen, if any.
pub open spec fn entering_of(scene: Scene) -> Option<EnteringWorldState> {
    match scene {
        Scene::CharacterSelect(s) => s.entering_world,
        _ => None,
    }
}

/// `"<sender> says, \"<message>\""`.
pub open spec fn says_text(sender: Seq<char>, message: Seq<char>) -> Seq<char> {
    sender + " says, \""@ + message + "\""@
}

/// `"<sender> tells you, \"<message>\""`.
pub open spec fn tells_text(sender: Seq<char>, message: Seq<char>) -> Seq<char> {
    sender + " tells you, \""@ + message + "\""@
}

/// The error screen for a connection failure with message `msg`, without retry.
pub open spec fn failed_for_good(scene: Scene, msg: Seq<char>) -> bool {
    scene matches Scene::Error(ErrorScene { error: ClientError::ConnectionFailed(m), can_retry: false }) && m@ == msg
}

/// An authentication failure event with the given reason.
pub open spec fn is_auth_failed(e: ClientEvent, reason: Seq<char>) -> bool {
    e matches ClientEvent::System(ClientSystemEvent::AuthenticationFailed { reason: r }) && r@ == reason
}

/// `"Max reconnection attempts (<n>) reached"`.
pub open spec fn max_attempts_text(n: u32) -> Seq<char> {
    "Max reconnection attempts ("@ + decimal(n as nat) + ") reached"@
}

impl Client {
    /// The effect of a successful `attempt_character_login` or of nothing, by the outcome.
    pub open spec fn login_attempt_effect(self, character_id: u32, character_name: String, account: String, post: Client, ok: bool) -> bool {
        if !(self.scene is CharacterSelect) || entering_of(self.scene) is Some {
            !ok && post == self
        } else {
            &&& ok
            &&& post == (Client { outgoing_message_queue: post.outgoing_message_queue, scene: post.scene, ..self })
            &&& post.outgoing_message_queue@.len() == self.outgoing_message_queue@.len() + 1
            &&& post.outgoing_message_queue@.drop_last() == self.outgoing_message_queue@
            &&& post.outgoing_message_queue@.last().deadline is None
            &&& post.outgoing_message_queue@.last().content is EnterWorldRequest
            &&& post.scene == Scene::CharacterSelect(CharacterSelectScene {
                    entering_world: Some(EnteringWorldState { character_id, character_name, account, login_complete: false }),
                    ..self.scene->CharacterSelect_0
                })
        }
    }

    /// The effect of `send_login_complete_notification`.
    pub open spec fn login_complete_effect(self, post: Client) -> bool {
        match entering_of(self.scene) {
            Some(e) if !e.login_complete => {
                &&& post == (Client {
                        outgoing_message_queue: post.outgoing_message_queue,
                        events: post.events,
                        scene: Scene::InWorld(InWorldScene { character_id: e.character_id, character_name: e.character_name }),
                        next_game_action_sequence: (self.next_game_action_sequence + 1) as u32,
                        ..self
                    })
                &&& queued_game_action(self.outgoing_message_queue@, post.outgoing_message_queue@,
                        login_complete_action(self.next_game_action_sequence))
                &&& post.events@ == self.events@.push(ClientEvent::Game(SimpleGameEvent::LoginSucceeded {
                        character_id: e.character_id,
                        character_name: e.character_name,
                    }))
            },
            _ => post == self,
        }
    }

    /// The effect of `send_chat_say`.
    pub open spec fn chat_say_effect(self, message: Seq<char>, post: Client) -> bool {
        &&& post == (Client {
                outgoing_message_queue: post.outgoing_message_queue,
                next_game_action_sequence: (self.next_game_action_sequence + 1) as u32,
                ..self
            })
        &&& queued_game_action(self.outgoing_message_queue@, post.outgoing_message_queue@,
                talk_action(self.next_game_action_sequence, message))
    }

    /// The effect of `send_chat_tell`.
    pub open spec fn chat_tell_effect(self, recipient: Seq<char>, message: Seq<char>, post: Client) -> bool {
        &&& post == (Client {
                outgoing_message_queue: post.outgoing_message_queue,
                next_game_action_sequence: (self.next_game_action_sequence + 1) as u32,
                ..self
            })
        &&& queued_game_action(self.outgoing_message_queue@, post.outgoing_message_queue@,
                tell_action(self.next_game_action_sequence, message, recipient))
    }

    /// The effect of processing one action.
    pub open spec fn action_effect(self, action: SimpleClientAction, post: Client) -> bool {
        match action {
            SimpleClientAction::Disconnect => post == (Client {
                scene: Scene::Error(ErrorScene {
                    error: ClientError::ConnectionFailed(post.scene->Error_0.error->ConnectionFailed_0),
                    can_retry: true,
                }),
                ..self
            }) && post.scene->Error_0.error->ConnectionFailed_0@ == "Disconnected by client action"@,
            SimpleClientAction::LoginCharacter { character_id, character_name, account } =>
                exists|ok: bool| self.login_attempt_effect(character_id, character_name, account, post, ok),
            SimpleClientAction::SendLoginComplete => self.login_complete_effect(post),
            SimpleClientAction::SendChatSay { message } => self.chat_say_effect(message@, post),
            SimpleClientAction::SendChatTell { recipient_name, message } =>
                self.chat_tell_effect(recipient_name@, message@, post),
            _ => post == self,
        }
    }

    /// Whether this is a client just made for the server at `address`, with
    /// these credentials and options, at `now`.
    pub open spec fn starts_as(self, id: u32, address: Seq<char>, name: String, password: String,
        character: Option<String>, reconnect_enabled: bool, now: Instant) -> bool
    {
        &&& self.id == id
        &&& self.server.host@ == before_colon(address)
        &&& self.server.login_port == address_port(address)
        &&& self.server == ServerInfo::new_spec(self.server.host, self.server.login_port)
        &&& self.account == (Account { name, password })
        &&& self.session.state == SessionState::AuthLoginRequest
        &&& self.session.metadata.started_at == Some(now)
        &&& self.session.connection is None
        &&& self.scene == Scene::Connecting(ConnectingScene::new_at_spec(now))
        &&& self.send_count == 0
        &&& self.recv_count == 0
        &&& self.last_ack_sent == 0
        &&& self.unacked_send_count == 0
        &&& self.fragment_sequence == 1
        &&& self.next_game_action_sequence == 0
        &&& self.outgoing_message_queue@.len() == 0
        &&& self.message_queue@.len() == 0
        &&& self.pending_fragments.keys() == Set::<u32>::empty()
        &&& self.events@.len() == 0
        &&& self.delayed_events@.len() == 0
        &&& self.ddd_response is None
        &&& self.known_characters@.len() == 0
        &&& self.reconnect_config == initial_reconnect_config(reconnect_enabled)
        &&& self.reconnect_attempt_count == 0
        &&& self.reconnect_at is None
        &&& self.character == character
        &&& self.pending_auto_login is None
    }

    /// A client for the server at `address` (host, then optionally `:port`,
    /// 9000 when absent or unparsable), started at `now`.
    pub fn new_at(
        id: u32,
        address: &str,
        name: String,
        password: String,
        character: Option<String>,
        reconnect_enabled: bool,
        now: Instant,
    ) -> (r: Client)
        ensures
            r.starts_as(id, address@, name, password, character, reconnect_enabled, now),
    {
        let (host, login_port) = parse_address(address);
        let reconnect_config = if reconnect_enabled {
            ReconnectConfig { enabled: true, ..ReconnectConfig::default() }
        } else {
            ReconnectConfig::default()
        };
        Client {
            id,
            server: ServerInfo::new(host, login_port),
            account: Account { name, password },
            session: ClientSession::new_at(SessionState::AuthLoginRequest, now),
            scene: Scene::Connecting(ConnectingScene::new_at(now)),
            send_count: 0,
            recv_count: 0,
            last_ack_sent: 0,
            unacked_send_count: 0,
            fragment_sequence: 1,
            next_game_action_sequence: 0,
            outgoing_message_queue: VecDeque::new(),
            message_queue: VecDeque::new(),
            pending_fragments: PendingFragments::new(),
            events: Vec::new(),
            delayed_events: Vec::new(),
            ddd_response: None,
            known_characters: Vec::new(),
            reconnect_config,
            reconnect_attempt_count: 0,
            reconnect_at: None,
            character,
            pending_auto_login: None,
        }
    }

    /// A client for the server at `address`, started at the current time.
    pub fn new(
        id: u32,
        address: &str,
        name: String,
        password: String,
        character: Option<String>,
        reconnect_enabled: bool,
    ) -> (r: Client)
        ensures
            exists|now: Instant| #[trigger] r.starts_as(id, address@, name, password, character, reconnect_enabled, now),
    {
        let now = Instant::now();
        let r = Self::new_at(id, address, name, password, character, reconnect_enabled, now);
        assert(r.starts_as(id, address@, name, password, character, reconnect_enabled, now));
        r
    }

    /// The client id.
    pub fn client_id(&self) -> (r: u32)
        ensures
            r == self.id,
    {
        self.id
    }

    /// Hand out the events emitted so far, oldest first.
    pub fn take_events(&mut self) -> (r: Vec<ClientEvent>)
        ensures
            r@ == old(self).events@,
            *final(self) == (Client { events: final(self).events, ..*old(self) }),
            final(self).events@.len() == 0,
    {
        let mut taken = Vec::new();
        std::mem::swap(&mut taken, &mut self.events);
        taken
    }

    /// Hand out the events due after the UI delay, oldest first.
    pub fn take_delayed_events(&mut self) -> (r: Vec<ClientEvent>)
        ensures
            r@ == old(self).delayed_events@,
            *final(self) == (Client { delayed_events: final(self).delayed_events, ..*old(self) }),
            final(self).delayed_events@.len() == 0,
    {
        let mut taken = Vec::new();
        std::mem::swap(&mut taken, &mut self.delayed_events);
        taken
    }

    /// The current scene.
    pub fn get_scene(&self) -> (r: &Scene)
        ensures
            *r == self.scene,
    {
        &self.scene
    }


    // ========== Outgoing queue ==========

    /// Whether some queued message may be sent at `now`.
    pub fn has_pending_outgoing_messages_at(&self, now: Instant) -> (r: bool)
        ensures
            r == exists|i: int| 0 <= i < self.outgoing_message_queue@.len()
                && #[trigger] self.outgoing_message_queue@[i].ready_at(now),
    {
        let mut i: usize = 0;
        while i < self.outgoing_message_queue.len()
            invariant
                i <= self.outgoing_message_queue@.len(),
                forall|j: int| 0 <= j < i ==> !#[trigger] self.outgoing_message_queue@[j].ready_at(now),
            decreases self.outgoing_message_queue@.len() - i,
        {
            if self.outgoing_message_queue[i].is_ready_at(now) {
                return true;
            }
            i = i + 1;
        }
        false
    }

    /// Whether some queued message may be sent now.
    pub fn has_pending_outgoing_messages(&self) -> (r: bool)
        ensures
            exists|now: Instant| r == #[trigger] any_ready(self.outgoing_message_queue@, now),
    {
        let now = Instant::now();
        let r = self.has_pending_outgoing_messages_at(now);
        assert(r == any_ready(self.outgoing_message_queue@, now));
        r
    }

    /// Take the messages that may be sent at `now`, in queue order; the
    /// others stay queued, in their order.
    pub fn take_ready_messages_at(&mut self, now: Instant) -> (r: Vec<OutgoingMessage>)
        ensures
            r@ == ready_messages(old(self).outgoing_message_queue@, now),
            final(self).outgoing_message_queue@ == waiting_messages(old(self).outgoing_message_queue@, now),
            *final(self) == (Client { outgoing_message_queue: final(self).outgoing_message_queue, ..*old(self) }),
    {
        let mut pending: VecDeque<OutgoingMessage> = VecDeque::new();
        std::mem::swap(&mut pending, &mut self.outgoing_message_queue);
        let ghost q = pending@;
        let mut ready: Vec<OutgoingMessage> = Vec::new();
        let mut waiting: VecDeque<OutgoingMessage> = VecDeque::new();
        let ghost mut k: int = 0;
        while pending.len() > 0
            invariant
                0 <= k <= q.len(),
                pending@ == q.skip(k),
                ready@ == ready_messages(q.take(k), now),
                waiting@ == waiting_messages(q.take(k), now),
            decreases pending.len(),
        {
            let m = pending.pop_front().unwrap();
            proof {
                assert(m == q[k]);
                assert(q.take(k + 1).drop_last() == q.take(k));
                assert(q.take(k + 1).last() == q[k]);
            }
            if m.is_ready_at(now) {
                ready.push(m);
            } else {
                waiting.push_back(m);
            }
            proof {
                k = k + 1;
                assert(pending@ =~= q.skip(k));
            }
        }
        proof { assert(q.take(k) == q); }
        self.outgoing_message_queue = waiting;
        ready
    }

    /// Take the messages that may be sent now.
    pub fn take_ready_messages(&mut self) -> (r: Vec<OutgoingMessage>)
        ensures
            exists|now: Instant| r@ == #[trigger] ready_messages(old(self).outgoing_message_queue@, now)
                && final(self).outgoing_message_queue@ == waiting_messages(old(self).outgoing_message_queue@, now),
            *final(self) == (Client { outgoing_message_queue: final(self).outgoing_message_queue, ..*old(self) }),
    {
        let now = Instant::now();
        let r = self.take_ready_messages_at(now);
        assert(r@ == ready_messages(old(self).outgoing_message_queue@, now));
        r
    }

    /// Queue a message to send at once.
    pub fn queue_message(&mut self, content: OutgoingMessageContent)
        ensures
            final(self).outgoing_message_queue@ == old(self).outgoing_message_queue@.push(OutgoingMessage { content, deadline: None }),
            *final(self) == (Client { outgoing_message_queue: final(self).outgoing_message_queue, ..*old(self) }),
    {
        self.outgoing_message_queue.push_back(OutgoingMessage::new(content));
    }

    // ========== Character login ==========

    /// Queue the character login request and start entering the world, when
    /// the select screen is showing and no login is in progress.
    pub fn attempt_character_login(&mut self, character_id: u32, character_name: String, account: String)
        -> (r: Result<(), LoginAttemptError>)
        ensures
            old(self).login_attempt_effect(character_id, character_name, account, *final(self), r is Ok),
            !(old(self).scene is CharacterSelect) ==> r == Err::<(), LoginAttemptError>(LoginAttemptError::NotInCharacterSelect),
            (old(self).scene is CharacterSelect && entering_of(old(self).scene) is Some)
                ==> r == Err::<(), LoginAttemptError>(LoginAttemptError::AlreadyInProgress),
    {
        let entering = match &self.scene {
            Scene::CharacterSelect(s) => s.is_entering_world(),
            _ => {
                return Err(LoginAttemptError::NotInCharacterSelect);
            },
        };
        if entering {
            return Err(LoginAttemptError::AlreadyInProgress);
        }
        self.outgoing_message_queue.push_back(OutgoingMessage::new(OutgoingMessageContent::EnterWorldRequest));
        proof { assert(self.outgoing_message_queue@.drop_last() =~= old(self).outgoing_message_queue@); }
        if let Scene::CharacterSelect(ref mut s) = self.scene {
            s.begin_entering_world(character_id, character_name, account);
        }
        Ok(())
    }

    /// Once the world is loading: queue the LoginComplete notification, report
    /// the login as succeeded and show the world. Does nothing unless a login
    /// is in progress and not yet complete.
    pub fn send_login_complete_notification(&mut self)
        requires
            old(self).next_game_action_sequence < u32::MAX,
        ensures
            old(self).login_complete_effect(*final(self)),
    {
        let (character_id, character_name) = match &self.scene {
            Scene::CharacterSelect(s) => match &s.entering_world {
                Some(e) => {
                    if e.login_complete {
                        return;
                    }
                    (e.character_id, e.character_name.clone())
                },
                None => {
                    return;
                },
            },
            _ => {
                return;
            },
        };
        let data = login_complete_action_bytes(self.next_game_action_sequence);
        self.next_game_action_sequence = self.next_game_action_sequence + 1;
        self.outgoing_message_queue.push_back(OutgoingMessage::new(OutgoingMessageContent::GameAction(data)));
        proof { assert(self.outgoing_message_queue@.drop_last() =~= old(self).outgoing_message_queue@); }
        self.events.push(ClientEvent::Game(SimpleGameEvent::LoginSucceeded {
            character_id,
            character_name: character_name.clone(),
        }));
        self.scene = Scene::InWorld(InWorldScene::new(character_id, character_name));
    }

    /// Queue a chat message to everyone nearby.
    pub fn send_chat_say(&mut self, message: String)
        requires
            old(self).next_game_action_sequence < u32::MAX,
        ensures
            old(self).chat_say_effect(message@, *final(self)),
            final(self).outgoing_message_queue@.last().content matches OutgoingMessageContent::GameAction(b)
                && b@ == u32_le(0xF7B1) + u32_le(old(self).next_game_action_sequence) + u32_le(0x15)
                    + ac_string_bytes(message@),
    {
        let data = talk_action_bytes(self.next_game_action_sequence, message.as_str());
        self.next_game_action_sequence = self.next_game_action_sequence + 1;
        self.outgoing_message_queue.push_back(OutgoingMessage::new(OutgoingMessageContent::GameAction(data)));
        proof { assert(self.outgoing_message_queue@.drop_last() =~= old(self).outgoing_message_queue@); }
    }

    /// Queue a direct message to the named player.
    pub fn send_chat_tell(&mut self, recipient_name: String, message: String)
        requires
            old(self).next_game_action_sequence < u32::MAX,
        ensures
            old(self).chat_tell_effect(recipient_name@, message@, *final(self)),
            final(self).outgoing_message_queue@.last().content matches OutgoingMessageContent::GameAction(b)
                && b@ == u32_le(0xF7B1) + u32_le(old(self).next_game_action_sequence) + u32_le(0x5D)
                    + ac_string_bytes(message@) + ac_string_bytes(recipient_name@),
    {
        let data = tell_action_bytes(self.next_game_action_sequence, message.as_str(), recipient_name.as_str());
        self.next_game_action_sequence = self.next_game_action_sequence + 1;
        self.outgoing_message_queue.push_back(OutgoingMessage::new(OutgoingMessageContent::GameAction(data)));
        proof { assert(self.outgoing_message_queue@.drop_last() =~= old(self).outgoing_message_queue@); }
    }

    // ========== Timeouts, retries, reconnection ==========

    /// Whether the connecting scene has lasted the full state timeout at `now`.
    pub open spec fn state_timed_out_at(self, now: Instant) -> bool {
        self.scene matches Scene::Connecting(c) && c.timed_out_at(now, STATE_TIMEOUT_MS)
    }

    /// Handle a connecting or patching phase that has run out of time at
    /// `now`. A reconnection attempt that times out goes back to waiting
    /// (with `next_delay_ms` before the next attempt); a first connection, or
    /// any when reconnection is off, fails for good and returns true.
    /// The effect of `check_state_timeout_at(now, next_delay_ms)` returning `r`
    /// and leaving the client as `post`.
    pub open spec fn state_timeout_effect(self, now: Instant, next_delay_ms: u64, r: bool, post: Client) -> bool {
        &&& !self.state_timed_out_at(now) ==> !r && post == self
        &&& self.state_timed_out_at(now) && self.reconnect_config.enabled && self.reconnect_attempt_count > 0
                ==> !r && self.disconnect_effect(now, next_delay_ms, post)
        &&& self.state_timed_out_at(now) && !(self.reconnect_config.enabled && self.reconnect_attempt_count > 0)
                ==> (r && post.scene == Scene::Error(ErrorScene {
                        error: if self.scene->Connecting_0.patch_progress == PatchingProgress::NotStarted {
                            ClientError::LoginTimeout
                        } else {
                            ClientError::PatchingTimeout
                        },
                        can_retry: false,
                    })
                    && post.events@.len() == self.events@.len() + 1
                    && post.events@.drop_last() == self.events@
                    && is_auth_failed(post.events@.last(), "Connection timeout - server not responding"@)
                    && post == (Client { scene: post.scene, events: post.events, ..self }))
    }

    pub fn check_state_timeout_at(&mut self, now: Instant, next_delay_ms: u64) -> (r: bool)
        requires
            old(self).reconnect_attempt_count < u32::MAX,
        ensures
            old(self).state_timeout_effect(now, next_delay_ms, r, *final(self)),
    {
        let not_started = match &self.scene {
            Scene::Connecting(c) => {
                if !c.has_timed_out_at(now, STATE_TIMEOUT_MS) {
                    return false;
                }
                c.patch_progress == PatchingProgress::NotStarted
            },
            _ => {
                return false;
            },
        };
        if self.reconnect_config.enabled && self.reconnect_attempt_count > 0 {
            self.enter_disconnected_at(now, next_delay_ms);
            false
        } else {
            let error = if not_started { ClientError::LoginTimeout } else { ClientError::PatchingTimeout };
            self.scene = Scene::Error(ErrorScene::new(error, false));
            self.events.push(ClientEvent::System(ClientSystemEvent::AuthenticationFailed {
                reason: String::from_str("Connection timeout - server not responding"),
            }));
            proof { assert(self.events@.drop_last() =~= old(self).events@); }
            true
        }
    }

    /// Handle a phase that has run out of time at the current time.
    pub fn check_state_timeout(&mut self, next_delay_ms: u64) -> (r: bool)
        requires
            old(self).reconnect_attempt_count < u32::MAX,
        ensures
            exists|now: Instant| #[trigger] old(self).state_timeout_effect(now, next_delay_ms, r, *final(self)),
    {
        let now = Instant::now();
        let r = self.check_state_timeout_at(now, next_delay_ms);
        assert(old(self).state_timeout_effect(now, next_delay_ms, r, *self));
        r
    }

    /// Whether server messages wait to be handled.
    pub fn has_messages(&self) -> (r: bool)
        ensures
            r == (self.message_queue@.len() > 0),
    {
        self.message_queue.len() > 0
    }

    /// Whether a LoginRequest retry is due at `now`: only while connecting.
    pub open spec fn retry_due(self, now: Instant) -> bool {
        self.scene matches Scene::Connecting(c) && c.retry_due_at(now, RETRY_INTERVAL_MS)
    }

    /// Whether a LoginRequest retry is due at `now`: only while connecting.
    pub fn should_retry_at(&self, now: Instant) -> (r: bool)
        ensures
            r == (self.scene matches Scene::Connecting(c) && c.retry_due_at(now, RETRY_INTERVAL_MS)),
    {
        match &self.scene {
            Scene::Connecting(c) => c.should_retry_at(now, RETRY_INTERVAL_MS),
            _ => false,
        }
    }

    /// Whether a LoginRequest retry is due now.
    pub fn should_retry(&self) -> (r: bool)
        ensures
            exists|now: Instant| r == #[trigger] self.retry_due(now),
    {
        let now = Instant::now();
        let r = self.should_retry_at(now);
        assert(r == self.retry_due(now));
        r
    }

    /// The client with a retry recorded at `now`, while connecting.
    pub open spec fn retry_recorded(self, now: Instant) -> Client {
        Client {
            scene: match self.scene {
                Scene::Connecting(c) => Scene::Connecting(ConnectingScene { last_retry_at: now, ..c }),
                other => other,
            },
            ..self
        }
    }

    /// Record a retry made at `now`, while connecting.
    pub fn update_retry_time_at(&mut self, now: Instant)
        ensures
            *final(self) == (Client { scene: final(self).scene, ..*old(self) }),
            final(self).scene == (match old(self).scene {
                Scene::Connecting(c) => Scene::Connecting(ConnectingScene { last_retry_at: now, ..c }),
                other => other,
            }),
    {
        if let Scene::Connecting(ref mut c) = self.scene {
            c.update_retry_time_at(now);
        }
    }

    /// Record a retry made now, while connecting.
    pub fn update_retry_time(&mut self)
        ensures
            exists|now: Instant| *final(self) == #[trigger] old(self).retry_recorded(now),
    {
        let now = Instant::now();
        self.update_retry_time_at(now);
        assert(*self == old(self).retry_recorded(now));
    }

    /// Whether the time to reconnect has come at `now`.
    pub open spec fn reconnect_due(self, now: Instant) -> bool {
        self.reconnect_at matches Some(t) && now.millis >= t.millis
    }

    /// Whether the time to reconnect has come at `now`.
    pub fn should_reconnect_at(&self, now: Instant) -> (r: bool)
        ensures
            r == (self.reconnect_at matches Some(t) && now.millis >= t.millis),
    {
        match self.reconnect_at {
            Some(t) => now.millis >= t.millis,
            None => false,
        }
    }

    /// Whether the time to reconnect has come.
    pub fn should_reconnect(&self) -> (r: bool)
        ensures
            exists|now: Instant| r == #[trigger] self.reconnect_due(now),
    {
        let now = Instant::now();
        let r = self.should_reconnect_at(now);
        assert(r == self.reconnect_due(now));
        r
    }

    /// The effect of `enter_disconnected_at(now, delay_ms)`.
    pub open spec fn disconnect_effect(self, now: Instant, delay_ms: u64, post: Client) -> bool {
        &&& post.reconnect_attempt_count == self.reconnect_attempt_count + 1
        &&& post.reconnect_at == Some(Instant { millis: sat_add(now.millis, delay_ms) })
        &&& post.session.connection is None
        &&& post.pending_fragments.keys() == Set::<u32>::empty()
        &&& post.session.state == self.session.state
        &&& post.session.metadata == self.session.metadata
        &&& post.send_count == 0
        &&& post.recv_count == 0
        &&& post.last_ack_sent == 0
        &&& post.unacked_send_count == 0
        &&& post.fragment_sequence == 1
        &&& post.next_game_action_sequence == 0
        &&& post.events@ == self.events@.push(ClientEvent::System(ClientSystemEvent::Disconnected {
                will_reconnect: self.reconnect_config.enabled,
                reconnect_attempt: (self.reconnect_attempt_count + 1) as u32,
                delay_secs: delay_ms / 1000,
            }))
        &&& post == (Client {
                reconnect_attempt_count: post.reconnect_attempt_count,
                reconnect_at: post.reconnect_at,
                session: post.session,
                pending_fragments: post.pending_fragments,
                send_count: 0,
                recv_count: 0,
                last_ack_sent: 0,
                unacked_send_count: 0,
                fragment_sequence: 1,
                next_game_action_sequence: 0,
                events: post.events,
                ..self
            })
    }

    /// The connection is lost at `now`: count the attempt, wait `delay_ms`
    /// (the backoff for this attempt) before reconnecting, drop the session's
    /// connection, reset every sequence counter and report the disconnect.
    pub fn enter_disconnected_at(&mut self, now: Instant, delay_ms: u64)
        requires
            old(self).reconnect_attempt_count < u32::MAX,
        ensures
            old(self).disconnect_effect(now, delay_ms, *final(self)),
    {
        self.reconnect_attempt_count = self.reconnect_attempt_count + 1;
        let at = if now.millis <= u64::MAX - delay_ms { now.millis + delay_ms } else { u64::MAX };
        self.reconnect_at = Some(Instant { millis: at });
        self.session.connection = None;
        self.pending_fragments.clear();
        self.send_count = 0;
        self.recv_count = 0;
        self.last_ack_sent = 0;
        self.unacked_send_count = 0;
        self.fragment_sequence = 1;
        self.next_game_action_sequence = 0;
        self.events.push(ClientEvent::System(ClientSystemEvent::Disconnected {
            will_reconnect: self.reconnect_config.enabled,
            reconnect_attempt: self.reconnect_attempt_count,
            delay_secs: delay_ms / 1000,
        }));
    }

    /// The connection is lost now.
    pub fn enter_disconnected(&mut self, delay_ms: u64)
        requires
            old(self).reconnect_attempt_count < u32::MAX,
        ensures
            exists|now: Instant| #[trigger] old(self).disconnect_effect(now, delay_ms, *final(self)),
    {
        let now = Instant::now();
        self.enter_disconnected_at(now, delay_ms);
        assert(old(self).disconnect_effect(now, delay_ms, *self));
    }

    /// The effect of `start_reconnection_at(now, delay_ms)` returning `r` and
    /// leaving the client as `post`.
    pub open spec fn reconnection_effect(self, now: Instant, delay_ms: u64, r: bool, post: Client) -> bool {
        &&& !self.reconnect_config.enabled ==> (!r
                && failed_for_good(post.scene, "Connection lost and reconnection disabled"@)
                && post == (Client { scene: post.scene, ..self }))
        &&& self.reconnect_config.enabled && !self.reconnect_config.allows_attempt(self.reconnect_attempt_count)
                ==> (!r
                && failed_for_good(post.scene, max_attempts_text(self.reconnect_config.max_attempts))
                && post == (Client { scene: post.scene, ..self }))
        &&& self.reconnect_config.enabled && self.reconnect_config.allows_attempt(self.reconnect_attempt_count)
                ==> r
                && post.scene == Scene::Connecting(ConnectingScene {
                        last_retry_at: Instant { millis: sat_add(now.millis, delay_ms) },
                        ..ConnectingScene::new_at_spec(now)
                    })
                && post.reconnect_at is None
                && post.events@ == self.events@.push(ClientEvent::System(ClientSystemEvent::Reconnecting {
                        attempt: self.reconnect_attempt_count,
                        delay_secs: delay_ms / 1000,
                    }))
                && post == (Client { scene: post.scene, reconnect_at: None, events: post.events, ..self })
    }

    /// Try to reconnect at `now`, waiting `delay_ms` (the backoff for the
    /// current attempt) before the first LoginRequest. Fails to the error
    /// screen, returning false, when reconnection is off or the attempts are used up.
    pub fn start_reconnection_at(&mut self, now: Instant, delay_ms: u64) -> (r: bool)
        ensures
            old(self).reconnection_effect(now, delay_ms, r, *final(self)),
    {
        if !self.reconnect_config.enabled {
            self.scene = Scene::Error(ErrorScene::new(
                ClientError::ConnectionFailed(String::from_str("Connection lost and reconnection disabled")),
                false,
            ));
            return false;
        }
        if !self.reconnect_config.should_attempt_reconnect(self.reconnect_attempt_count) {
            let n = u64_to_decimal(self.reconnect_config.max_attempts as u64);
            let head = String::from_str("Max reconnection attempts (");
            let text = head.concat(n.as_str()).concat(") reached");
            self.scene = Scene::Error(ErrorScene::new(ClientError::ConnectionFailed(text), false));
            return false;
        }
        self.events.push(ClientEvent::System(ClientSystemEvent::Reconnecting {
            attempt: self.reconnect_attempt_count,
            delay_secs: delay_ms / 1000,
        }));
        let mut scene = ConnectingScene::new_at(now);
        let at = if now.millis <= u64::MAX - delay_ms { now.millis + delay_ms } else { u64::MAX };
        scene.last_retry_at = Instant { millis: at };
        self.scene = Scene::Connecting(scene);
        self.reconnect_at = None;
        proof {
            assert(self.events@ =~= old(self).events@.push(ClientEvent::System(ClientSystemEvent::Reconnecting {
                attempt: old(self).reconnect_attempt_count,
                delay_secs: delay_ms / 1000,
            })));
        }
        true
    }

    /// Try to reconnect now.
    pub fn start_reconnection(&mut self, delay_ms: u64) -> (r: bool)
        ensures
            r == (old(self).reconnect_config.enabled
                && old(self).reconnect_config.allows_attempt(old(self).reconnect_attempt_count)),
            exists|now: Instant| #[trigger] old(self).reconnection_effect(now, delay_ms, r, *final(self)),
    {
        let now = Instant::now();
        let r = self.start_reconnection_at(now, delay_ms);
        assert(old(self).reconnection_effect(now, delay_ms, r, *self));
        r
    }

    // ========== DDD response ==========

    /// The DDD response kept for retries.
    pub fn get_ddd_response(&self) -> (r: Option<&OutgoingMessageContent>)
        ensures
            r == (match self.ddd_response {
                Some(c) => Some(&c),
                None => None::<&OutgoingMessageContent>,
            }),
    {
        match &self.ddd_response {
            Some(c) => Some(c),
            None => None,
        }
    }

    /// Queue the kept DDD response again; fails when none is kept.
    pub fn retry_ddd_response(&mut self) -> (r: Result<(), NoDddResponse>)
        ensures
            r is Ok == old(self).ddd_response is Some,
            r is Err ==> *final(self) == *old(self),
            r is Ok ==> final(self).outgoing_message_queue@.len() == old(self).outgoing_message_queue@.len() + 1
                && final(self).outgoing_message_queue@.drop_last() == old(self).outgoing_message_queue@
                && final(self).outgoing_message_queue@.last().deadline is None
                && final(self).outgoing_message_queue@.last().content.same_as(old(self).ddd_response->Some_0)
                && *final(self) == (Client { outgoing_message_queue: final(self).outgoing_message_queue, ..*old(self) }),
    {
        let copy = match &self.ddd_response {
            Some(c) => c.duplicate(),
            None => {
                return Err(NoDddResponse);
            },
        };
        self.outgoing_message_queue.push_back(OutgoingMessage::new(copy));
        Ok(())
    }

    // ========== Actions ==========

    /// Carry out one action from a consumer or script.
    pub fn process_action(&mut self, action: SimpleClientAction)
        requires
            old(self).next_game_action_sequence < u32::MAX,
        ensures
            old(self).action_effect(action, *final(self)),
    {
        match action {
            SimpleClientAction::Disconnect => {
                self.scene = Scene::Error(ErrorScene::new(
                    ClientError::ConnectionFailed(String::from_str("Disconnected by client action")),
                    true,
                ));
            },
            SimpleClientAction::LoginCharacter { character_id, character_name, account } => {
                let ghost pre = *self;
                let r = self.attempt_character_login(character_id, character_name, account);
                proof {
                    assert(pre.login_attempt_effect(character_id, character_name, account, *self, r is Ok));
                }
            },
            SimpleClientAction::SendLoginComplete => {
                self.send_login_complete_notification();
            },
            SimpleClientAction::SendChatSay { message } => {
                self.send_chat_say(message);
            },
            SimpleClientAction::SendChatTell { recipient_name, message } => {
                self.send_chat_tell(recipient_name, message);
            },
            SimpleClientAction::ReloadScripts { .. } => {},
            SimpleClientAction::LogScriptMessage { .. } => {},
            SimpleClientAction::StopMovementCommand { .. } => {},
        }
    }

    /// Carry out a pending automatic login, then each action in order.
    /// The result is reached through a chain of states, each step the effect
    /// of one action on the state before it.
    pub fn process_actions(&mut self, actions: Vec<SimpleClientAction>)
        requires
            old(self).next_game_action_sequence + actions@.len() < u32::MAX,
        ensures
            exists|states: Seq<Client>| {
                &&& states.len() == actions@.len() + 1
                &&& old(self).auto_login_effect(states[0])
                &&& states.last() == *final(self)
                &&& forall|i: int| 0 <= i < actions@.len() ==> #[trigger] states[i].action_effect(actions@[i], states[i + 1])
            },
    {
        self.process_pending_auto_login();
        let ghost s0 = *self;
        let ghost states: Seq<Client> = seq![*self];
        let mut actions = actions;
        let ghost all = actions@;
        let ghost mut k: int = 0;
        while actions.len() > 0
            invariant
                0 <= k <= all.len(),
                actions@ == all.skip(k),
                states.len() == k + 1,
                states[0] == s0,
                old(self).auto_login_effect(s0),
                states.last() == *self,
                self.next_game_action_sequence + (all.len() - k) < u32::MAX,
                forall|i: int| 0 <= i < k ==> #[trigger] states[i].action_effect(all[i], states[i + 1]),
            decreases actions.len(),
        {
            let a = actions.remove(0);
            proof { assert(a == all[k]); }
            let ghost pre = *self;
            self.process_action(a);
            proof {
                states = states.push(*self);
                k = k + 1;
                assert(actions@ =~= all.skip(k));
                assert(states[k - 1] == pre);
                assert forall|i: int| 0 <= i < k implies #[trigger] states[i].action_effect(all[i], states[i + 1]) by {
                    if i < k - 1 {
                        assert(states[i] == states.drop_last()[i]);
                        assert(states[i + 1] == states.drop_last()[i + 1]);
                    }
                }
                assert(self.next_game_action_sequence <= pre.next_game_action_sequence + 1);
            }
        }
        proof {
            assert(k == all.len());
            assert(states.len() == all.len() + 1);
            assert(old(self).auto_login_effect(states[0]));
            assert(states.last() == *self);
        }
    }

    /// The effect of processing the pending automatic login.
    pub open spec fn auto_login_effect(self, post: Client) -> bool {
        match self.pending_auto_login {
            Some(SimpleClientAction::LoginCharacter { character_id, character_name, account }) =>
                exists|ok: bool| (Client { pending_auto_login: None, ..self })
                    .login_attempt_effect(character_id, character_name, account, post, ok),
            _ => post == self,
        }
    }

    /// Carry out the pending automatic login, if one is waiting.
    fn process_pending_auto_login(&mut self)
        ensures
            old(self).auto_login_effect(*final(self)),
            final(self).next_game_action_sequence == old(self).next_game_action_sequence,
    {
        let is_login = match &self.pending_auto_login {
            Some(SimpleClientAction::LoginCharacter { .. }) => true,
            _ => false,
        };
        if !is_login {
            return;
        }
        match self.pending_auto_login.take() {
            Some(SimpleClientAction::LoginCharacter { character_id, character_name, account }) => {
                let ghost pre = *self;
                let r = self.attempt_character_login(character_id, character_name, account);
                proof {
                    assert(pre.login_attempt_effect(character_id, character_name, account, *self, r is Ok));
                }
            },
            _ => {},
        }
    }

    // ========== Scene transitions ==========

    /// Announce the current scene, if it has an announcement.
    fn emit_scene_changed(&mut self)
        ensures
            *final(self) == (Client { events: final(self).events, ..*old(self) }),
            final(self).events@ == with_scene_event(old(self).events@, old(self).scene),
    {
        match &self.scene {
            Scene::Connecting(_) => self.events.push(ClientEvent::State(ClientStateEvent::Connecting)),
            Scene::CharacterSelect(_) => self.events.push(ClientEvent::State(ClientStateEvent::CharacterSelect)),
            Scene::InWorld(_) => self.events.push(ClientEvent::State(ClientStateEvent::InWorld)),
            Scene::Error(_) => self.events.push(ClientEvent::State(ClientStateEvent::CharacterError)),
            Scene::CharacterCreate(_) => {},
        }
    }

    /// Start over: a fresh session and connecting scene, both started at `now`.
    /// The effect of starting over at `now`: a fresh session and connecting
    /// scene started then, and the Connecting event.
    pub open spec fn connecting_effect(self, now: Instant, post: Client) -> bool {
        &&& post.session.state == SessionState::AuthLoginRequest
        &&& post.session.metadata == (SessionMetadata { started_at: Some(now), last_retry_at: None, connect_attempt_count: 0 })
        &&& post.session.connection is None
        &&& post.scene == Scene::Connecting(ConnectingScene::new_at_spec(now))
        &&& post.events@ == self.events@.push(ClientEvent::State(ClientStateEvent::Connecting))
        &&& post == (Client { session: post.session, scene: post.scene, events: post.events, ..self })
    }

    pub fn transition_to_connecting_at(&mut self, now: Instant)
        ensures
            final(self).session.state == SessionState::AuthLoginRequest,
            final(self).session.metadata.started_at == Some(now),
            final(self).session.connection is None,
            final(self).scene == Scene::Connecting(ConnectingScene::new_at_spec(now)),
            final(self).events@ == old(self).events@.push(ClientEvent::State(ClientStateEvent::Connecting)),
            *final(self) == (Client { session: final(self).session, scene: final(self).scene, events: final(self).events, ..*old(self) }),
            old(self).connecting_effect(now, *final(self)),
    {
        self.session = ClientSession::new_at(SessionState::AuthLoginRequest, now);
        self.scene = Scene::Connecting(ConnectingScene::new_at(now));
        self.emit_scene_changed();
        proof {
            assert(self.events@ =~= old(self).events@.push(ClientEvent::State(ClientStateEvent::Connecting)));
        }
    }

    /// Start over at the current time.
    pub fn transition_to_connecting(&mut self)
        ensures
            exists|now: Instant| #[trigger] old(self).connecting_effect(now, *final(self)),
    {
        let now = Instant::now();
        self.transition_to_connecting_at(now);
        assert(old(self).connecting_effect(now, *self));
    }

    /// Set the connecting progress, when the connecting scene is showing.
    pub fn update_connect_progress(&mut self, progress: ConnectingProgress)
        ensures
            *final(self) == (Client { scene: final(self).scene, ..*old(self) }),
            final(self).scene == (match old(self).scene {
                Scene::Connecting(s) => Scene::Connecting(ConnectingScene { connect_progress: progress, ..s }),
                other => other,
            }),
    {
        if let Scene::Connecting(ref mut scene) = self.scene {
            scene.connect_progress = progress;
        }
    }

    /// Enter the patching phase: the session is authenticated and the
    /// connecting scene waits for the DDD file list.
    pub fn start_patching(&mut self)
        ensures
            final(self).session.state == SessionState::AuthConnected,
            final(self).session.metadata == old(self).session.metadata,
            final(self).session.connection == old(self).session.connection,
            *final(self) == (Client { scene: final(self).scene, session: final(self).session, ..*old(self) }),
            final(self).scene == (match old(self).scene {
                Scene::Connecting(s) => Scene::Connecting(ConnectingScene { patch_progress: PatchingProgress::WaitingForDDD, ..s }),
                other => other,
            }),
    {
        self.session.transition_to(SessionState::AuthConnected);
        if let Scene::Connecting(ref mut scene) = self.scene {
            scene.patch_progress = PatchingProgress::WaitingForDDD;
        }
    }

    /// Set the patching progress, when the connecting scene is showing.
    pub fn update_patch_progress(&mut self, progress: PatchingProgress)
        ensures
            *final(self) == (Client { scene: final(self).scene, ..*old(self) }),
            final(self).scene == (match old(self).scene {
                Scene::Connecting(s) => Scene::Connecting(ConnectingScene { patch_progress: progress, ..s }),
                other => other,
            }),
    {
        if let Scene::Connecting(ref mut scene) = self.scene {
            scene.patch_progress = progress;
        }
    }

    /// Show the character select screen for this account with `characters`.
    pub fn transition_to_char_select(&mut self, characters: &Vec<CharacterIdentity>)
        ensures
            final(self).scene is CharacterSelect,
            final(self).scene->CharacterSelect_0.account_name == old(self).account.name,
            final(self).scene->CharacterSelect_0.characters@ == infos_of(characters@),
            final(self).scene->CharacterSelect_0.entering_world is None,
            final(self).events@ == old(self).events@.push(ClientEvent::State(ClientStateEvent::CharacterSelect)),
            *final(self) == (Client { scene: final(self).scene, events: final(self).events, ..*old(self) }),
    {
        let infos = character_infos(characters);
        self.scene = Scene::CharacterSelect(CharacterSelectScene::new(self.account.name.clone(), infos));
        self.emit_scene_changed();
    }

    /// Start a login for this account's character, when the select screen is showing.
    pub fn begin_entering_world(&mut self, character_id: u32, character_name: String)
        ensures
            *final(self) == (Client { scene: final(self).scene, ..*old(self) }),
            final(self).scene == (match old(self).scene {
                Scene::CharacterSelect(s) => Scene::CharacterSelect(CharacterSelectScene {
                    entering_world: Some(EnteringWorldState {
                        character_id,
                        character_name,
                        account: old(self).account.name,
                        login_complete: false,
                    }),
                    ..s
                }),
                other => other,
            }),
    {
        let account = self.account.name.clone();
        if let Scene::CharacterSelect(ref mut scene) = self.scene {
            scene.entering_world = Some(EnteringWorldState {
                character_id,
                character_name,
                account,
                login_complete: false,
            });
        }
    }

    /// Mark the login in progress, if any, as complete.
    pub fn mark_login_complete(&mut self)
        ensures
            *final(self) == (Client { scene: final(self).scene, ..*old(self) }),
            final(self).scene == (match old(self).scene {
                Scene::CharacterSelect(s) => match s.entering_world {
                    Some(e) => Scene::CharacterSelect(CharacterSelectScene {
                        entering_world: Some(EnteringWorldState { login_complete: true, ..e }),
                        ..s
                    }),
                    None => Scene::CharacterSelect(s),
                },
                other => other,
            }),
    {
        if let Scene::CharacterSelect(ref mut scene) = self.scene {
            scene.mark_login_complete();
        }
    }

    /// Enter the world with the given character.
    pub fn transition_to_in_world(&mut self, character_id: u32, character_name: String)
        ensures
            final(self).session.state == SessionState::WorldConnected,
            final(self).session.metadata == old(self).session.metadata,
            final(self).session.connection == old(self).session.connection,
            final(self).scene == Scene::InWorld(InWorldScene { character_id, character_name }),
            final(self).events@ == old(self).events@.push(ClientEvent::State(ClientStateEvent::InWorld)),
            *final(self) == (Client { scene: final(self).scene, session: final(self).session, events: final(self).events, ..*old(self) }),
    {
        self.session.transition_to(SessionState::WorldConnected);
        self.scene = Scene::InWorld(InWorldScene::new(character_id, character_name));
        self.emit_scene_changed();
    }

    /// Show the character creation screen.
    pub fn transition_to_char_create(&mut self)
        ensures
            final(self).scene == Scene::CharacterCreate(CharacterCreateScene { character: None }),
            final(self).events@ == old(self).events@,
            *final(self) == (Client { scene: final(self).scene, events: final(self).events, ..*old(self) }),
    {
        self.scene = Scene::CharacterCreate(CharacterCreateScene::new());
        self.emit_scene_changed();
    }

    /// Show the error screen.
    pub fn transition_to_error(&mut self, error: ClientError, can_retry: bool)
        ensures
            final(self).scene == Scene::Error(ErrorScene { error, can_retry }),
            final(self).events@ == old(self).events@.push(ClientEvent::State(ClientStateEvent::CharacterError)),
            *final(self) == (Client { scene: final(self).scene, events: final(self).events, ..*old(self) }),
    {
        self.scene = Scene::Error(ErrorScene::new(error, can_retry));
        self.emit_scene_changed();
    }

    /// Start over at `now` if the error screen allows a retry; otherwise nothing changes.
    pub fn retry_from_error_at(&mut self, now: Instant)
        ensures
            old(self).scene.can_retry_spec() ==> final(self).scene == Scene::Connecting(ConnectingScene::new_at_spec(now))
                && final(self).session.state == SessionState::AuthLoginRequest
                && final(self).session.connection is None
                && final(self).events@ == old(self).events@.push(ClientEvent::State(ClientStateEvent::Connecting)),
            !old(self).scene.can_retry_spec() ==> *final(self) == *old(self),
            old(self).scene.can_retry_spec() ==> old(self).connecting_effect(now, *final(self)),
    {
        if self.scene.can_retry() {
            self.transition_to_connecting_at(now);
        }
    }

    /// Start over at the current time if the error screen allows a retry.
    pub fn retry_from_error(&mut self)
        ensures
            old(self).scene.can_retry_spec() ==> exists|now: Instant| #[trigger] old(self).connecting_effect(now, *final(self)),
            !old(self).scene.can_retry_spec() ==> *final(self) == *old(self),
    {
        let now = Instant::now();
        self.retry_from_error_at(now);
        assert(old(self).scene.can_retry_spec() ==> old(self).connecting_effect(now, *self));
    }
}

} // verus!
