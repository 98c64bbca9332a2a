//! What the client does with the messages the server sends.

use vstd::prelude::*;
use std::collections::VecDeque;
use crate::client::{Client, UI_DELAY_MS, SERVER_CRASH_ERROR, SYSTEM_MESSAGE_TYPE, says_text, tells_text, entering_of};
use crate::events::{
    CharacterIdentity, ClientEvent, SimpleClientAction, SimpleGameEvent, duplicate_identities,
};
use crate::fragments::RawMessage;
use crate::instant::Instant;
use crate::protocol::{
    character_set_in, char_gen_verification_in, hear_speech_in, hear_ranged_speech_in, hear_direct_speech_in,
    transient_string_in, ac_string_in, item_create_object_in,
    S2CKind, GameEventKind, CharacterSetMsg, ItemCreatedMsg, s2c_message_kind, game_event_kind,
    s2c_kind, game_event_kind_of, decodes_ddd_interrogation,
    decoded_create_player, decoded_character_error, 
    
    decode_character_set, decode_ddd_interrogation,
    decode_create_player, decode_character_error, decode_hear_speech, decode_hear_ranged_speech,
    decode_char_gen_verification, decode_hear_direct_speech, decode_transient_string,
    decode_ac_string, decode_item_create_object, enter_world_message,
};
use crate::queue::{OutgoingMessage, OutgoingMessageContent, LoginSendEnterWorld, sat_add};
use crate::scene::{ClientError, PatchingProgress, Scene};
use crate::text::{eq_ignore_ascii_case_spec, eq_ignore_ascii_case, chars_of, concat};
use crate::wire::{read_u32_at, u32_le, u32_from_le};

verus! {

/// The DDD response telling the server that the client's files are up to
/// date: opcode 0xF7E6, language 1, an empty iteration list.
pub open spec fn ddd_response_up_to_date() -> Seq<u8> {
    seq![0xE6u8, 0xF7u8, 0u8, 0u8, 1u8, 0u8, 0u8, 0u8, 0u8, 0u8, 0u8, 0u8]
}

fn ddd_response_bytes() -> (r: Vec<u8>)
    ensures
        r@ == ddd_response_up_to_date(),
{
    let r: Vec<u8> = vec![0xE6u8, 0xF7u8, 0u8, 0u8, 1u8, 0u8, 0u8, 0u8, 0u8, 0u8, 0u8, 0u8];
    proof { assert(r@ =~= ddd_response_up_to_date()); }
    r
}

/// What follows the opcode of a message.
pub open spec fn payload(m: RawMessage) -> Seq<u8> {
    m.data_spec().subrange(4, m.data_spec().len() as int)
}

/// The first character of `chars`, in list order, named `name` up to ASCII
/// case and not pending deletion.
pub open spec fn auto_login_choice(chars: Seq<CharacterIdentity>, name: Seq<char>) -> Option<CharacterIdentity>
    decreases chars.len(),
{
    if chars.len() == 0 {
        None
    } else if eq_ignore_ascii_case_spec(chars[0].name@, name) && chars[0].seconds_greyed_out == 0 {
        Some(chars[0])
    } else {
        auto_login_choice(chars.drop_first(), name)
    }
}

/// `e` is a chat message event with this text and chat type.
pub open spec fn is_chat(e: ClientEvent, text: Seq<char>, message_type: u32) -> bool {
    e matches ClientEvent::Game(SimpleGameEvent::ChatMessageReceived { message, message_type: t })
        && message@ == text && t == message_type
}

/// `e` is the character list event for `account`, `characters` and `num_slots`.
pub open spec fn is_character_list(e: ClientEvent, account: Seq<char>, characters: Seq<CharacterIdentity>, num_slots: u32) -> bool {
    e matches ClientEvent::Game(SimpleGameEvent::CharacterListReceived { account: a, characters: c, num_slots: n })
        && a@ == account && c@ == characters && n == num_slots
}

/// `e` reports the object `o`, with absent numbers as zero.
pub open spec fn is_item_created(e: ClientEvent, o: ItemCreatedMsg) -> bool {
    e matches ClientEvent::Game(SimpleGameEvent::ItemCreateObject {
        object_id, name, item_type, container_id, burden, value, items_capacity, container_capacity,
    })
    && object_id == o.object_id && name@ == o.name@ && item_type@ == o.item_type@
    && container_id == o.container_id
    && burden == (match o.burden { Some(b) => b as u32, None => 0 })
    && value == (match o.value { Some(v) => v, None => 0 })
    && items_capacity == (match o.items_capacity { Some(c) => Some(c as u32), None => None })
    && container_capacity == (match o.container_capacity { Some(c) => Some(c as u32), None => None })
}

/// `post` is `pre` with one more event `e`, and nothing else changed.
pub open spec fn one_more_event(pre: Client, post: Client, e: ClientEvent) -> bool {
    &&& post.events@ == pre.events@.push(e)
    &&& post == (Client { events: post.events, ..pre })
}

impl Client {
    /// The effect of the character list `cs` arriving.
    pub open spec fn character_set_effect(self, cs: CharacterSetMsg, post: Client) -> bool {
        &&& post.known_characters@ == cs.characters@
        &&& post.scene is CharacterSelect
        &&& post.scene->CharacterSelect_0.account_name == self.account.name
        &&& post.scene->CharacterSelect_0.characters@ == crate::events::infos_of(cs.characters@)
        &&& post.scene->CharacterSelect_0.entering_world is None
        &&& post.events@ == self.events@
                .push(ClientEvent::State(crate::events::ClientStateEvent::CharacterSelect))
                .push(ClientEvent::Game(SimpleGameEvent::UpdatingSetProgress { percent: 100 }))
        &&& post.ddd_response is None
        &&& post.reconnect_attempt_count == 0
        &&& post.pending_auto_login == (match self.character {
                Some(n) => match auto_login_choice(cs.characters@, n@) {
                    Some(c) => Some(SimpleClientAction::LoginCharacter {
                        character_id: c.character_id,
                        character_name: c.name,
                        account: cs.account,
                    }),
                    None => self.pending_auto_login,
                },
                None => self.pending_auto_login,
            })
        &&& post.delayed_events@.len() == self.delayed_events@.len() + 1
        &&& post.delayed_events@.drop_last() == self.delayed_events@
        &&& is_character_list(post.delayed_events@.last(), cs.account@, cs.characters@, cs.num_slots)
        &&& post == (Client {
                known_characters: post.known_characters,
                scene: post.scene,
                events: post.events,
                ddd_response: None,
                reconnect_attempt_count: 0,
                pending_auto_login: post.pending_auto_login,
                delayed_events: post.delayed_events,
                ..self
            })
    }

    /// The effect of the DDD interrogation arriving at `now`.
    pub open spec fn ddd_effect(self, now: Instant, post: Client) -> bool {
        &&& post.scene == (match self.scene {
                Scene::Connecting(s) => Scene::Connecting(crate::scene::ConnectingScene { patch_progress: PatchingProgress::ReceivedDDD, ..s }),
                other => other,
            })
        &&& post.events@ == self.events@.push(ClientEvent::Game(SimpleGameEvent::UpdatingSetProgress { percent: 33 }))
        &&& post.ddd_response matches Some(OutgoingMessageContent::GameAction(b)) && b@ == ddd_response_up_to_date()
        &&& post.outgoing_message_queue@.len() == self.outgoing_message_queue@.len() + 1
        &&& post.outgoing_message_queue@.drop_last() == self.outgoing_message_queue@
        &&& post.outgoing_message_queue@.last().deadline == Some(Instant { millis: sat_add(now.millis, UI_DELAY_MS) })
        &&& post.outgoing_message_queue@.last().content matches OutgoingMessageContent::GameAction(b)
                && b@ == ddd_response_up_to_date()
        &&& post == (Client {
                scene: post.scene,
                events: post.events,
                ddd_response: post.ddd_response,
                outgoing_message_queue: post.outgoing_message_queue,
                ..self
            })
    }

    /// The effect of the server announcing that `character_id` is in the world.
    pub open spec fn create_player_effect(self, character_id: u32, post: Client) -> bool {
        exists|mid: Client| #[trigger] self.login_complete_effect(mid)
            && one_more_event(mid, post, ClientEvent::Game(SimpleGameEvent::CreatePlayer { character_id }))
    }

    /// The effect of the character error `code` (named `name`) at `now`,
    /// `delay_ms` being the backoff of the next reconnection attempt.
    pub open spec fn character_error_effect(self, code: u32, name: Seq<char>, now: Instant, delay_ms: u64, post: Client) -> bool {
        exists|mid: Client| {
            &&& #[trigger] post.events@ == mid.events@.push(ClientEvent::Game(SimpleGameEvent::CharacterError {
                    error_code: code,
                    error_message: post.events@.last()->Game_0->CharacterError_error_message,
                }))
            &&& post.events@.last()->Game_0->CharacterError_error_message@ == name
            &&& post == (Client { events: post.events, ..mid })
            &&& if code == SERVER_CRASH_ERROR {
                    self.disconnect_effect(now, delay_ms, mid)
                } else {
                    &&& mid.scene == Scene::Error(crate::scene::ErrorScene { error: ClientError::CharacterError(code), can_retry: true })
                    &&& mid.events@ == self.events@.push(ClientEvent::State(crate::events::ClientStateEvent::CharacterError))
                    &&& mid == (Client { scene: mid.scene, events: mid.events, ..self })
                }
        }
    }

    /// The effect of the server being ready for the character that is entering the world.
    pub open spec fn server_ready_effect(self, post: Client) -> bool {
        match entering_of(self.scene) {
            Some(e) => {
                &&& post.outgoing_message_queue@.len() == self.outgoing_message_queue@.len() + 1
                &&& post.outgoing_message_queue@.drop_last() == self.outgoing_message_queue@
                &&& post.outgoing_message_queue@.last() == OutgoingMessage {
                        content: OutgoingMessageContent::EnterWorld(LoginSendEnterWorld {
                            character_id: e.character_id,
                            account: e.account,
                        }),
                        deadline: None,
                    }
                &&& post == (Client { outgoing_message_queue: post.outgoing_message_queue, ..self })
            },
            None => post == self,
        }
    }

    /// The effect of a chat text box message with this payload.
    pub open spec fn textbox_effect(self, p: Seq<u8>, post: Client) -> bool {
        match ac_string_in(p) {
            Some((text, used)) => if used + 4 <= p.len() {
                    post.events@.len() == self.events@.len() + 1
                        && is_chat(post.events@.last(), text, u32_from_le(p, used as int))
                        && post.events@.drop_last() == self.events@
                        && post == (Client { events: post.events, ..self })
                } else {
                    post == self
                },
            None => post == self,
        }
    }

    /// The effect of an ordered game event message with data `d`.
    pub open spec fn game_event_effect(self, d: Seq<u8>, post: Client) -> bool {
        if d.len() < 12 {
            post == self
        } else {
            let p = d.subrange(8, d.len() as int);
            let kind = game_event_kind(u32_from_le(d, 8));
            match kind {
                GameEventKind::CommunicationHearDirectSpeech => match hear_direct_speech_in(p) {
                    Some(s) => post.events@.len() == self.events@.len() + 1
                        && is_chat(post.events@.last(), tells_text(s.sender_name@, s.message@), s.message_type)
                        && post.events@.drop_last() == self.events@
                        && post == (Client { events: post.events, ..self }),
                    None => post == self,
                },
                GameEventKind::CommunicationTransientString => match transient_string_in(p) {
                    Some(text) => post.events@.len() == self.events@.len() + 1
                        && is_chat(post.events@.last(), text, SYSTEM_MESSAGE_TYPE)
                        && post.events@.drop_last() == self.events@
                        && post == (Client { events: post.events, ..self }),
                    None => post == self,
                },
                _ => post == self,
            }
        }
    }

    /// A speech event for `s`.
    pub open spec fn speech_effect(self, s: Option<crate::protocol::SpeechMsg>, post: Client) -> bool {
        match s {
            Some(s) => post.events@.len() == self.events@.len() + 1
                && is_chat(post.events@.last(), says_text(s.sender_name@, s.message@), s.message_type)
                && post.events@.drop_last() == self.events@
                && post == (Client { events: post.events, ..self }),
            None => post == self,
        }
    }

    /// The effect of handling message `m` at `now`, `delay_ms` being the
    /// backoff of the next reconnection attempt.
    pub open spec fn message_effect(self, m: RawMessage, now: Instant, delay_ms: u64, post: Client) -> bool {
        let p = payload(m);
        match s2c_message_kind(m.opcode_spec()) {
            S2CKind::OrderedGameEvent => self.game_event_effect(m.data_spec(), post),
            S2CKind::LoginCreatePlayer => match decoded_create_player(p) {
                Some(id) => self.create_player_effect(id, post),
                None => post == self,
            },
            S2CKind::LoginLoginCharacterSet => match character_set_in(p) {
                Some(cs) => self.character_set_effect(cs, post),
                None => post == self,
            },
            S2CKind::DDDInterrogationMessage => if decodes_ddd_interrogation(p) {
                self.ddd_effect(now, post)
            } else {
                post == self
            },
            S2CKind::CharacterCharGenVerificationResponse => if char_gen_verification_in(p) {
                &&& post.delayed_events@.len() == self.delayed_events@.len() + 1
                &&& post.delayed_events@.drop_last() == self.delayed_events@
                &&& is_character_list(post.delayed_events@.last(), Seq::empty(), self.known_characters@, 0)
                &&& post == (Client { delayed_events: post.delayed_events, ..self })
            } else {
                post == self
            },
            S2CKind::LoginEnterGameServerReady => self.server_ready_effect(post),
            S2CKind::ItemCreateObject => match item_create_object_in(p) {
                Some(o) => post.events@.len() == self.events@.len() + 1
                    && is_item_created(post.events@.last(), o)
                    && post.events@.drop_last() == self.events@
                    && post == (Client { events: post.events, ..self }),
                None => post == self,
            },
            S2CKind::CommunicationTextboxString => self.textbox_effect(p, post),
            S2CKind::CommunicationHearSpeech => self.speech_effect(hear_speech_in(p), post),
            S2CKind::CommunicationHearRangedSpeech => self.speech_effect(hear_ranged_speech_in(p), post),
            S2CKind::CharacterCharacterError => match decoded_character_error(p) {
                Some(e) => self.character_error_effect(e.code, e.name@, now, delay_ms, post),
                None => post == self,
            },
            _ => post == self,
        }
    }
}

/// The first character of `chars` named `name` up to ASCII case and not
/// pending deletion.
fn find_auto_login(chars: &Vec<CharacterIdentity>, name: &String) -> (r: Option<usize>)
    ensures
        r matches Some(i) ==> i < chars@.len() && auto_login_choice(chars@, name@) == Some(chars@[i as int]),
        r is None ==> auto_login_choice(chars@, name@) is None,
{
    let wanted = chars_of(name.as_str());
    let mut i: usize = 0;
    assert(chars@.subrange(0, chars@.len() as int) =~= chars@);
    while i < chars.len()
        invariant
            i <= chars@.len(),
            wanted@ == name@,
            auto_login_choice(chars@, name@) == auto_login_choice(chars@.subrange(i as int, chars@.len() as int), name@),
        decreases chars.len() - i,
    {
        let ghost rest = chars@.subrange(i as int, chars@.len() as int);
        assert(rest[0] == chars@[i as int]);
        let have = chars_of(chars[i].name.as_str());
        if eq_ignore_ascii_case(have.as_slice(), wanted.as_slice()) && chars[i].seconds_greyed_out == 0 {
            return Some(i);
        }
        proof {
            assert(rest.drop_first() =~= chars@.subrange(i + 1, chars@.len() as int));
        }
        i = i + 1;
    }
    None
}

/// `"<sender> says, \"<message>\""`.
fn says(sender: &String, message: &String) -> (r: String)
    ensures
        r@ == says_text(sender@, message@),
{
    let t = concat(sender, " says, \"");
    let t = concat(&t, message.as_str());
    concat(&t, "\"")
}

/// `"<sender> tells you, \"<message>\""`.
fn tells(sender: &String, message: &String) -> (r: String)
    ensures
        r@ == tells_text(sender@, message@),
{
    let t = concat(sender, " tells you, \"");
    let t = concat(&t, message.as_str());
    concat(&t, "\"")
}

impl Client {
    /// The server created the player's character `character_id` in the world:
    /// finish the login in progress, if any, and report it.
    pub fn handle_create_player(&mut self, character_id: u32)
        requires
            old(self).next_game_action_sequence < u32::MAX,
        ensures
            old(self).create_player_effect(character_id, *final(self)),
    {
        let ghost pre = *self;
        self.send_login_complete_notification();
        let ghost mid = *self;
        self.events.push(ClientEvent::Game(SimpleGameEvent::CreatePlayer { character_id }));
        proof {
            assert(pre.login_complete_effect(mid));
            assert(one_more_event(mid, *self, ClientEvent::Game(SimpleGameEvent::CreatePlayer { character_id })));
        }
    }

    /// The server sent the account's character list: show it, forget the DDD
    /// response, reset the reconnection count, pick the character to log in
    /// automatically, if one is configured and present, and report the list
    /// after the UI delay.
    pub fn handle_character_set(&mut self, cs: CharacterSetMsg)
        ensures
            old(self).character_set_effect(cs, *final(self)),
    {
        let chars = duplicate_identities(&cs.characters);
        self.known_characters = duplicate_identities(&cs.characters);
        self.transition_to_char_select(&chars);
        self.events.push(ClientEvent::Game(SimpleGameEvent::UpdatingSetProgress { percent: 100 }));
        proof {
            assert(self.events@ =~= old(self).events@
                .push(ClientEvent::State(crate::events::ClientStateEvent::CharacterSelect))
                .push(ClientEvent::Game(SimpleGameEvent::UpdatingSetProgress { percent: 100 })));
        }
        self.ddd_response = None;
        self.reconnect_attempt_count = 0;
        let choice = match &self.character {
            Some(name) => match find_auto_login(&self.known_characters, name) {
                Some(i) => Some(SimpleClientAction::LoginCharacter {
                    character_id: self.known_characters[i].character_id,
                    character_name: self.known_characters[i].name.clone(),
                    account: cs.account.clone(),
                }),
                None => None,
            },
            None => None,
        };
        if choice.is_some() {
            self.pending_auto_login = choice;
        }
        let ghost pre_delayed = self.delayed_events@;
        self.delayed_events.push(ClientEvent::Game(SimpleGameEvent::CharacterListReceived {
            account: cs.account,
            characters: chars,
            num_slots: cs.num_slots,
        }));
        proof {
            assert(self.delayed_events@.drop_last() =~= pre_delayed);
        }
    }

    /// The server asked which data files the client has, at `now`: answer,
    /// after the UI delay, that they are up to date, and keep the answer for retries.
    pub fn handle_ddd_interrogation(&mut self, now: Instant)
        ensures
            old(self).ddd_effect(now, *final(self)),
    {
        self.update_patch_progress(PatchingProgress::ReceivedDDD);
        self.events.push(ClientEvent::Game(SimpleGameEvent::UpdatingSetProgress { percent: 33 }));
        let content = OutgoingMessageContent::GameAction(ddd_response_bytes());
        self.ddd_response = Some(content.duplicate());
        self.outgoing_message_queue.push_back(OutgoingMessage::new(content).with_delay_ms_at(now, UI_DELAY_MS));
        proof {
            assert(self.outgoing_message_queue@.drop_last() =~= old(self).outgoing_message_queue@);
            assert(self.events@ =~= old(self).events@.push(ClientEvent::Game(SimpleGameEvent::UpdatingSetProgress { percent: 33 })));
        }
    }

    /// The server accepted a new character: report the known list after the UI delay.
    pub fn handle_char_gen_verification(&mut self)
        ensures
            final(self).delayed_events@.len() == old(self).delayed_events@.len() + 1,
            final(self).delayed_events@.drop_last() == old(self).delayed_events@,
            is_character_list(final(self).delayed_events@.last(), Seq::empty(), old(self).known_characters@, 0),
            *final(self) == (Client { delayed_events: final(self).delayed_events, ..*old(self) }),
    {
        let characters = duplicate_identities(&self.known_characters);
        self.delayed_events.push(ClientEvent::Game(SimpleGameEvent::CharacterListReceived {
            account: String::new(),
            characters,
            num_slots: 0,
        }));
    }

    /// The server is ready for the character entering the world: queue EnterWorld for it.
    pub fn handle_enter_game_server_ready(&mut self)
        ensures
            old(self).server_ready_effect(*final(self)),
    {
        let entering = match &self.scene {
            Scene::CharacterSelect(s) => match &s.entering_world {
                Some(e) => Some((e.character_id, e.account.clone())),
                None => None,
            },
            _ => None,
        };
        if let Some((character_id, account)) = entering {
            self.outgoing_message_queue.push_back(OutgoingMessage::new(
                OutgoingMessageContent::EnterWorld(LoginSendEnterWorld { character_id, account }),
            ));
            proof { assert(self.outgoing_message_queue@.drop_last() =~= old(self).outgoing_message_queue@); }
        }
    }

    /// A chat text box message: its text, then its chat type.
    pub fn handle_chat_message(&mut self, p: &[u8])
        ensures
            old(self).textbox_effect(p@, *final(self)),
    {
        if let Some((text, used)) = decode_ac_string(p) {
            if p.len() >= 4 && used <= p.len() - 4 {
                let message_type = read_u32_at(p, used);
                self.events.push(ClientEvent::Game(SimpleGameEvent::ChatMessageReceived { message: text, message_type }));
                proof { assert(self.events@.drop_last() =~= old(self).events@); }
            }
        }
    }

    /// An ordered game event with data `d` (opcode, object id, sequence, event).
    pub fn handle_game_event(&mut self, d: &Vec<u8>)
        ensures
            old(self).game_event_effect(d@, *final(self)),
    {
        if d.len() < 12 {
            return;
        }
        let op = read_u32_at(d.as_slice(), 8);
        let p = vstd::slice::slice_subrange(d.as_slice(), 8, d.len());
        assert(op == u32_from_le(d@, 8));
        assert(p@ == d@.subrange(8, d@.len() as int));
        match game_event_kind_of(op) {
            GameEventKind::CommunicationHearDirectSpeech => {
                if let Some(s) = decode_hear_direct_speech(p) {
                    let text = tells(&s.sender_name, &s.message);
                    self.events.push(ClientEvent::Game(SimpleGameEvent::ChatMessageReceived {
                        message: text,
                        message_type: s.message_type,
                    }));
                    proof { assert(self.events@.drop_last() =~= old(self).events@); }
                }
            },
            GameEventKind::CommunicationTransientString => {
                if let Some(text) = decode_transient_string(p) {
                    self.events.push(ClientEvent::Game(SimpleGameEvent::ChatMessageReceived {
                        message: text,
                        message_type: SYSTEM_MESSAGE_TYPE,
                    }));
                    proof { assert(self.events@.drop_last() =~= old(self).events@); }
                }
            },
            _ => {},
        }
    }

    /// Speech heard from another character.
    fn handle_speech(&mut self, s: Option<crate::protocol::SpeechMsg>)
        ensures
            old(self).speech_effect(s, *final(self)),
    {
        if let Some(s) = s {
            let text = says(&s.sender_name, &s.message);
            self.events.push(ClientEvent::Game(SimpleGameEvent::ChatMessageReceived {
                message: text,
                message_type: s.message_type,
            }));
            proof { assert(self.events@.drop_last() =~= old(self).events@); }
        }
    }

    /// A character error at `now`: a server crash drops the connection, with
    /// `delay_ms` before the next attempt; any other error shows the error
    /// screen, with retry. Either way the error is reported.
    pub fn handle_character_error(&mut self, code: u32, name: String, now: Instant, delay_ms: u64)
        requires
            old(self).reconnect_attempt_count < u32::MAX,
        ensures
            old(self).character_error_effect(code, name@, now, delay_ms, *final(self)),
    {
        if code == SERVER_CRASH_ERROR {
            self.enter_disconnected_at(now, delay_ms);
        } else {
            self.transition_to_error(ClientError::CharacterError(code), true);
        }
        let ghost mid = *self;
        self.events.push(ClientEvent::Game(SimpleGameEvent::CharacterError { error_code: code, error_message: name }));
        proof {
            assert(self.events@ == mid.events@.push(ClientEvent::Game(SimpleGameEvent::CharacterError {
                error_code: code,
                error_message: self.events@.last()->Game_0->CharacterError_error_message,
            })));
        }
    }

    /// An object the server created in the world.
    fn handle_item_created(&mut self, o: ItemCreatedMsg)
        ensures
            final(self).events@.len() == old(self).events@.len() + 1,
            is_item_created(final(self).events@.last(), o),
            final(self).events@.drop_last() == old(self).events@,
            *final(self) == (Client { events: final(self).events, ..*old(self) }),
    {
        let ghost o2 = o;
        let burden: u32 = match o.burden { Some(b) => b as u32, None => 0 };
        let value: u32 = match o.value { Some(v) => v, None => 0 };
        let items_capacity: Option<u32> = match o.items_capacity { Some(c) => Some(c as u32), None => None };
        let container_capacity: Option<u32> = match o.container_capacity { Some(c) => Some(c as u32), None => None };
        self.events.push(ClientEvent::Game(SimpleGameEvent::ItemCreateObject {
            object_id: o.object_id,
            name: o.name,
            item_type: o.item_type,
            container_id: o.container_id,
            burden,
            value,
            items_capacity,
            container_capacity,
        }));
        proof { assert(self.events@.drop_last() =~= old(self).events@); }
    }

    /// Handle one server message at `now`, `delay_ms` being the backoff of
    /// the next reconnection attempt.
    pub fn handle_message(&mut self, m: &RawMessage, now: Instant, delay_ms: u64)
        requires
            old(self).reconnect_attempt_count < u32::MAX,
            old(self).next_game_action_sequence < u32::MAX,
        ensures
            old(self).message_effect(*m, now, delay_ms, *final(self)),
            final(self).reconnect_attempt_count <= old(self).reconnect_attempt_count + 1,
            final(self).next_game_action_sequence <= old(self).next_game_action_sequence + 1,
            final(self).message_queue == old(self).message_queue,
    {
        let op = m.opcode();
        let data = m.data();
        let p = vstd::slice::slice_subrange(data.as_slice(), 4, data.len());
        assert(p@ == payload(*m));
        match s2c_kind(op) {
            S2CKind::OrderedGameEvent => self.handle_game_event(data),
            S2CKind::LoginCreatePlayer => {
                if let Some(id) = decode_create_player(p) {
                    self.handle_create_player(id);
                }
            },
            S2CKind::LoginLoginCharacterSet => {
                if let Some(cs) = decode_character_set(p) {
                    self.handle_character_set(cs);
                }
            },
            S2CKind::DDDInterrogationMessage => {
                if decode_ddd_interrogation(p) {
                    self.handle_ddd_interrogation(now);
                }
            },
            S2CKind::CharacterCharGenVerificationResponse => {
                if decode_char_gen_verification(p) {
                    self.handle_char_gen_verification();
                }
            },
            S2CKind::LoginEnterGameServerReady => self.handle_enter_game_server_ready(),
            S2CKind::ItemCreateObject => {
                if let Some(o) = decode_item_create_object(p) {
                    self.handle_item_created(o);
                }
            },
            S2CKind::CommunicationTextboxString => self.handle_chat_message(p),
            S2CKind::CommunicationHearSpeech => self.handle_speech(decode_hear_speech(p)),
            S2CKind::CommunicationHearRangedSpeech => self.handle_speech(decode_hear_ranged_speech(p)),
            S2CKind::CharacterCharacterError => {
                if let Some(e) = decode_character_error(p) {
                    self.handle_character_error(e.code, e.name, now, delay_ms);
                }
            },
            _ => {},
        }
    }
    /// The effect of handling every queued message, oldest first, at `now`:
    /// a chain of clients from the one with the queue emptied to `post`, each
    /// step the effect of one message.
    pub open spec fn messages_effect(self, now: Instant, delay_ms: u64, post: Client) -> bool {
        exists|states: Seq<Client>| {
            &&& states.len() == self.message_queue@.len() + 1
            &&& states[0].message_queue@.len() == 0
            &&& states[0] == (Client { message_queue: states[0].message_queue, ..self })
            &&& states.last() == post
            &&& forall|i: int| 0 <= i < self.message_queue@.len()
                    ==> #[trigger] states[i].message_effect(self.message_queue@[i], now, delay_ms, states[i + 1])
        }
    }

    /// Handle every queued server message, oldest first, at `now`;
    /// `delay_ms` is the backoff of the next reconnection attempt. The queue
    /// is emptied first; then each message takes the client one step.
    pub fn process_messages_at(&mut self, now: Instant, delay_ms: u64)
        requires
            old(self).reconnect_attempt_count + old(self).message_queue@.len() < u32::MAX,
            old(self).next_game_action_sequence + old(self).message_queue@.len() < u32::MAX,
        ensures
            final(self).message_queue@.len() == 0,
            old(self).messages_effect(now, delay_ms, *final(self)),
    {
        let mut msgs: VecDeque<RawMessage> = VecDeque::new();
        std::mem::swap(&mut msgs, &mut self.message_queue);
        let ghost mut states: Seq<Client> = seq![*self];
        let mut i: usize = 0;
        while i < msgs.len()
            invariant
                i <= msgs@.len(),
                msgs@ == old(self).message_queue@,
                states.len() == i + 1,
                states[0].message_queue@.len() == 0,
                states[0] == (Client { message_queue: states[0].message_queue, ..*old(self) }),
                states.last() == *self,
                self.message_queue@.len() == 0,
                self.reconnect_attempt_count <= old(self).reconnect_attempt_count + i,
                self.next_game_action_sequence <= old(self).next_game_action_sequence + i,
                old(self).reconnect_attempt_count + msgs@.len() < u32::MAX,
                old(self).next_game_action_sequence + msgs@.len() < u32::MAX,
                forall|k: int| 0 <= k < i ==> #[trigger] states[k].message_effect(msgs@[k], now, delay_ms, states[k + 1]),
            decreases msgs@.len() - i,
        {
            let ghost pre = *self;
            self.handle_message(&msgs[i], now, delay_ms);
            proof {
                let old_states = states;
                states = states.push(*self);
                assert(states[i as int] == pre);
                assert forall|k: int| 0 <= k < i + 1 implies
                    #[trigger] states[k].message_effect(msgs@[k], now, delay_ms, states[k + 1]) by {
                    if k < i {
                        assert(states[k] == old_states[k]);
                        assert(states[k + 1] == old_states[k + 1]);
                    }
                }
            }
            i = i + 1;
        }
    }

    /// Handle every queued server message at the current time.
    pub fn process_messages(&mut self, delay_ms: u64)
        requires
            old(self).reconnect_attempt_count + old(self).message_queue@.len() < u32::MAX,
            old(self).next_game_action_sequence + old(self).message_queue@.len() < u32::MAX,
        ensures
            final(self).message_queue@.len() == 0,
            exists|now: Instant| #[trigger] old(self).messages_effect(now, delay_ms, *final(self)),
    {
        let now = Instant::now();
        self.process_messages_at(now, delay_ms);
        assert(old(self).messages_effect(now, delay_ms, *self));
    }
}

} // verus!