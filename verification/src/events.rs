//! Event and action types exchanged between the client, its consumers and scripts.

use vstd::prelude::*;
use crate::instant::Instant;

verus! {

/// A character as shown on the character select screen.
#[derive(Clone, Debug, PartialEq, Eq)]
pub struct CharacterInfo {
    pub name: String,
    pub id: u32,
    pub delete_pending: bool,
}

/// A character entry of the server's character list.
#[derive(Clone, Debug, PartialEq, Eq)]
pub struct CharacterIdentity {
    pub character_id: u32,
    pub name: String,
    /// Seconds until a pending deletion completes; zero when none is pending.
    pub seconds_greyed_out: u32,
}

impl CharacterInfo {
    /// A field-by-field copy.
    pub fn duplicate(&self) -> (r: CharacterInfo)
        ensures
            r == *self,
    {
        CharacterInfo { name: self.name.clone(), id: self.id, delete_pending: self.delete_pending }
    }
}

impl CharacterIdentity {
    /// A field-by-field copy.
    pub fn duplicate(&self) -> (r: CharacterIdentity)
        ensures
            r == *self,
    {
        CharacterIdentity {
            character_id: self.character_id,
            name: self.name.clone(),
            seconds_greyed_out: self.seconds_greyed_out,
        }
    }

    /// The select-screen entry for this character: a deletion is pending
    /// exactly when the greyed-out countdown is running.
    pub open spec fn info_spec(self) -> CharacterInfo {
        CharacterInfo { name: self.name, id: self.character_id, delete_pending: self.seconds_greyed_out > 0 }
    }

    /// The select-screen entry for this character.
    pub fn to_info(&self) -> (r: CharacterInfo)
        ensures
            r == self.info_spec(),
    {
        CharacterInfo {
            name: self.name.clone(),
            id: self.character_id,
            delete_pending: self.seconds_greyed_out > 0,
        }
    }
}

/// The select-screen entries of a character list, in order.
pub open spec fn infos_of(ids: Seq<CharacterIdentity>) -> Seq<CharacterInfo> {
    ids.map_values(|c: CharacterIdentity| c.info_spec())
}

/// The select-screen entries of a character list, in order.
pub fn character_infos(ids: &Vec<CharacterIdentity>) -> (r: Vec<CharacterInfo>)
    ensures
        r@ == infos_of(ids@),
{
    let mut r: Vec<CharacterInfo> = Vec::new();
    let mut i: usize = 0;
    while i < ids.len()
        invariant
            i <= ids.len(),
            r@ == infos_of(ids@.take(i as int)),
        decreases ids.len() - i,
    {
        r.push(ids[i].to_info());
        proof {
            assert(ids@.take(i as int + 1) == ids@.take(i as int).push(ids@[i as int]));
        }
        i = i + 1;
    }
    proof {
        assert(ids@.take(ids.len() as int) == ids@);
    }
    r
}

/// A copy of a character list.
pub fn duplicate_identities(ids: &Vec<CharacterIdentity>) -> (r: Vec<CharacterIdentity>)
    ensures
        r@ == ids@,
{
    let mut r: Vec<CharacterIdentity> = Vec::new();
    let mut i: usize = 0;
    while i < ids.len()
        invariant
            i <= ids.len(),
            r@ == ids@.take(i as int),
        decreases ids.len() - i,
    {
        r.push(ids[i].duplicate());
        proof {
            assert(ids@.take(i as int + 1) == ids@.take(i as int).push(ids@[i as int]));
        }
        i = i + 1;
    }
    proof {
        assert(ids@.take(ids.len() as int) == ids@);
    }
    r
}

/// Where an event came from.
#[derive(Clone, Copy, Debug, PartialEq, Eq, Structural)]
pub enum EventSource {
    /// A server message.
    Network,
    /// A change of the client's own state.
    ClientInternal,
    /// A script.
    Script,
    /// The system or the lifecycle.
    System,
}

/// Context attached to every event.
#[derive(Clone, Debug)]
pub struct EventContext {
    /// The client that produced the event.
    pub client_id: u32,
    /// The event's number among that client's events.
    pub client_sequence: u64,
    /// Extra key/value pairs; no key occurs twice.
    pub metadata: Vec<(String, String)>,
}

/// The key/value pairs of a metadata list, read as a map.
pub open spec fn metadata_map(m: Seq<(String, String)>) -> Map<Seq<char>, Seq<char>>
    decreases m.len(),
{
    if m.len() == 0 {
        Map::empty()
    } else {
        metadata_map(m.drop_last()).insert(m.last().0@, m.last().1@)
    }
}

/// No key occurs twice in a metadata list.
pub open spec fn keys_distinct(m: Seq<(String, String)>) -> bool {
    forall|i: int, j: int| 0 <= i < j < m.len() ==> m[i].0@ != m[j].0@
}

proof fn lemma_metadata_map_keys(m: Seq<(String, String)>)
    ensures
        forall|k: Seq<char>| metadata_map(m).contains_key(k) <==> exists|i: int| 0 <= i < m.len() && m[i].0@ == k,
    decreases m.len(),
{
    if m.len() > 0 {
        lemma_metadata_map_keys(m.drop_last());
        assert forall|k: Seq<char>| metadata_map(m).contains_key(k) implies exists|i: int| 0 <= i < m.len() && m[i].0@ == k by {
            if k == m.last().0@ {
                assert(m[m.len() - 1].0@ == k);
            } else {
                assert(metadata_map(m.drop_last()).contains_key(k));
                let i = choose|i: int| 0 <= i < m.drop_last().len() && m.drop_last()[i].0@ == k;
                assert(m[i].0@ == k);
            }
        }
        assert forall|k: Seq<char>| (exists|i: int| 0 <= i < m.len() && m[i].0@ == k) implies metadata_map(m).contains_key(k) by {
            let i = choose|i: int| 0 <= i < m.len() && m[i].0@ == k;
            if i < m.len() - 1 {
                assert(m.drop_last()[i].0@ == k);
                assert(metadata_map(m.drop_last()).contains_key(k));
            }
        }
    }
}

proof fn lemma_metadata_map_update(m: Seq<(String, String)>, idx: int, v: String)
    requires
        keys_distinct(m),
        0 <= idx < m.len(),
    ensures
        metadata_map(m.update(idx, (m[idx].0, v))) == metadata_map(m).insert(m[idx].0@, v@),
    decreases m.len(),
{
    let m2 = m.update(idx, (m[idx].0, v));
    if idx == m.len() - 1 {
        assert(m2.drop_last() == m.drop_last());
        assert(metadata_map(m2) =~= metadata_map(m).insert(m[idx].0@, v@));
    } else {
        assert(m2.drop_last() == m.drop_last().update(idx, (m[idx].0, v)));
        lemma_metadata_map_update(m.drop_last(), idx, v);
        assert(m.last().0@ != m[idx].0@);
        assert(metadata_map(m2) =~= metadata_map(m).insert(m[idx].0@, v@));
    }
}

impl EventContext {
    /// The metadata, read as a map.
    pub open spec fn metadata_view(self) -> Map<Seq<char>, Seq<char>> {
        metadata_map(self.metadata@)
    }

    /// The context well-formedness: metadata keys are distinct.
    pub open spec fn wf(self) -> bool {
        keys_distinct(self.metadata@)
    }

    /// A context for event number `client_sequence` of client `client_id`, without metadata.
    pub fn new(client_id: u32, client_sequence: u64) -> (r: EventContext)
        ensures
            r.client_id == client_id,
            r.client_sequence == client_sequence,
            r.metadata@.len() == 0,
            r.metadata_view() == Map::<Seq<char>, Seq<char>>::empty(),
            r.wf(),
    {
        EventContext { client_id, client_sequence, metadata: Vec::new() }
    }

    /// The context with `key` mapped to `value`, replacing any earlier value of `key`.
    pub fn with_metadata(self, key: String, value: String) -> (r: EventContext)
        requires
            self.wf(),
        ensures
            r.wf(),
            r.client_id == self.client_id,
            r.client_sequence == self.client_sequence,
            r.metadata_view() == self.metadata_view().insert(key@, value@),
    {
        let mut s = self;
        let mut i: usize = 0;
        while i < s.metadata.len()
            invariant
                i <= s.metadata.len(),
                s.metadata@ == self.metadata@,
                keys_distinct(self.metadata@),
                s.client_id == self.client_id,
                s.client_sequence == self.client_sequence,
                forall|j: int| 0 <= j < i ==> s.metadata@[j].0@ != key@,
            decreases s.metadata.len() - i,
        {
            if s.metadata[i].0 == key {
                let ghost old_m = s.metadata@;
                let k = s.metadata[i].0.clone();
                s.metadata.set(i, (k, value));
                proof {
                    lemma_metadata_map_update(old_m, i as int, value);
                    assert(s.metadata@ == old_m.update(i as int, (old_m[i as int].0, value)));
                    assert(keys_distinct(s.metadata@)) by {
                        assert forall|a: int, b: int| 0 <= a < b < s.metadata@.len()
                            implies s.metadata@[a].0@ != s.metadata@[b].0@ by {
                            assert(s.metadata@[a].0@ == old_m[a].0@);
                            assert(s.metadata@[b].0@ == old_m[b].0@);
                        }
                    }
                }
                return s;
            }
            i = i + 1;
        }
        let ghost old_m = s.metadata@;
        s.metadata.push((key, value));
        proof {
            assert(s.metadata@.drop_last() == old_m);
            lemma_metadata_map_keys(old_m);
        }
        s
    }
}

/// The direction of a network message.
#[derive(Clone, Copy, Debug, PartialEq, Eq, Structural)]
pub enum MessageDirection {
    Sent,
    Received,
}

/// Progress of the connecting or patching phase, in percent.
pub type Percent = u32;

/// Game-level events delivered to consumers and scripts.
#[derive(Clone, Debug, PartialEq, Eq)]
pub enum SimpleGameEvent {
    CharacterListReceived { account: String, characters: Vec<CharacterIdentity>, num_slots: u32 },
    /// The LoginComplete notification was sent for this character.
    LoginSucceeded { character_id: u32, character_name: String },
    LoginFailed { reason: String },
    CharacterError { error_code: u32, error_message: String },
    ChatMessageReceived { message: String, message_type: u32 },
    CreatePlayer { character_id: u32 },
    /// Progress of the connecting phase, in percent.
    ConnectingSetProgress { percent: Percent },
    /// Progress of the patching phase, in percent.
    UpdatingSetProgress { percent: Percent },
    ItemCreateObject {
        object_id: u32,
        name: String,
        item_type: String,
        container_id: Option<u32>,
        burden: u32,
        value: u32,
        items_capacity: Option<u32>,
        container_capacity: Option<u32>,
    },
    ItemOnViewContents { container_id: u32, items: Vec<u32> },
    PlayerContainersReceived { player_id: u32, containers: Vec<u32> },
    ItemDeleteObject { object_id: u32 },
    ItemMovedObject { object_id: u32, new_container_id: u32 },
    QualitiesPrivateUpdateInt { object_id: u32, property_name: String, value: i32 },
    ItemSetState { object_id: u32, property_name: String, value: i32 },
    WorldNameReceived { world_name: String },
}

/// Client state notifications.
#[derive(Clone, Debug, PartialEq, Eq)]
pub enum ClientStateEvent {
    Connecting,
    Connected,
    ConnectingFailed { reason: String },
    Patching,
    Patched,
    PatchingFailed { reason: String },
    CharacterSelect,
    EnteringWorld,
    InWorld,
    ExitingWorld,
    CharacterError,
}

/// Lifecycle events raised by the client itself.
#[derive(Clone, Debug, PartialEq, Eq)]
pub enum ClientSystemEvent {
    AuthenticationSucceeded,
    AuthenticationFailed { reason: String },
    ConnectingStarted,
    ConnectingDone,
    UpdatingStarted,
    UpdatingDone,
    LoginSucceeded { character_id: u32, character_name: String },
    /// The connection was lost.
    Disconnected { will_reconnect: bool, reconnect_attempt: u32, delay_secs: u64 },
    /// A reconnection attempt is starting.
    Reconnecting { attempt: u32, delay_secs: u64 },
}

/// Events as the client emits them, before the runner adds context.
#[derive(Clone, Debug, PartialEq, Eq)]
pub enum ClientEvent {
    Game(SimpleGameEvent),
    State(ClientStateEvent),
    System(ClientSystemEvent),
}

/// Script lifecycle notifications.
#[derive(Clone, Debug, PartialEq, Eq)]
pub enum ScriptEventType {
    Loaded,
    Unloaded,
    Error { message: String },
    Log { message: String },
}

/// System events after the runner has attributed them to a client.
#[derive(Clone, Debug, PartialEq, Eq)]
pub enum SystemEvent {
    /// Reload scripts from the given directory.
    ReloadScripts { script_dir: String },
    LogScriptMessage { script_id: String, message: String },
    AuthenticationSucceeded { client_id: u32 },
    AuthenticationFailed { client_id: u32, reason: String },
    ConnectingStarted { client_id: u32 },
    ConnectingDone { client_id: u32 },
    UpdatingStarted { client_id: u32 },
    UpdatingDone { client_id: u32 },
    LoginSucceeded { character_id: u32, character_name: String },
    Shutdown,
}

/// Requests that consumers and scripts send to the client.
#[derive(Clone, Debug, PartialEq, Eq)]
pub enum SimpleClientAction {
    /// Say something to everyone nearby.
    SendChatSay { message: String },
    /// Tell something to one player by name.
    SendChatTell { recipient_name: String, message: String },
    /// Log in as a specific character.
    LoginCharacter { character_id: u32, character_name: String, account: String },
    /// Send the LoginComplete notification.
    SendLoginComplete,
    /// Disconnect from the server.
    Disconnect,
    /// Reload scripts from the given directory (handled by the script runner).
    ReloadScripts { script_dir: String },
    /// A log line from a script.
    LogScriptMessage { script_id: String, message: String },
    /// Stop a movement command.
    StopMovementCommand { motion: u32, hold_key: u32 },
}

/// An event as consumers see it.
#[derive(Clone, Debug)]
pub enum EventType {
    Game(SimpleGameEvent),
    State(ClientStateEvent),
    System(SystemEvent),
}

/// An event with its context, time and origin.
#[derive(Clone, Debug)]
pub struct EventEnvelope {
    pub event: EventType,
    pub context: EventContext,
    pub timestamp: Instant,
    pub source: EventSource,
}

impl EventEnvelope {
    /// An envelope stamped at `timestamp`.
    pub fn new_at(event: EventType, context: EventContext, source: EventSource, timestamp: Instant) -> (r: EventEnvelope)
        ensures
            r == (EventEnvelope { event, context, timestamp, source }),
    {
        EventEnvelope { event, context, timestamp, source }
    }

    /// An envelope stamped with the current time.
    pub fn new(event: EventType, context: EventContext, source: EventSource) -> (r: EventEnvelope)
        ensures
            r.event == event,
            r.context == context,
            r.source == source,
    {
        Self::new_at(event, context, source, Instant::now())
    }

    /// A game event envelope for event number `client_sequence` of client `client_id`.
    pub fn game_event(game_event: SimpleGameEvent, client_id: u32, client_sequence: u64, source: EventSource) -> (r: EventEnvelope)
        ensures
            r.event == EventType::Game(game_event),
            r.context.client_id == client_id,
            r.context.client_sequence == client_sequence,
            r.context.metadata@.len() == 0,
            r.source == source,
    {
        let context = EventContext::new(client_id, client_sequence);
        Self::new(EventType::Game(game_event), context, source)
    }

    /// A state event envelope for event number `client_sequence` of client `client_id`.
    pub fn state_event(state_event: ClientStateEvent, client_id: u32, client_sequence: u64, source: EventSource) -> (r: EventEnvelope)
        ensures
            r.event == EventType::State(state_event),
            r.context.client_id == client_id,
            r.context.client_sequence == client_sequence,
            r.context.metadata@.len() == 0,
            r.source == source,
    {
        let context = EventContext::new(client_id, client_sequence);
        Self::new(EventType::State(state_event), context, source)
    }

    /// A system event envelope for event number `client_sequence` of client `client_id`.
    pub fn system_event(system_event: SystemEvent, client_id: u32, client_sequence: u64, source: EventSource) -> (r: EventEnvelope)
        ensures
            r.event == EventType::System(system_event),
            r.context.client_id == client_id,
            r.context.client_sequence == client_sequence,
            r.context.metadata@.len() == 0,
            r.source == source,
    {
        let context = EventContext::new(client_id, client_sequence);
        Self::new(EventType::System(system_event), context, source)
    }

    /// The game event, if this envelope holds one.
    pub fn extract_game_event(&self) -> (r: Option<&SimpleGameEvent>)
        ensures
            r == (match self.event {
                EventType::Game(g) => Some(&g),
                _ => None::<&SimpleGameEvent>,
            }),
    {
        match &self.event {
            EventType::Game(g) => Some(g),
            _ => None,
        }
    }
}

} // verus!
