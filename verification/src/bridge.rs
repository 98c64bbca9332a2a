//! The mobile bridge: the events it hands the app, the numbering of those
//! events, the translation of client events into them, the checks on the
//! arguments of a connect call, and the decisions of the session loop.

use vstd::prelude::*;
use std::collections::HashMap;
use crate::events::{CharacterIdentity, ClientEvent, ClientSystemEvent, SimpleClientAction, SimpleGameEvent};
use crate::instant::{Instant, sat_sub};
use crate::text::chars_of;
use crate::queue::sat_add;
use crate::client::UI_DELAY_MS;
use vstd::string::StrSliceExecFns;

verus! {

broadcast use vstd::std_specs::hash::group_hash_axioms;

/// How long a character login may go unanswered, in milliseconds.
pub const ENTER_WORLD_TIMEOUT_MS: u64 = 20000;
/// How long the initial login may go unanswered, in milliseconds.
pub const LOGIN_TIMEOUT_MS: u64 = 10000;
/// The interval between keep-alives, in milliseconds.
pub const KEEPALIVE_INTERVAL_MS: u64 = 5000;
/// Longest host name accepted, in bytes.
pub const MAX_HOST_BYTES: usize = 255;
/// Longest account name accepted, in bytes.
pub const MAX_ACCOUNT_BYTES: usize = 255;
/// Longest password accepted, in bytes.
pub const MAX_PASSWORD_BYTES: usize = 512;
/// Longest chat message accepted, in bytes.
pub const MAX_CHAT_BYTES: usize = 512;

/// A character as the app sees it.
#[derive(Clone, Debug, PartialEq, Eq)]
pub struct Character {
    pub id: u32,
    pub name: String,
}

/// What the bridge tells the app.
#[derive(Clone, Debug, PartialEq, Eq)]
pub enum BridgeEventKind {
    Connecting,
    Characters { account: String, slots: u32, characters: Vec<Character> },
    EnteringWorld { character_id: u32 },
    EnteredWorld { character_id: u32, character_name: String },
    Chat { message: String, message_type: u32 },
    /// A failure, with the screen the app returns to.
    Error { code: String, message: String, recover_to: String },
    /// The session ended; this is always the last event.
    Disconnected { reason: String, user_initiated: bool },
}

/// An event, numbered from one in the order of emission and stamped with
/// the wall-clock time in milliseconds since the epoch.
#[derive(Clone, Debug, PartialEq, Eq)]
pub struct BridgeEvent {
    pub sequence: u64,
    pub timestamp_ms: u128,
    pub kind: BridgeEventKind,
}

/// `t`, or `last` where that is later.
pub open spec fn later_stamp(t: u128, last: u128) -> u128 {
    if t >= last { t } else { last }
}

/// Numbers the events of one session and stamps them, never earlier than
/// the event before.
pub struct Emitter {
    pub sequence: u64,
    /// The stamp of the last event, in milliseconds since the epoch.
    pub last_timestamp_ms: u128,
}

impl Emitter {
    /// An emitter that has emitted nothing.
    pub fn new() -> (r: Emitter)
        ensures
            r.sequence == 0,
            r.last_timestamp_ms == 0,
    {
        Emitter { sequence: 0, last_timestamp_ms: 0 }
    }

    /// The next event, of `kind`, stamped `timestamp_ms`, or the last stamp
    /// where that is later: stamps never go backwards.
    pub fn emit_at(&mut self, kind: BridgeEventKind, timestamp_ms: u128) -> (r: BridgeEvent)
        requires
            old(self).sequence < u64::MAX,
        ensures
            final(self).sequence == old(self).sequence + 1,
            r == (BridgeEvent {
                sequence: final(self).sequence,
                timestamp_ms: if timestamp_ms >= old(self).last_timestamp_ms { timestamp_ms } else { old(self).last_timestamp_ms },
                kind,
            }),
            final(self).last_timestamp_ms == r.timestamp_ms,
    {
        self.sequence = self.sequence + 1;
        if timestamp_ms > self.last_timestamp_ms {
            self.last_timestamp_ms = timestamp_ms;
        }
        BridgeEvent { sequence: self.sequence, timestamp_ms: self.last_timestamp_ms, kind }
    }

    /// The next event, of `kind`, stamped with the current time (or the last
    /// stamp, where the clock reads earlier).
    pub fn emit(&mut self, kind: BridgeEventKind) -> (r: BridgeEvent)
        requires
            old(self).sequence < u64::MAX,
        ensures
            final(self).sequence == old(self).sequence + 1,
            r.sequence == final(self).sequence,
            r.kind == kind,
            exists|t: u128| r.timestamp_ms == #[trigger] later_stamp(t, old(self).last_timestamp_ms),
            final(self).last_timestamp_ms == r.timestamp_ms,
    {
        let now = Instant::now();
        let r = self.emit_at(kind, now.millis as u128);
        assert(r.timestamp_ms == later_stamp(now.millis as u128, old(self).last_timestamp_ms));
        r
    }

    /// The next event: an error with `code`, `message` and the screen to return to.
    pub fn error(&mut self, code: &str, message: String, recover_to: &str) -> (r: BridgeEvent)
        requires
            old(self).sequence < u64::MAX,
        ensures
            final(self).sequence == old(self).sequence + 1,
            r.sequence == final(self).sequence,
            r.kind matches BridgeEventKind::Error { code: c, message: m, recover_to: t }
                && c@ == code@ && m == message && t@ == recover_to@,
            exists|t: u128| r.timestamp_ms == #[trigger] later_stamp(t, old(self).last_timestamp_ms),
            final(self).last_timestamp_ms == r.timestamp_ms,
    {
        self.emit(BridgeEventKind::Error { code: code.to_owned(), message, recover_to: recover_to.to_owned() })
    }

    /// The next event: the session ended for `reason`.
    pub fn disconnected(&mut self, reason: String, user_initiated: bool) -> (r: BridgeEvent)
        requires
            old(self).sequence < u64::MAX,
        ensures
            final(self).sequence == old(self).sequence + 1,
            r.sequence == final(self).sequence,
            r.kind == (BridgeEventKind::Disconnected { reason, user_initiated }),
            exists|t: u128| r.timestamp_ms == #[trigger] later_stamp(t, old(self).last_timestamp_ms),
            final(self).last_timestamp_ms == r.timestamp_ms,
    {
        self.emit(BridgeEventKind::Disconnected { reason, user_initiated })
    }
}

/// `names` after recording each character of `chars` in order.
pub open spec fn names_after(names: Map<u32, String>, chars: Seq<CharacterIdentity>) -> Map<u32, String>
    decreases chars.len(),
{
    if chars.len() == 0 {
        names
    } else {
        names_after(names, chars.drop_last()).insert(chars.last().character_id, chars.last().name)
    }
}

/// The app's view of `chars`, in order.
pub open spec fn app_characters(chars: Seq<CharacterIdentity>) -> Seq<Character> {
    chars.map_values(|c: CharacterIdentity| Character { id: c.character_id, name: c.name })
}

/// The bridge event kind a client event becomes, if any.
pub open spec fn forwarded_kind(e: ClientEvent) -> Option<BridgeEventKind> {
    match e {
        ClientEvent::Game(SimpleGameEvent::LoginSucceeded { character_id, character_name }) =>
            Some(BridgeEventKind::EnteredWorld { character_id, character_name }),
        ClientEvent::Game(SimpleGameEvent::ChatMessageReceived { message, message_type }) =>
            Some(BridgeEventKind::Chat { message, message_type }),
        _ => None,
    }
}

/// The error code and return screen a failure event becomes, with its message.
pub open spec fn forwarded_error(e: ClientEvent) -> Option<(Seq<char>, String, Seq<char>)> {
    match e {
        ClientEvent::Game(SimpleGameEvent::LoginFailed { reason }) => Some(("login"@, reason, "characters"@)),
        ClientEvent::Game(SimpleGameEvent::CharacterError { error_message, .. }) =>
            Some(("character"@, error_message, "characters"@)),
        ClientEvent::System(ClientSystemEvent::AuthenticationFailed { reason }) =>
            Some(("authentication"@, reason, "form"@)),
        _ => None,
    }
}

/// `k` is an error with this code, message and return screen.
pub open spec fn is_error_kind(k: BridgeEventKind, code: Seq<char>, message: String, to: Seq<char>) -> bool {
    k matches BridgeEventKind::Error { code: c, message: m, recover_to: t } && c@ == code && m == message && t@ == to
}

/// `k` is the character list of `account` with `slots` slots and these characters.
pub open spec fn is_characters_kind(k: BridgeEventKind, account: String, slots: u32, chars: Seq<CharacterIdentity>) -> bool {
    k matches BridgeEventKind::Characters { account: a, slots: n, characters: cs }
        && a == account && n == slots && cs@ == app_characters(chars)
}

/// The app's view of a character list.
fn app_character_list(chars: &Vec<CharacterIdentity>, names: &mut HashMap<u32, String>) -> (r: Vec<Character>)
    ensures
        r@ == app_characters(chars@),
        final(names)@ == names_after(old(names)@, chars@),
{
    let mut r: Vec<Character> = Vec::new();
    let mut i: usize = 0;
    while i < chars.len()
        invariant
            i <= chars@.len(),
            r@ == app_characters(chars@.subrange(0, i as int)),
            names@ == names_after(old(names)@, chars@.subrange(0, i as int)),
        decreases chars.len() - i,
    {
        let c = &chars[i];
        names.insert(c.character_id, c.name.clone());
        r.push(Character { id: c.character_id, name: c.name.clone() });
        proof {
            let pre = chars@.subrange(0, i as int + 1);
            assert(pre.drop_last() =~= chars@.subrange(0, i as int));
            assert(app_characters(pre) =~= app_characters(chars@.subrange(0, i as int))
                .push(Character { id: c.character_id, name: c.name }));
        }
        i = i + 1;
    }
    proof { assert(chars@.subrange(0, chars@.len() as int) =~= chars@); }
    r
}

/// What forwarding `event` does: the event `r` told to the app, with the
/// emitter's count going from `count` to `count_after`, and the recorded
/// character names going from `names` to `names_after_event`.
pub open spec fn forward_effect(
    event: ClientEvent,
    names: Map<u32, String>,
    names_after_event: Map<u32, String>,
    r: Option<BridgeEvent>,
    count: u64,
    count_after: u64,
) -> bool {
    &&& r is Some ==> count_after == count + 1 && r->0.sequence == count_after
    &&& r is None ==> count_after == count
    &&& match event {
            ClientEvent::Game(SimpleGameEvent::CharacterListReceived { account, characters, num_slots }) => {
                &&& names_after_event == names_after(names, characters@)
                &&& r matches Some(b) && is_characters_kind(b.kind, account, num_slots, characters@)
            },
            _ => {
                &&& names_after_event == names
                &&& match forwarded_kind(event) {
                        Some(k) => (r matches Some(b) && b.kind == k),
                        None => match forwarded_error(event) {
                            Some((code, message, to)) => (r matches Some(b)
                                && is_error_kind(b.kind, code, message, to)),
                            None => r is None,
                        },
                    }
            },
        }
}

/// Translate a client event for the app: a character list (whose names are
/// recorded for selection), a login, a chat line or a failure becomes one
/// event; anything else none.
pub fn forward_event(emitter: &mut Emitter, event: ClientEvent, character_names: &mut HashMap<u32, String>)
    -> (r: Option<BridgeEvent>)
    requires
        old(emitter).sequence < u64::MAX,
    ensures
        forward_effect(event, old(character_names)@, final(character_names)@, r,
            old(emitter).sequence, final(emitter).sequence),
{
    match event {
        ClientEvent::Game(SimpleGameEvent::CharacterListReceived { account, characters, num_slots }) => {
            let list = app_character_list(&characters, character_names);
            Some(emitter.emit(BridgeEventKind::Characters { account, slots: num_slots, characters: list }))
        },
        ClientEvent::Game(SimpleGameEvent::LoginSucceeded { character_id, character_name }) =>
            Some(emitter.emit(BridgeEventKind::EnteredWorld { character_id, character_name })),
        ClientEvent::Game(SimpleGameEvent::ChatMessageReceived { message, message_type }) =>
            Some(emitter.emit(BridgeEventKind::Chat { message, message_type })),
        ClientEvent::Game(SimpleGameEvent::LoginFailed { reason }) =>
            Some(emitter.error("login", reason, "characters")),
        ClientEvent::Game(SimpleGameEvent::CharacterError { error_message, .. }) =>
            Some(emitter.error("character", error_message, "characters")),
        ClientEvent::System(ClientSystemEvent::AuthenticationFailed { reason }) =>
            Some(emitter.error("authentication", reason, "form")),
        _ => None,
    }
}

/// The result codes of the bridge's C interface.
#[derive(Clone, Copy, Debug, PartialEq, Eq, Structural)]
pub enum ResultCode {
    Success,
    NoEvent,
    InvalidArgument,
    InvalidState,
    QueueFull,
    TimedOut,
    InternalError,
}

impl ResultCode {
    /// The number a code has across the C interface.
    pub open spec fn code_spec(self) -> i32 {
        match self {
            ResultCode::Success => 0,
            ResultCode::NoEvent => 1,
            ResultCode::InvalidArgument => 2,
            ResultCode::InvalidState => 3,
            ResultCode::QueueFull => 4,
            ResultCode::TimedOut => 5,
            ResultCode::InternalError => 6,
        }
    }

    /// The number of this code across the C interface.
    pub fn code(self) -> (r: i32)
        ensures
            r == self.code_spec(),
    {
        match self {
            ResultCode::Success => 0,
            ResultCode::NoEvent => 1,
            ResultCode::InvalidArgument => 2,
            ResultCode::InvalidState => 3,
            ResultCode::QueueFull => 4,
            ResultCode::TimedOut => 5,
            ResultCode::InternalError => 6,
        }
    }
}

/// The message for a result code's number; any unknown number is an internal error.
pub open spec fn result_message_spec(code: i32) -> Seq<char> {
    if code == 0 { "ok"@ }
    else if code == 1 { "no event available"@ }
    else if code == 2 { "invalid argument"@ }
    else if code == 3 { "invalid session state"@ }
    else if code == 4 { "command queue is full"@ }
    else if code == 5 { "operation timed out"@ }
    else { "internal error"@ }
}

/// The message for a result code's number.
pub fn result_message(code: i32) -> (r: &'static str)
    ensures
        r@ == result_message_spec(code),
{
    if code == 0 { "ok" }
    else if code == 1 { "no event available" }
    else if code == 2 { "invalid argument" }
    else if code == 3 { "invalid session state" }
    else if code == 4 { "command queue is full" }
    else if code == 5 { "operation timed out" }
    else { "internal error" }
}

/// A character a host name may hold: an ASCII letter or digit, a dot or a hyphen.
pub open spec fn host_char(c: char) -> bool {
    ('a' <= c && c <= 'z') || ('A' <= c && c <= 'Z') || ('0' <= c && c <= '9') || c == '.' || c == '-'
}

/// A host the bridge connects to: a DNS name or an IPv4 address, never a
/// URL, an IPv6 literal or anything with a port or a space.
pub open spec fn host_valid(host: Seq<char>) -> bool {
    host.len() > 0 && forall|i: int| 0 <= i < host.len() ==> host_char(#[trigger] host[i])
}

/// Whether `host` is a DNS name or an IPv4 address.
pub fn valid_host(host: &str) -> (r: bool)
    ensures
        r == host_valid(host@),
{
    let cs = chars_of(host);
    if cs.len() == 0 {
        return false;
    }
    let mut i: usize = 0;
    while i < cs.len()
        invariant
            i <= cs@.len(),
            cs@ == host@,
            forall|k: int| 0 <= k < i ==> host_char(#[trigger] cs@[k]),
        decreases cs.len() - i,
    {
        let c = cs[i];
        let ok = ('a' <= c && c <= 'z') || ('A' <= c && c <= 'Z') || ('0' <= c && c <= '9') || c == '.' || c == '-';
        if !ok {
            return false;
        }
        i = i + 1;
    }
    true
}

/// The arguments of a connect call the bridge accepts.
pub open spec fn connect_arguments_valid(
    port: u16,
    host: Option<&str>,
    host_bytes: usize,
    username: Option<&str>,
    username_bytes: usize,
    password: Option<&str>,
    password_bytes: usize,
) -> bool {
    &&& port != 0
    &&& host_bytes <= MAX_HOST_BYTES
    &&& username_bytes <= MAX_ACCOUNT_BYTES
    &&& password_bytes <= MAX_PASSWORD_BYTES
    &&& host matches Some(h) && host_valid(h@)
    &&& username matches Some(u) && u@.len() > 0
    &&& password matches Some(p) && p@.len() > 0
}

/// What `char::is_whitespace` answers for `c`: whether it has the Unicode
/// White_Space property, which the Unicode Character Database gives to
/// U+0009..U+000D, U+0020, U+0085, U+00A0, U+1680, U+2000..U+200A, U+2028,
/// U+2029, U+202F, U+205F and U+3000.
pub open spec fn unicode_whitespace(c: char) -> bool {
    let n = c as u32;
    ||| 0x9 <= n <= 0xD
    ||| n == 0x20 || n == 0x85 || n == 0xA0 || n == 0x1680
    ||| 0x2000 <= n <= 0x200A
    ||| n == 0x2028 || n == 0x2029 || n == 0x202F || n == 0x205F || n == 0x3000
}

/// Calls `char::is_whitespace`.
#[verifier::external_body]
fn is_whitespace(c: char) -> (r: bool)
    ensures
        r == unicode_whitespace(c),
{
    c.is_whitespace()
}

/// Whether `s` is nothing but whitespace: what trimming it leaves is empty.
pub open spec fn blank(s: Seq<char>) -> bool {
    forall|i: int| 0 <= i < s.len() ==> #[trigger] unicode_whitespace(s[i])
}

/// Decide `blank`.
fn is_blank(s: &str) -> (r: bool)
    ensures
        r == blank(s@),
{
    let n = s.unicode_len();
    let mut i: usize = 0;
    while i < n
        invariant
            n == s@.len(),
            i <= n,
            forall|k: int| 0 <= k < i ==> #[trigger] unicode_whitespace(s@[k]),
        decreases n - i,
    {
        if !is_whitespace(s.get_char(i)) {
            return false;
        }
        i = i + 1;
    }
    true
}

/// Whether a chat message may be sent: it is text, of at most
/// `MAX_CHAT_BYTES` bytes, and not blank.
pub open spec fn chat_message_valid(message: Option<Seq<char>>, message_bytes: nat) -> bool {
    message matches Some(m) && message_bytes <= MAX_CHAT_BYTES && !blank(m)
}

/// Check a chat message from the app: `InvalidArgument` unless it is valid.
pub fn check_chat_message(message: Option<&str>, message_bytes: usize) -> (r: Result<(), ResultCode>)
    ensures
        r is Ok <==> chat_message_valid(match message { Some(m) => Some(m@), None => None }, message_bytes as nat),
        r matches Err(c) ==> c == ResultCode::InvalidArgument,
{
    match message {
        Some(m) => if message_bytes <= MAX_CHAT_BYTES && !is_blank(m) { Ok(()) } else { Err(ResultCode::InvalidArgument) },
        None => Err(ResultCode::InvalidArgument),
    }
}

/// Where a bridge session handle stands: not started, running, or closed.
#[derive(Clone, Copy, Debug, PartialEq, Eq, Structural)]
pub enum SessionPhase {
    Idle,
    Running,
    Closed,
}

/// Whether a connect call may start a session: only one not running.
pub fn check_connect_phase(phase: SessionPhase) -> (r: Result<(), ResultCode>)
    ensures
        r == (if phase == SessionPhase::Running { Err(ResultCode::InvalidState) } else { Ok(()) }),
{
    match phase {
        SessionPhase::Running => Err(ResultCode::InvalidState),
        _ => Ok(()),
    }
}

/// Whether a command or an event request may reach the session: only a running one.
pub fn check_running_phase(phase: SessionPhase) -> (r: Result<(), ResultCode>)
    ensures
        r == (if phase == SessionPhase::Running { Ok(()) } else { Err(ResultCode::InvalidState) }),
{
    match phase {
        SessionPhase::Running => Ok(()),
        _ => Err(ResultCode::InvalidState),
    }
}

/// Check the arguments of a connect call: a port, and each text present
/// (given by its UTF-8 decoding, or `None` when it is missing or not UTF-8)
/// within its byte limit, with a valid host and a non-empty account and password.
pub fn check_connect_arguments(
    port: u16,
    host: Option<&str>,
    host_bytes: usize,
    username: Option<&str>,
    username_bytes: usize,
    password: Option<&str>,
    password_bytes: usize,
) -> (r: Result<(), ResultCode>)
    ensures
        r is Ok <==> connect_arguments_valid(port, host, host_bytes, username, username_bytes, password, password_bytes),
        r matches Err(e) ==> e == ResultCode::InvalidArgument,
{
    if port == 0 || host_bytes > MAX_HOST_BYTES || username_bytes > MAX_ACCOUNT_BYTES
        || password_bytes > MAX_PASSWORD_BYTES {
        return Err(ResultCode::InvalidArgument);
    }
    match (host, username, password) {
        (Some(h), Some(u), Some(p)) => {
            if !valid_host(h) || u.unicode_len() == 0 || p.unicode_len() == 0 {
                Err(ResultCode::InvalidArgument)
            } else {
                Ok(())
            }
        },
        _ => Err(ResultCode::InvalidArgument),
    }
}

/// The commands the app sends a running session.
#[derive(Clone, Debug, PartialEq, Eq)]
pub enum Command {
    SelectCharacter(u32),
    SendChat(String),
    Disconnect,
}

/// The login action for the character the app selected, when its name is
/// known from a character list; otherwise the error event's code, message
/// and return screen.
pub fn select_character_action(character_names: &HashMap<u32, String>, character_id: u32, account: &String)
    -> (r: Result<SimpleClientAction, (String, String, String)>)
    ensures
        character_names@.contains_key(character_id) ==> r == Ok::<SimpleClientAction, (String, String, String)>(
            SimpleClientAction::LoginCharacter {
                character_id,
                character_name: character_names@[character_id],
                account: *account,
            }),
        !character_names@.contains_key(character_id) ==> (r matches Err((c, m, t))
            && c@ == "character"@ && m@ == "The selected character is not available."@ && t@ == "characters"@),
{
    match character_names.get(&character_id) {
        Some(name) => Ok(SimpleClientAction::LoginCharacter {
            character_id,
            character_name: name.clone(),
            account: account.clone(),
        }),
        None => Err((
            "character".to_owned(),
            "The selected character is not available.".to_owned(),
            "characters".to_owned(),
        )),
    }
}

/// Whether a client event settles a character login (it succeeded or failed).
pub fn ends_entering_world(event: &ClientEvent) -> (r: bool)
    ensures
        r == ends_entering_world_spec(*event),
{
    match event {
        ClientEvent::Game(SimpleGameEvent::LoginSucceeded { .. }) => true,
        ClientEvent::Game(SimpleGameEvent::CharacterError { .. }) => true,
        ClientEvent::Game(SimpleGameEvent::LoginFailed { .. }) => true,
        _ => false,
    }
}

/// Whether a client event ends the session: authentication failed.
pub fn ends_session(event: &ClientEvent) -> (r: bool)
    ensures
        r == (event matches ClientEvent::System(ClientSystemEvent::AuthenticationFailed { .. })),
{
    match event {
        ClientEvent::System(ClientSystemEvent::AuthenticationFailed { .. }) => true,
        _ => false,
    }
}

/// Whether a character login started at `since` has gone unanswered too long at `now`.
pub fn entering_world_timed_out(since: Option<Instant>, now: Instant) -> (r: bool)
    ensures
        r == entering_timed_out_spec(since, now),
{
    match since {
        Some(s) => now.duration_since(s) >= ENTER_WORLD_TIMEOUT_MS,
        None => false,
    }
}

/// Whether a keep-alive is due at `now`, the last one having gone out at `last`.
pub fn keepalive_due(last: Instant, now: Instant) -> (r: bool)
    ensures
        r == (sat_sub(now.millis, last.millis) >= KEEPALIVE_INTERVAL_MS),
{
    now.duration_since(last) >= KEEPALIVE_INTERVAL_MS
}

/// What the session loop does after a command from the app.
#[derive(Clone, Debug, PartialEq, Eq)]
pub enum CommandStep {
    /// Hand this action to the client and send what it queues; report the
    /// outcome with `on_character_login_sent`.
    LoginCharacter(SimpleClientAction),
    /// Hand this action to the client and send what it queues; a failed send
    /// ends the session.
    Chat(SimpleClientAction),
    /// Tell the app this, and carry on.
    Report(BridgeEvent),
    /// End the session for this reason.
    End(String),
}

/// The events of `q` that are due at `now`, in order.
pub open spec fn due_events(q: Seq<(Instant, ClientEvent)>, now: Instant) -> Seq<ClientEvent>
    decreases q.len(),
{
    if q.len() == 0 {
        Seq::empty()
    } else if now.millis >= q.last().0.millis {
        due_events(q.drop_last(), now).push(q.last().1)
    } else {
        due_events(q.drop_last(), now)
    }
}

/// The entries of `q` not yet due at `now`, in order.
pub open spec fn not_due(q: Seq<(Instant, ClientEvent)>, now: Instant) -> Seq<(Instant, ClientEvent)>
    decreases q.len(),
{
    if q.len() == 0 {
        q
    } else if now.millis < q.last().0.millis {
        not_due(q.drop_last(), now).push(q.last())
    } else {
        not_due(q.drop_last(), now)
    }
}

/// `events`, each due `UI_DELAY_MS` after `now`.
pub open spec fn scheduled(events: Seq<ClientEvent>, now: Instant) -> Seq<(Instant, ClientEvent)> {
    events.map_values(|e: ClientEvent| (Instant { millis: sat_add(now.millis, UI_DELAY_MS) }, e))
}

/// Client events the session holds back for the UI delay before the app
/// hears of them, each with the time it is due.
pub struct DelayedEvents {
    pub queue: Vec<(Instant, ClientEvent)>,
}

impl DelayedEvents {
    pub fn new() -> (r: DelayedEvents)
        ensures
            r.queue@ == Seq::<(Instant, ClientEvent)>::empty(),
    {
        DelayedEvents { queue: Vec::new() }
    }

    /// Hold back `events`, in order, until `UI_DELAY_MS` after `now`.
    pub fn schedule(&mut self, now: Instant, events: Vec<ClientEvent>)
        ensures
            final(self).queue@ == old(self).queue@ + scheduled(events@, now),
    {
        let at = Instant { millis: if now.millis <= u64::MAX - UI_DELAY_MS { now.millis + UI_DELAY_MS } else { u64::MAX } };
        let ghost all = events@;
        let mut rest = events;
        let ghost mut k: int = 0;
        while rest.len() > 0
            invariant
                0 <= k <= all.len(),
                rest@ == all.skip(k),
                at == (Instant { millis: sat_add(now.millis, UI_DELAY_MS) }),
                self.queue@ == old(self).queue@ + scheduled(all.take(k), now),
            decreases rest.len(),
        {
            let e = rest.remove(0);
            proof {
                assert(e == all[k]);
                assert(scheduled(all.take(k + 1), now) =~= scheduled(all.take(k), now).push((at, e)));
            }
            self.queue.push((at, e));
            proof {
                k = k + 1;
                assert(rest@ =~= all.skip(k));
                assert(self.queue@ =~= old(self).queue@ + scheduled(all.take(k), now));
            }
        }
        proof { assert(all.take(k) =~= all); }
    }

    /// Take the events due at `now`, in order; the others stay, in order.
    pub fn take_due(&mut self, now: Instant) -> (r: Vec<ClientEvent>)
        ensures
            r@ == due_events(old(self).queue@, now),
            final(self).queue@ == not_due(old(self).queue@, now),
    {
        let mut pending: Vec<(Instant, ClientEvent)> = Vec::new();
        std::mem::swap(&mut pending, &mut self.queue);
        let ghost q = pending@;
        let mut due: Vec<ClientEvent> = Vec::new();
        let mut waiting: Vec<(Instant, ClientEvent)> = Vec::new();
        let ghost mut k: int = 0;
        while pending.len() > 0
            invariant
                0 <= k <= q.len(),
                pending@ == q.skip(k),
                due@ == due_events(q.take(k), now),
                waiting@ == not_due(q.take(k), now),
            decreases pending.len(),
        {
            let entry = pending.remove(0);
            proof {
                assert(entry == q[k]);
                assert(q.take(k + 1).drop_last() == q.take(k));
                assert(q.take(k + 1).last() == q[k]);
            }
            let (at, e) = entry;
            if now.millis >= at.millis {
                due.push(e);
            } else {
                waiting.push((at, e));
            }
            proof {
                k = k + 1;
                assert(pending@ =~= q.skip(k));
            }
        }
        proof { assert(q.take(k) == q); }
        self.queue = waiting;
        due
    }

    /// Take every held event, due or not, in order.
    pub fn take_all(&mut self) -> (r: Vec<ClientEvent>)
        ensures
            r@ == old(self).queue@.map_values(|p: (Instant, ClientEvent)| p.1),
            final(self).queue@ == Seq::<(Instant, ClientEvent)>::empty(),
    {
        let mut pending: Vec<(Instant, ClientEvent)> = Vec::new();
        std::mem::swap(&mut pending, &mut self.queue);
        let ghost q = pending@;
        let mut all: Vec<ClientEvent> = Vec::new();
        let ghost mut k: int = 0;
        while pending.len() > 0
            invariant
                0 <= k <= q.len(),
                pending@ == q.skip(k),
                all@ == q.take(k).map_values(|p: (Instant, ClientEvent)| p.1),
                self.queue@ == Seq::<(Instant, ClientEvent)>::empty(),
            decreases pending.len(),
        {
            let entry = pending.remove(0);
            proof { assert(entry == q[k]); }
            let (_at, e) = entry;
            all.push(e);
            proof {
                assert(q.take(k + 1).map_values(|p: (Instant, ClientEvent)| p.1)
                    =~= q.take(k).map_values(|p: (Instant, ClientEvent)| p.1).push(e));
                k = k + 1;
                assert(pending@ =~= q.skip(k));
            }
        }
        proof { assert(q.take(k) == q); }
        all
    }
}

/// The bridge's session loop, as decisions: the numbering of what it tells
/// the app, the characters it may log in, and the timers it watches. Only
/// `finish` tells the app of a disconnect, and once it has, no method may
/// tell the app anything more: the app hears of the end exactly once, last.
pub struct SessionActor {
    pub emitter: Emitter,
    /// Whether the session has ended and the app has been told.
    pub finished: bool,
    pub character_names: HashMap<u32, String>,
    /// When the pending character login started.
    pub entering_world_since: Option<Instant>,
    /// Whether the app asked to disconnect.
    pub user_initiated: bool,
    pub last_keepalive: Instant,
    pub username: String,
}

impl SessionActor {
    /// A session for `username` started at `now`.
    pub fn new(username: String, now: Instant) -> (r: SessionActor)
        ensures
            r.emitter.sequence == 0,
            r.character_names@ == Map::<u32, String>::empty(),
            r.entering_world_since is None,
            !r.user_initiated,
            r.last_keepalive == now,
            r.username == username,
            !r.finished,
    {
        SessionActor {
            emitter: Emitter::new(),
            finished: false,
            character_names: HashMap::new(),
            entering_world_since: None,
            user_initiated: false,
            last_keepalive: now,
            username,
        }
    }

    /// The first event: connecting, stamped `timestamp_ms`.
    pub fn start(&mut self, timestamp_ms: u128) -> (r: BridgeEvent)
        requires
            !old(self).finished,
            old(self).emitter.sequence < u64::MAX,
        ensures
            final(self).finished == old(self).finished,
            r == (BridgeEvent {
                sequence: (old(self).emitter.sequence + 1) as u64,
                timestamp_ms: if timestamp_ms >= old(self).emitter.last_timestamp_ms { timestamp_ms } else { old(self).emitter.last_timestamp_ms },
                kind: BridgeEventKind::Connecting,
            }),
            final(self).emitter.sequence == old(self).emitter.sequence + 1,
            final(self).character_names == old(self).character_names,
            final(self).entering_world_since == old(self).entering_world_since,
            final(self).user_initiated == old(self).user_initiated,
    {
        self.emitter.emit_at(BridgeEventKind::Connecting, timestamp_ms)
    }

    /// Decide what a command from the app leads to.
    pub fn on_command(&mut self, command: Command) -> (r: CommandStep)
        requires
            !old(self).finished,
            old(self).emitter.sequence < u64::MAX,
        ensures
            final(self).finished == old(self).finished,
            final(self).character_names == old(self).character_names,
            final(self).entering_world_since == old(self).entering_world_since,
            final(self).last_keepalive == old(self).last_keepalive,
            match command {
                Command::SelectCharacter(id) => if old(self).character_names@.contains_key(id) {
                    &&& r == CommandStep::LoginCharacter(SimpleClientAction::LoginCharacter {
                            character_id: id,
                            character_name: old(self).character_names@[id],
                            account: old(self).username,
                        })
                    &&& final(self).emitter == old(self).emitter
                    &&& final(self).user_initiated == old(self).user_initiated
                } else {
                    &&& r matches CommandStep::Report(e) && e.sequence == old(self).emitter.sequence + 1
                        && is_error_kind(e.kind, "character"@, e.kind->Error_message, "characters"@)
                        && e.kind->Error_message@ == "The selected character is not available."@
                    &&& final(self).emitter.sequence == old(self).emitter.sequence + 1
                    &&& final(self).user_initiated == old(self).user_initiated
                },
                Command::SendChat(message) => {
                    &&& r == CommandStep::Chat(SimpleClientAction::SendChatSay { message })
                    &&& final(self).emitter == old(self).emitter
                    &&& final(self).user_initiated == old(self).user_initiated
                },
                Command::Disconnect => {
                    &&& r matches CommandStep::End(reason) && reason@ == "disconnected by user"@
                    &&& final(self).user_initiated
                    &&& final(self).emitter == old(self).emitter
                },
            },
    {
        match command {
            Command::SelectCharacter(id) => match select_character_action(&self.character_names, id, &self.username) {
                Ok(action) => CommandStep::LoginCharacter(action),
                Err((code, message, to)) => {
                    let e = self.emitter.emit(BridgeEventKind::Error { code, message, recover_to: to });
                    CommandStep::Report(e)
                },
            },
            Command::SendChat(message) => CommandStep::Chat(SimpleClientAction::SendChatSay { message }),
            Command::Disconnect => {
                self.user_initiated = true;
                CommandStep::End("disconnected by user".to_owned())
            },
        }
    }

    /// The character login for `character_id` was sent at `now` (`sent`),
    /// or sending it failed with `error`: the app learns either way.
    pub fn on_character_login_sent(&mut self, character_id: u32, sent: Result<(), String>, now: Instant) -> (r: BridgeEvent)
        requires
            !old(self).finished,
            old(self).emitter.sequence < u64::MAX,
        ensures
            final(self).finished == old(self).finished,
            final(self).emitter.sequence == old(self).emitter.sequence + 1,
            r.sequence == final(self).emitter.sequence,
            match sent {
                Ok(()) => r.kind == BridgeEventKind::EnteringWorld { character_id }
                    && final(self).entering_world_since == Some(now),
                Err(m) => is_error_kind(r.kind, "network"@, m, "characters"@)
                    && final(self).entering_world_since == old(self).entering_world_since,
            },
            final(self).character_names == old(self).character_names,
            final(self).user_initiated == old(self).user_initiated,
    {
        match sent {
            Ok(()) => {
                self.entering_world_since = Some(now);
                self.emitter.emit(BridgeEventKind::EnteringWorld { character_id })
            },
            Err(m) => self.emitter.error("network", m, "characters"),
        }
    }

    /// A client event: settle a pending character login when it succeeded or
    /// failed, forward it to the app, and end the session when authentication
    /// failed.
    pub fn on_client_event(&mut self, event: ClientEvent) -> (r: (Option<BridgeEvent>, Option<String>))
        requires
            !old(self).finished,
            old(self).emitter.sequence < u64::MAX,
        ensures
            final(self).finished == old(self).finished,
            (ends_entering_world_spec(event)) ==> final(self).entering_world_since is None,
            !(ends_entering_world_spec(event)) ==> final(self).entering_world_since == old(self).entering_world_since,
            r.1 is Some <==> event matches ClientEvent::System(ClientSystemEvent::AuthenticationFailed { .. }),
            r.1 matches Some(reason) ==> reason@ == "authentication failed"@,
            forward_effect(event, old(self).character_names@, final(self).character_names@, r.0,
                old(self).emitter.sequence, final(self).emitter.sequence),
            r.0 matches Some(e) ==> !(e.kind is Disconnected),
            final(self).user_initiated == old(self).user_initiated,
            final(self).last_keepalive == old(self).last_keepalive,
            final(self).username == old(self).username,
    {
        if ends_entering_world(&event) {
            self.entering_world_since = None;
        }
        let terminal = ends_session(&event);
        let forwarded = forward_event(&mut self.emitter, event, &mut self.character_names);
        if terminal {
            (forwarded, Some("authentication failed".to_owned()))
        } else {
            (forwarded, None)
        }
    }

    /// The timers at `now`, `timed_out` telling whether the client gave up on
    /// the handshake: a stalled handshake ends the session; so does a
    /// character login left unanswered too long, after an error for the app.
    pub fn on_tick(&mut self, now: Instant, timed_out: bool) -> (r: Option<(Option<BridgeEvent>, String)>)
        requires
            !old(self).finished,
            old(self).emitter.sequence < u64::MAX,
        ensures
            final(self).finished == old(self).finished,
            timed_out ==> (r matches Some((None, reason)) && reason@ == "connection timed out"@
                && final(self).emitter == old(self).emitter),
            !timed_out && entering_timed_out_spec(old(self).entering_world_since, now)
                ==> (r matches Some((Some(e), reason)) && reason@ == "entering world timed out"@
                    && e.sequence == old(self).emitter.sequence + 1
                    && is_error_kind(e.kind, "character"@, e.kind->Error_message, "characters"@)
                    && e.kind->Error_message@ == "The server did not respond to the character login."@),
            !timed_out && !entering_timed_out_spec(old(self).entering_world_since, now)
                ==> r is None && final(self).emitter == old(self).emitter,
            final(self).entering_world_since == old(self).entering_world_since,
            final(self).user_initiated == old(self).user_initiated,
    {
        if timed_out {
            return Some((None, "connection timed out".to_owned()));
        }
        if entering_world_timed_out(self.entering_world_since, now) {
            let e = self.emitter.error(
                "character",
                "The server did not respond to the character login.".to_owned(),
                "characters",
            );
            return Some((Some(e), "entering world timed out".to_owned()));
        }
        None
    }

    /// Whether a keep-alive is due at `now`; when it is, it counts as sent.
    pub fn keepalive_due_at(&mut self, now: Instant) -> (r: bool)
        ensures
            final(self).finished == old(self).finished,
            r == (sat_sub(now.millis, old(self).last_keepalive.millis) >= KEEPALIVE_INTERVAL_MS),
            r ==> final(self).last_keepalive == now,
            !r ==> final(self).last_keepalive == old(self).last_keepalive,
            final(self).emitter == old(self).emitter,
    {
        if keepalive_due(self.last_keepalive, now) {
            self.last_keepalive = now;
            true
        } else {
            false
        }
    }

    /// An error for the app, with `code`, `message` and the screen to return to.
    pub fn report_error(&mut self, code: &str, message: String, recover_to: &str) -> (r: BridgeEvent)
        requires
            !old(self).finished,
            old(self).emitter.sequence < u64::MAX,
        ensures
            final(self).finished == old(self).finished,
            final(self).emitter.sequence == old(self).emitter.sequence + 1,
            r.sequence == final(self).emitter.sequence,
            is_error_kind(r.kind, code@, message, recover_to@),
            final(self).character_names == old(self).character_names,
            final(self).entering_world_since == old(self).entering_world_since,
            final(self).user_initiated == old(self).user_initiated,
            final(self).last_keepalive == old(self).last_keepalive,
    {
        self.emitter.error(code, message, recover_to)
    }

    /// The last event: the session ended for `reason`. Afterwards the actor
    /// is finished and tells the app nothing more.
    pub fn finish(&mut self, reason: String) -> (r: BridgeEvent)
        requires
            !old(self).finished,
            old(self).emitter.sequence < u64::MAX,
        ensures
            final(self).finished,
            r.sequence == old(self).emitter.sequence + 1,
            r.kind == (BridgeEventKind::Disconnected { reason, user_initiated: old(self).user_initiated }),
    {
        let initiated = self.user_initiated;
        self.finished = true;
        self.emitter.disconnected(reason, initiated)
    }
}

/// Whether a character login started at `since` has gone unanswered too long at `now`.
pub open spec fn entering_timed_out_spec(since: Option<Instant>, now: Instant) -> bool {
    since matches Some(s) && sat_sub(now.millis, s.millis) >= ENTER_WORLD_TIMEOUT_MS
}

/// Whether a client event settles a character login.
pub open spec fn ends_entering_world_spec(event: ClientEvent) -> bool {
    event matches ClientEvent::Game(SimpleGameEvent::LoginSucceeded { .. })
        || event matches ClientEvent::Game(SimpleGameEvent::CharacterError { .. })
        || event matches ClientEvent::Game(SimpleGameEvent::LoginFailed { .. })
}

} // verus!
