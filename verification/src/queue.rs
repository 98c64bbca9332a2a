//! Messages waiting to be sent, each with an optional earliest send time.

use vstd::prelude::*;
use crate::ace_protocol::AceCharGenResult;
use crate::instant::Instant;

verus! {

/// Character login (enter world) with the chosen character.
#[derive(Clone, Debug, PartialEq, Eq)]
pub struct LoginSendEnterWorld {
    pub character_id: u32,
    pub account: String,
}

/// What a queued message sends.
#[derive(Clone, Debug)]
pub enum OutgoingMessageContent {
    /// Character creation in ACE's layout, for the given account.
    CharacterCreationAce(String, AceCharGenResult),
    /// The character login request, sent when the user enters the world.
    EnterWorldRequest,
    /// The character login itself, sent once the server is ready.
    EnterWorld(LoginSendEnterWorld),
    /// A game message, as raw bytes including its opcode.
    GameAction(Vec<u8>),
}

impl OutgoingMessageContent {
    /// Equal content, byte vectors and skill lists compared by their items.
    pub open spec fn same_as(self, other: OutgoingMessageContent) -> bool {
        match (self, other) {
            (OutgoingMessageContent::CharacterCreationAce(a1, c1), OutgoingMessageContent::CharacterCreationAce(a2, c2)) =>
                a1 == a2 && c1.same_as(c2),
            (OutgoingMessageContent::EnterWorldRequest, OutgoingMessageContent::EnterWorldRequest) => true,
            (OutgoingMessageContent::EnterWorld(e1), OutgoingMessageContent::EnterWorld(e2)) => e1 == e2,
            (OutgoingMessageContent::GameAction(b1), OutgoingMessageContent::GameAction(b2)) => b1@ == b2@,
            _ => false,
        }
    }

    /// A copy of the content.
    pub fn duplicate(&self) -> (r: OutgoingMessageContent)
        ensures
            r.same_as(*self),
    {
        match self {
            OutgoingMessageContent::CharacterCreationAce(a, c) =>
                OutgoingMessageContent::CharacterCreationAce(a.clone(), c.duplicate()),
            OutgoingMessageContent::EnterWorldRequest => OutgoingMessageContent::EnterWorldRequest,
            OutgoingMessageContent::EnterWorld(e) => OutgoingMessageContent::EnterWorld(
                LoginSendEnterWorld { character_id: e.character_id, account: e.account.clone() },
            ),
            OutgoingMessageContent::GameAction(b) => OutgoingMessageContent::GameAction(copy_bytes(b)),
        }
    }
}

/// A copy of a byte vector.
pub fn copy_bytes(v: &Vec<u8>) -> (r: Vec<u8>)
    ensures
        r@ == v@,
{
    let r = v.clone();
    proof { assert(r@ =~= v@); }
    r
}

/// A message waiting to be sent; without a deadline it is sent at once.
#[derive(Debug)]
pub struct OutgoingMessage {
    pub content: OutgoingMessageContent,
    pub deadline: Option<Instant>,
}

impl OutgoingMessage {
    /// A message to send at once.
    pub fn new(content: OutgoingMessageContent) -> (r: OutgoingMessage)
        ensures
            r.content == content,
            r.deadline is None,
    {
        OutgoingMessage { content, deadline: None }
    }

    /// The message, to be sent no earlier than `delay_ms` milliseconds after
    /// `now` (the deadline saturates at the largest instant).
    pub fn with_delay_ms_at(self, now: Instant, delay_ms: u64) -> (r: OutgoingMessage)
        ensures
            r.content == self.content,
            r.deadline == Some(Instant { millis: sat_add(now.millis, delay_ms) }),
    {
        let d = if now.millis <= u64::MAX - delay_ms { now.millis + delay_ms } else { u64::MAX };
        OutgoingMessage { content: self.content, deadline: Some(Instant { millis: d }) }
    }

    /// The message, to be sent no earlier than `delay_ms` milliseconds from now.
    pub fn with_delay_ms(self, delay_ms: u64) -> (r: OutgoingMessage)
        ensures
            r.content == self.content,
            exists|now: Instant| r.deadline == Some(Instant { millis: #[trigger] sat_add(now.millis, delay_ms) }),
    {
        let now = Instant::now();
        let r = self.with_delay_ms_at(now, delay_ms);
        assert(r.deadline == Some(Instant { millis: sat_add(now.millis, delay_ms) }));
        r
    }

    /// The message, to be sent no earlier than `delay_seconds` seconds from now.
    pub fn with_delay(self, delay_seconds: u64) -> (r: OutgoingMessage)
        ensures
            r.content == self.content,
            exists|now: Instant| r.deadline == Some(Instant { millis: #[trigger] sat_add(now.millis, seconds_ms(delay_seconds)) }),
    {
        let ms = if delay_seconds <= u64::MAX / 1000 { delay_seconds * 1000 } else { u64::MAX };
        assert(ms == seconds_ms(delay_seconds));
        let now = Instant::now();
        let r = self.with_delay_ms_at(now, ms);
        assert(r.deadline == Some(Instant { millis: sat_add(now.millis, seconds_ms(delay_seconds)) }));
        r
    }

    /// Whether the message may be sent at `now`.
    pub open spec fn ready_at(self, now: Instant) -> bool {
        match self.deadline {
            None => true,
            Some(d) => now.millis >= d.millis,
        }
    }

    /// Whether the message may be sent at `now`.
    pub fn is_ready_at(&self, now: Instant) -> (r: bool)
        ensures
            r == self.ready_at(now),
    {
        match self.deadline {
            None => true,
            Some(d) => now.millis >= d.millis,
        }
    }

    /// Whether the message may be sent now.
    pub fn is_ready(&self) -> (r: bool)
        ensures
            exists|now: Instant| r == #[trigger] self.ready_at(now),
    {
        let now = Instant::now();
        let r = self.is_ready_at(now);
        assert(r == self.ready_at(now));
        r
    }
}

/// `s` seconds in milliseconds, or the largest `u64` when that overflows.
pub open spec fn seconds_ms(s: u64) -> u64 {
    if s <= u64::MAX / 1000 { (s * 1000) as u64 } else { u64::MAX }
}

/// `a + b`, or the largest `u64` when that overflows.
pub open spec fn sat_add(a: u64, b: u64) -> u64 {
    if a + b <= u64::MAX { (a + b) as u64 } else { u64::MAX }
}

} // verus!
