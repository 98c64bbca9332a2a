//! Scene-based UI state: what the user sees while the client connects,
//! patches, selects a character and plays.

use vstd::prelude::*;
use crate::events::CharacterInfo;
use crate::instant::{Instant, sat_sub};

verus! {

/// Sub-states of the connecting phase.
#[derive(Clone, Copy, Debug, PartialEq, Eq, Structural)]
pub enum ConnectingProgress {
    /// Nothing sent yet (0%).
    Initial,
    /// LoginRequest sent (33%).
    LoginRequestSent,
    /// ConnectRequest received (66%).
    ConnectRequestReceived,
    /// ConnectResponse sent (100%).
    ConnectResponseSent,
}

/// Sub-states of the patching phase.
#[derive(Clone, Copy, Debug, PartialEq, Eq, Structural)]
pub enum PatchingProgress {
    /// Patching has not started.
    NotStarted,
    /// ConnectResponse sent, waiting for the DDD file list.
    WaitingForDDD,
    /// DDD interrogation received.
    ReceivedDDD,
    /// DDD response sent, waiting for the character list.
    SentDDDResponse,
    /// Character list received.
    Complete,
}

/// A character login in progress on the character select screen.
#[derive(Clone, Debug)]
pub struct EnteringWorldState {
    pub character_id: u32,
    pub character_name: String,
    pub account: String,
    /// Set once the LoginComplete notification has been sent.
    pub login_complete: bool,
}

/// The scene shown to the user.
#[derive(Clone, Debug)]
pub enum Scene {
    Connecting(ConnectingScene),
    CharacterSelect(CharacterSelectScene),
    CharacterCreate(CharacterCreateScene),
    InWorld(InWorldScene),
    Error(ErrorScene),
}

#[derive(Clone, Debug)]
pub struct ConnectingScene {
    pub connect_progress: ConnectingProgress,
    pub patch_progress: PatchingProgress,
    pub started_at: Instant,
    pub last_retry_at: Instant,
}

#[derive(Clone, Debug)]
pub struct CharacterSelectScene {
    pub account_name: String,
    pub characters: Vec<CharacterInfo>,
    pub entering_world: Option<EnteringWorldState>,
}

#[derive(Clone, Debug)]
pub struct CharacterCreateScene {
    pub character: Option<CharacterInfo>,
}

#[derive(Clone, Debug)]
pub struct InWorldScene {
    pub character_id: u32,
    pub character_name: String,
}

#[derive(Clone, Debug)]
pub struct ErrorScene {
    pub error: ClientError,
    pub can_retry: bool,
}

/// Why the client ended up on the error scene.
#[derive(Clone, Debug)]
pub enum ClientError {
    /// A character error reported by the server, by its numeric code.
    CharacterError(u32),
    ConnectionFailed(String),
    PatchingFailed(String),
    LoginTimeout,
    PatchingTimeout,
}

impl ConnectingScene {
    /// A connecting scene started at `now`, with no progress made.
    pub fn new_at(now: Instant) -> (r: ConnectingScene)
        ensures
            r.connect_progress == ConnectingProgress::Initial,
            r.patch_progress == PatchingProgress::NotStarted,
            r.started_at == now,
            r.last_retry_at == now,
    {
        ConnectingScene {
            connect_progress: ConnectingProgress::Initial,
            patch_progress: PatchingProgress::NotStarted,
            started_at: now,
            last_retry_at: now,
        }
    }

    /// A connecting scene started at the current time, with no progress made.
    pub fn new() -> (r: ConnectingScene)
        ensures
            r.connect_progress == ConnectingProgress::Initial,
            r.patch_progress == PatchingProgress::NotStarted,
            r.started_at == r.last_retry_at,
    {
        Self::new_at(Instant::now())
    }

    /// Back to the initial progress, with both timers restarted at `now`.
    pub fn reset_at(&mut self, now: Instant)
        ensures
            *final(self) == ConnectingScene::new_at_spec(now),
    {
        self.connect_progress = ConnectingProgress::Initial;
        self.patch_progress = PatchingProgress::NotStarted;
        self.started_at = now;
        self.last_retry_at = now;
    }

    /// Back to the initial progress, with both timers restarted at the current
    /// time; where the wall clock reads earlier than the old start, at the old
    /// start, so that a restart never moves the start back.
    pub fn reset(&mut self)
        ensures
            final(self).connect_progress == ConnectingProgress::Initial,
            final(self).patch_progress == PatchingProgress::NotStarted,
            final(self).started_at == final(self).last_retry_at,
            final(self).started_at.millis >= old(self).started_at.millis,
    {
        let now = Instant::now();
        let start = if now.millis < self.started_at.millis { self.started_at } else { now };
        self.reset_at(start);
    }

    pub open spec fn new_at_spec(now: Instant) -> ConnectingScene {
        ConnectingScene {
            connect_progress: ConnectingProgress::Initial,
            patch_progress: PatchingProgress::NotStarted,
            started_at: now,
            last_retry_at: now,
        }
    }

    /// Whether at least `timeout_ms` milliseconds separate `now` from the start.
    pub open spec fn timed_out_at(self, now: Instant, timeout_ms: u64) -> bool {
        sat_sub(now.millis, self.started_at.millis) >= timeout_ms
    }

    /// Whether at least `interval_ms` milliseconds separate `now` from the last retry.
    pub open spec fn retry_due_at(self, now: Instant, interval_ms: u64) -> bool {
        sat_sub(now.millis, self.last_retry_at.millis) >= interval_ms
    }

    /// Whether this attempt has timed out at `now`.
    pub fn has_timed_out_at(&self, now: Instant, timeout_ms: u64) -> (r: bool)
        ensures
            r == self.timed_out_at(now, timeout_ms),
    {
        now.duration_since(self.started_at) >= timeout_ms
    }

    /// Whether this attempt has timed out by the current time.
    pub fn has_timed_out(&self, timeout_ms: u64) -> (r: bool)
        ensures
            exists|now: Instant| r == #[trigger] self.timed_out_at(now, timeout_ms),
    {
        let now = Instant::now();
        let r = self.has_timed_out_at(now, timeout_ms);
        assert(r == self.timed_out_at(now, timeout_ms));
        r
    }

    /// Whether a retry is due at `now`.
    pub fn should_retry_at(&self, now: Instant, interval_ms: u64) -> (r: bool)
        ensures
            r == self.retry_due_at(now, interval_ms),
    {
        now.duration_since(self.last_retry_at) >= interval_ms
    }

    /// Whether a retry is due at the current time.
    pub fn should_retry(&self, interval_ms: u64) -> (r: bool)
        ensures
            exists|now: Instant| r == #[trigger] self.retry_due_at(now, interval_ms),
    {
        let now = Instant::now();
        let r = self.should_retry_at(now, interval_ms);
        assert(r == self.retry_due_at(now, interval_ms));
        r
    }

    /// Record a retry made at `now`.
    pub fn update_retry_time_at(&mut self, now: Instant)
        ensures
            *final(self) == (ConnectingScene { last_retry_at: now, ..*old(self) }),
    {
        self.last_retry_at = now;
    }

    /// The scene with a retry recorded at `now`.
    pub open spec fn with_retry_at(self, now: Instant) -> ConnectingScene {
        ConnectingScene { last_retry_at: now, ..self }
    }

    /// Record a retry made at the current time.
    pub fn update_retry_time(&mut self)
        ensures
            exists|now: Instant| *final(self) == #[trigger] old(self).with_retry_at(now),
    {
        let now = Instant::now();
        self.update_retry_time_at(now);
        assert(*self == old(self).with_retry_at(now));
    }
}

impl CharacterSelectScene {
    /// A character select scene for `account_name` listing `characters`, with no login in progress.
    pub fn new(account_name: String, characters: Vec<CharacterInfo>) -> (r: CharacterSelectScene)
        ensures
            r.account_name == account_name,
            r.characters == characters,
            r.entering_world is None,
    {
        CharacterSelectScene { account_name, characters, entering_world: None }
    }

    /// Start entering the world with the given character.
    pub fn begin_entering_world(&mut self, character_id: u32, character_name: String, account: String)
        ensures
            final(self).account_name == old(self).account_name,
            final(self).characters == old(self).characters,
            final(self).entering_world == Some(EnteringWorldState {
                character_id,
                character_name,
                account,
                login_complete: false,
            }),
    {
        self.entering_world = Some(EnteringWorldState {
            character_id,
            character_name,
            account,
            login_complete: false,
        });
    }

    /// Whether a character login is in progress.
    pub fn is_entering_world(&self) -> (r: bool)
        ensures
            r == self.entering_world is Some,
    {
        self.entering_world.is_some()
    }

    /// Mark the login in progress, if any, as complete.
    pub fn mark_login_complete(&mut self)
        ensures
            final(self).account_name == old(self).account_name,
            final(self).characters == old(self).characters,
            final(self).entering_world == (match old(self).entering_world {
                Some(e) => Some(EnteringWorldState { login_complete: true, ..e }),
                None => None,
            }),
    {
        match self.entering_world.take() {
            Some(e) => {
                self.entering_world = Some(EnteringWorldState { login_complete: true, ..e });
            },
            None => {},
        }
    }

    /// Forget the login in progress, if any.
    pub fn clear_entering_world(&mut self)
        ensures
            final(self).account_name == old(self).account_name,
            final(self).characters == old(self).characters,
            final(self).entering_world is None,
    {
        self.entering_world = None;
    }
}

impl CharacterCreateScene {
    /// An empty character creation scene.
    pub fn new() -> (r: CharacterCreateScene)
        ensures
            r.character is None,
    {
        CharacterCreateScene { character: None }
    }
}

impl InWorldScene {
    /// The in-world scene for the given character.
    pub fn new(character_id: u32, character_name: String) -> (r: InWorldScene)
        ensures
            r.character_id == character_id,
            r.character_name == character_name,
    {
        InWorldScene { character_id, character_name }
    }
}

impl ErrorScene {
    /// An error scene for `error`, retryable when `can_retry`.
    pub fn new(error: ClientError, can_retry: bool) -> (r: ErrorScene)
        ensures
            r.error == error,
            r.can_retry == can_retry,
    {
        ErrorScene { error, can_retry }
    }
}

impl Scene {
    /// The connecting scene, if this is one.
    pub fn as_connecting(&self) -> (r: Option<&ConnectingScene>)
        ensures
            r == (match self {
                Scene::Connecting(s) => Some(s),
                _ => None::<&ConnectingScene>,
            }),
    {
        match self {
            Scene::Connecting(scene) => Some(scene),
            _ => None,
        }
    }

    /// The connecting scene, mutably, if this is one.
    pub fn as_connecting_mut(&mut self) -> (r: Option<&mut ConnectingScene>)
        ensures
            (*old(self) is Connecting) == (r is Some),
            r matches Some(s) ==> *s == (*old(self))->Connecting_0
                && *final(self) == Scene::Connecting(*final(s)),
            r is None ==> *final(self) == *old(self),
    {
        match self {
            Scene::Connecting(scene) => Some(scene),
            _ => None,
        }
    }

    /// The character select scene, if this is one.
    pub fn as_character_select(&self) -> (r: Option<&CharacterSelectScene>)
        ensures
            r == (match self {
                Scene::CharacterSelect(s) => Some(s),
                _ => None::<&CharacterSelectScene>,
            }),
    {
        match self {
            Scene::CharacterSelect(scene) => Some(scene),
            _ => None,
        }
    }

    /// The character select scene, mutably, if this is one.
    pub fn as_character_select_mut(&mut self) -> (r: Option<&mut CharacterSelectScene>)
        ensures
            (*old(self) is CharacterSelect) == (r is Some),
            r matches Some(s) ==> *s == (*old(self))->CharacterSelect_0
                && *final(self) == Scene::CharacterSelect(*final(s)),
            r is None ==> *final(self) == *old(self),
    {
        match self {
            Scene::CharacterSelect(scene) => Some(scene),
            _ => None,
        }
    }

    /// The in-world scene, if this is one.
    pub fn as_in_world(&self) -> (r: Option<&InWorldScene>)
        ensures
            r == (match self {
                Scene::InWorld(s) => Some(s),
                _ => None::<&InWorldScene>,
            }),
    {
        match self {
            Scene::InWorld(scene) => Some(scene),
            _ => None,
        }
    }

    /// The error scene, if this is one.
    pub fn as_error(&self) -> (r: Option<&ErrorScene>)
        ensures
            r == (match self {
                Scene::Error(s) => Some(s),
                _ => None::<&ErrorScene>,
            }),
    {
        match self {
            Scene::Error(scene) => Some(scene),
            _ => None,
        }
    }

    /// Whether this is an error scene that may be retried.
    pub open spec fn can_retry_spec(self) -> bool {
        match self {
            Scene::Error(s) => s.can_retry,
            _ => false,
        }
    }

    /// Whether this is an error scene that may be retried.
    pub fn can_retry(&self) -> (r: bool)
        ensures
            r == self.can_retry_spec(),
    {
        match self {
            Scene::Error(scene) => scene.can_retry,
            _ => false,
        }
    }
}

} // verus!
