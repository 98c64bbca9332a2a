//! Protocol session state: where the client is in the ACE login handshake,
//! with its timing metadata and the connection data the server handed out.

use vstd::prelude::*;
use crate::crypto::CryptoSystem;
use crate::instant::Instant;

verus! {

/// Data received in the server's ConnectRequest.
pub struct ConnectionState {
    pub cookie: u64,
    /// Our session index, as assigned by the server.
    pub client_id: u16,
    /// The table (iteration) value from the packet header.
    pub table: u16,
    /// Client-to-server checksum key stream.
    pub send_generator: CryptoSystem,
}

/// Account credentials.
#[derive(Clone, Debug)]
pub struct Account {
    pub name: String,
    pub password: String,
}

/// The protocol state, one to one with the ACE server's states.
#[derive(Clone, Copy, Debug, PartialEq, Eq, Structural)]
pub enum SessionState {
    /// LoginRequest sent, waiting for ConnectRequest.
    AuthLoginRequest,
    /// ConnectRequest received, ConnectResponse sent.
    AuthConnectResponse,
    /// Authenticated (patching, character select).
    AuthConnected,
    /// Connected to the world server.
    WorldConnected,
    /// Termination started.
    TerminationStarted,
}

/// Timing and retry bookkeeping of a session.
#[derive(Clone, Copy, Debug)]
pub struct SessionMetadata {
    pub started_at: Option<Instant>,
    pub last_retry_at: Option<Instant>,
    pub connect_attempt_count: u32,
}

impl SessionMetadata {
    /// Metadata of a session started at `now`.
    pub fn new_at(now: Instant) -> (r: SessionMetadata)
        ensures
            r.started_at == Some(now),
            r.last_retry_at is None,
            r.connect_attempt_count == 0,
    {
        SessionMetadata { started_at: Some(now), last_retry_at: None, connect_attempt_count: 0 }
    }

    /// Metadata of a session started at the current time.
    pub fn new() -> (r: SessionMetadata)
        ensures
            r.started_at is Some,
            r.last_retry_at is None,
            r.connect_attempt_count == 0,
    {
        Self::new_at(Instant::now())
    }
}

/// A session: protocol state, metadata and, once established, the connection.
pub struct ClientSession {
    pub state: SessionState,
    pub metadata: SessionMetadata,
    pub connection: Option<ConnectionState>,
}

impl ClientSession {
    /// A session in `state` started at `now`, without a connection.
    pub fn new_at(state: SessionState, now: Instant) -> (r: ClientSession)
        ensures
            r.state == state,
            r.metadata.started_at == Some(now),
            r.metadata.last_retry_at is None,
            r.metadata.connect_attempt_count == 0,
            r.connection is None,
    {
        ClientSession { state, metadata: SessionMetadata::new_at(now), connection: None }
    }

    /// A session in `state` started at the current time, without a connection.
    pub fn new(state: SessionState) -> (r: ClientSession)
        ensures
            r.state == state,
            r.metadata.started_at is Some,
            r.metadata.last_retry_at is None,
            r.metadata.connect_attempt_count == 0,
            r.connection is None,
    {
        Self::new_at(state, Instant::now())
    }

    /// Move to `state`; metadata and connection stay.
    pub fn transition_to(&mut self, state: SessionState)
        ensures
            final(self).state == state,
            final(self).metadata == old(self).metadata,
            final(self).connection == old(self).connection,
    {
        self.state = state;
    }

    /// Record the established connection; state and metadata stay.
    pub fn set_connection(&mut self, connection: ConnectionState)
        ensures
            final(self).connection == Some(connection),
            final(self).state == old(self).state,
            final(self).metadata == old(self).metadata,
    {
        self.connection = Some(connection);
    }
}

} // verus!
