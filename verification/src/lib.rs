//! Verified core of a headless Asheron's Call client: the login state machine,
//! scenes, sessions, outgoing message queue, event model and the mobile bridge's
//! decision logic.

pub mod instant;
pub mod events;
pub mod scene;
pub mod keyboard;
pub mod crypto;
pub mod text;
pub mod session;
pub mod connection;
pub mod wire;
pub mod ace_protocol;
pub mod queue;
pub mod protocol;
pub mod config;
pub mod client;
pub mod packet;
pub mod fragments;
pub mod inbound;
pub mod exchange;
pub mod bridge;
pub mod cli;
pub mod scripts;
pub mod laws;
pub mod wizard;
