//! A verified session-state actor for a real-time multiplayer server.
//!
//! Clients connect, join or create lobbies, chat, and leave. All mutable
//! session state (the client registry, the lobbies and their memberships) is
//! owned by a single actor that applies one command at a time and fans the
//! resulting notifications out to the affected outbound channels.

pub mod actor;
pub mod channel;
pub mod delivery;
pub mod editor;
pub mod lobby;
pub mod message;
