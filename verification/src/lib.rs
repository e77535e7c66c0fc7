//! A per-guild voice-session coordinator.
//!
//! The [`handler::Handler`] tracks the credential triple (endpoint, session
//! id, token) needed to open a voice transport connection, decides when
//! enough information exists to attempt one, and relays lifecycle commands
//! to an asynchronous worker through an unbounded channel, respawning the
//! worker when the delivery path is severed.

pub mod audio;
pub mod chan;
pub mod command;
pub mod handler;
pub mod id;
pub mod laws;

pub use id::{ChannelId, GuildId, UserId};
