//! The values the coordinator produces and consumes: worker commands, the
//! credential bundle, desired-state envelopes and inbound state events.

use vstd::prelude::*;

use std::sync::Arc;

use crate::audio::AudioReceiver;
use crate::audio::LockedAudio;
use crate::id::ChannelId;
use crate::id::GuildId;
use crate::id::UserId;

verus! {

/// The immutable credential bundle that authorizes opening one voice
/// transport connection. Built only once endpoint, session id and token
/// are all present.
#[derive(Clone, Debug)]
pub struct ConnectionInfo {
    /// The voice server endpoint.
    pub endpoint: String,
    /// The guild the connection belongs to.
    pub guild_id: GuildId,
    /// The session identifier of the voice connection.
    pub session_id: String,
    /// The authentication token of the voice connection.
    pub token: String,
    /// The user the connection is opened for.
    pub user_id: UserId,
}

/// The desired encoder output rate for the worker's audio pipeline.
#[derive(Clone, Copy, Debug, PartialEq, Eq, Structural)]
pub enum Bitrate {
    /// An explicit rate in bits per second.
    Bits(u32),
    /// Let the encoder pick the rate.
    Auto,
    /// The maximum rate the encoder supports.
    Max,
}

/// A lifecycle command relayed to the worker that owns the live connection.
pub enum Command {
    /// Open the transport using the credential bundle.
    Connect(ConnectionInfo),
    /// Close the transport.
    Disconnect,
    /// Install or drop the receiver for incoming audio.
    SetReceiver(Option<Arc<dyn AudioReceiver>>),
    /// Add one more player to the source list.
    AddSender(LockedAudio),
    /// Replace the whole source list with the given player, or none.
    SetSender(Option<LockedAudio>),
    /// Apply a bitrate to the active encoder.
    SetBitrate(Bitrate),
    /// Apply server-side mute.
    Mute(bool),
}

/// The desired-state envelope published, best effort, to the outer
/// signaling sink.
#[derive(Clone, Copy, Debug, PartialEq, Eq, Structural)]
pub struct Envelope {
    /// The channel the handler wants to be connected to, if any.
    pub channel_id: Option<ChannelId>,
    /// The guild the handler belongs to.
    pub guild_id: GuildId,
    /// Whether the connection is to be deafened.
    pub self_deaf: bool,
    /// Whether the connection is to be muted.
    pub self_mute: bool,
}

/// A broadcast voice-state event for some user of the guild; the sole
/// driver of [`crate::handler::Handler::update_state`].
#[derive(Clone, Debug)]
pub struct VoiceState {
    /// The channel the user is now in, if any.
    pub channel_id: Option<ChannelId>,
    /// The session identifier assigned to the user's voice session.
    pub session_id: String,
    /// The user the event is about.
    pub user_id: UserId,
}

/// One observable emission of the handler, in order: a command handed to
/// the worker channel, or an envelope handed to the outer sink.
pub enum Emission {
    /// A command was enqueued for the worker.
    Cmd(Command),
    /// A desired-state envelope was handed to the outer sink.
    Publish(Envelope),
}

} // verus!
