//! Opaque, equality-comparable identifiers for guilds, channels and users.

use vstd::prelude::*;

verus! {

/// The identifier of a voice channel within a guild.
#[derive(Clone, Copy, Debug, PartialEq, Eq, Structural)]
pub struct ChannelId(pub u64);

/// The identifier of a guild.
#[derive(Clone, Copy, Debug, PartialEq, Eq, Structural)]
pub struct GuildId(pub u64);

/// The identifier of a user.
#[derive(Clone, Copy, Debug, PartialEq, Eq, Structural)]
pub struct UserId(pub u64);

} // verus!
