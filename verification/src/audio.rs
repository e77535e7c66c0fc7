//! The audio-source abstraction, as seen from the coordination layer.
//!
//! The coordinator never reads audio data itself: sources and receivers are
//! opaque collaborators that are wrapped, shared and handed to the worker,
//! which owns the live connection and its audio pipeline.

use vstd::prelude::*;

use std::sync::Arc;

use crate::chan::arc_clone;
use crate::chan::mutex_new;

verus! {

/// A provider of audio data, implemented by users and consumed only by the
/// worker. The coordination layer treats it as an opaque payload.
pub trait AudioSource: Send {
}

/// A consumer of received audio, implemented by users and consumed only by
/// the worker. The coordination layer treats it as an opaque payload,
/// shared behind a reference-counted handle.
pub trait AudioReceiver: Send + Sync {
}

/// The playback state around one audio source, owned jointly by the caller
/// and the worker once wrapped in a [`LockedAudio`].
pub struct Audio {
    /// The source this player draws its audio data from.
    pub source: Box<dyn AudioSource>,
}

/// A reference-counted, mutually exclusive handle to a player, shared
/// between the caller and the worker.
pub type LockedAudio = Arc<tokio::sync::Mutex<Audio>>;

impl Audio {
    /// Wraps a source into a fresh player.
    pub fn new(source: Box<dyn AudioSource>) -> Audio {
        Audio { source }
    }
}

/// Wraps a source into a shared, mutually exclusive player handle.
pub(crate) fn new_player(source: Box<dyn AudioSource>) -> LockedAudio {
    Arc::new(mutex_new(Audio::new(source)))
}

/// Clones a player handle; the clone refers to the same player.
pub(crate) fn clone_player(player: &LockedAudio) -> (r: LockedAudio)
    ensures
        r == *player,
{
    arc_clone(player)
}

} // verus!
