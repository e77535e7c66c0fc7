//! The per-guild voice-session coordinator.
//!
//! A [`Handler`] tracks the credential triple (endpoint, session id, token)
//! needed to open a voice transport connection, decides when enough
//! information exists to attempt one, and relays lifecycle commands to an
//! asynchronous worker through an unbounded channel. When the delivery
//! path to the worker is severed, the handler installs a fresh channel,
//! redelivers the in-flight command, launches a replacement worker and
//! republishes the desired state, so no command is lost.
//!
//! Every public operation also records, in the ghost field
//! [`Handler::emitted`], the ordered log of its observable emissions:
//! commands handed to the worker channel and envelopes handed to the outer
//! signaling sink. The contracts below pin the handler's state and that
//! log down exactly; where an outcome depends on whether the worker was
//! still reachable, they list both possible logs.

use vstd::prelude::*;

use futures::channel::mpsc::UnboundedReceiver;
use futures::channel::mpsc::UnboundedSender;
use std::sync::Arc;

use crate::audio::clone_player;
use crate::audio::new_player;
use crate::audio::AudioReceiver;
use crate::audio::AudioSource;
use crate::audio::LockedAudio;
use crate::chan::channel_send;
use crate::chan::new_channel;
use crate::command::Bitrate;
use crate::command::Command;
use crate::command::ConnectionInfo;
use crate::command::Emission;
use crate::command::Envelope;
use crate::command::VoiceState;
use crate::id::ChannelId;
use crate::id::GuildId;
use crate::id::UserId;

verus! {

broadcast use vstd::string::group_string_axioms;

/// Starts a worker task that owns the consumer half of a command channel.
///
/// The worker itself — transport, encoding, encryption — lives outside
/// this library; the coordinator only hands the consumer half over, both
/// at construction and whenever a replacement worker is needed.
pub trait WorkerLauncher {
    /// Takes the consumer half of a freshly created command channel and
    /// starts a worker that drains it.
    fn launch(&mut self, guild_id: GuildId, receiver: UnboundedReceiver<Command>);
}

/// The per-guild voice-session coordinator.
///
/// Mutate the session facts only through the methods; the fields are
/// public for reading.
pub struct Handler<L: WorkerLauncher> {
    /// The channel to be connected to, if any.
    pub channel_id: Option<ChannelId>,
    /// The voice server endpoint, once a server update supplied it.
    pub endpoint: Option<String>,
    /// The guild this handler coordinates a connection for.
    pub guild_id: GuildId,
    /// Whether connections are to be deafened.
    pub self_deaf: bool,
    /// Whether connections are to be muted.
    pub self_mute: bool,
    /// The producer half of the current worker's command channel. Do not
    /// mutate it manually; the handler replaces it itself when it
    /// respawns the worker.
    pub sender: UnboundedSender<Command>,
    /// The session id of the current voice session, once a state update
    /// supplied it.
    pub session_id: Option<String>,
    /// The token of the current voice session, once a server update
    /// supplied it.
    pub token: Option<String>,
    /// The user this handler coordinates a connection for.
    pub user_id: UserId,
    /// The producer half of the outer signaling sink; absent in
    /// standalone mode. Do not mutate it manually.
    pub ws: Option<UnboundedSender<Envelope>>,
    /// Starts the worker owning each command channel's consumer half.
    pub launcher: L,
    /// The ordered log of everything this handler has emitted.
    pub emitted: Ghost<Seq<Emission>>,
}

impl<L: WorkerLauncher> Handler<L> {
    /// True when the handler was created standalone, without an outer
    /// signaling sink; state transitions and worker commands still occur
    /// then, only publishes are skipped.
    pub open spec fn is_standalone(self) -> bool {
        self.ws is None
    }

    /// The desired-state envelope describing the current session facts.
    pub open spec fn envelope(self) -> Envelope {
        Envelope {
            channel_id: self.channel_id,
            guild_id: self.guild_id,
            self_deaf: self.self_deaf,
            self_mute: self.self_mute,
        }
    }

    /// True exactly when all three credential pieces are present — the
    /// single condition under which a connection attempt is made.
    pub open spec fn connect_eligible(self) -> bool {
        &&& self.endpoint is Some
        &&& self.session_id is Some
        &&& self.token is Some
    }

    /// The credential bundle built from the present credential pieces.
    pub open spec fn connection_info(self) -> ConnectionInfo
        recommends
            self.connect_eligible(),
    {
        ConnectionInfo {
            endpoint: self.endpoint.unwrap(),
            guild_id: self.guild_id,
            session_id: self.session_id.unwrap(),
            token: self.token.unwrap(),
            user_id: self.user_id,
        }
    }

    /// The log after one publish attempt by handler `h`: the envelope is
    /// appended when an outer sink is attached, nothing in standalone
    /// mode.
    pub open spec fn logged_publish(h: Self, log: Seq<Emission>) -> Seq<Emission> {
        if h.is_standalone() {
            log
        } else {
            log.push(Emission::Publish(h.envelope()))
        }
    }

    /// The possible logs after handler `h` hands command `c` to the
    /// worker, starting from `log`: either the enqueue succeeded, or the
    /// consumer was gone and the respawn republished the desired state
    /// right after redelivering `c`.
    pub open spec fn sends_from(h: Self, log: Seq<Emission>, c: Command, post_log: Seq<Emission>) -> bool {
        ||| post_log == log.push(Emission::Cmd(c))
        ||| post_log == Self::logged_publish(h, log.push(Emission::Cmd(c)))
    }

    /// The possible logs after a leave that found a channel set: a
    /// Disconnect is handed to the worker (possibly respawning it), then
    /// the desired state is published.
    pub open spec fn leave_logs(h: Self, log: Seq<Emission>, post_log: Seq<Emission>) -> bool {
        ||| post_log == Self::logged_publish(h, log.push(Emission::Cmd(Command::Disconnect)))
        ||| post_log == Self::logged_publish(
            h,
            Self::logged_publish(h, log.push(Emission::Cmd(Command::Disconnect))),
        )
    }

    /// The possible logs after handler `h` publishes the desired state
    /// and then hands command `c` to the worker, starting from `log`.
    pub open spec fn publish_then_sends(h: Self, log: Seq<Emission>, c: Command, post_log: Seq<Emission>) -> bool {
        ||| post_log == Self::logged_publish(h, log).push(Emission::Cmd(c))
        ||| post_log == Self::logged_publish(h, Self::logged_publish(h, log).push(Emission::Cmd(c)))
    }

    /// The fields no operation ever changes: the guild, the user and the
    /// standalone mode.
    pub open spec fn keeps_identity(pre: Self, post: Self) -> bool {
        &&& post.guild_id == pre.guild_id
        &&& post.user_id == pre.user_id
        &&& post.is_standalone() == pre.is_standalone()
    }

    /// The credential triple unchanged.
    pub open spec fn keeps_credentials(pre: Self, post: Self) -> bool {
        &&& post.endpoint == pre.endpoint
        &&& post.session_id == pre.session_id
        &&& post.token == pre.token
    }

    /// The deafen and mute flags unchanged.
    pub open spec fn keeps_flags(pre: Self, post: Self) -> bool {
        &&& post.self_deaf == pre.self_deaf
        &&& post.self_mute == pre.self_mute
    }

    /// The session facts `post` shares with `pre`: everything but the
    /// emission log, the channel handles and the launcher.
    pub open spec fn keeps_facts(pre: Self, post: Self) -> bool {
        &&& post.channel_id == pre.channel_id
        &&& Self::keeps_identity(pre, post)
        &&& Self::keeps_credentials(pre, post)
        &&& Self::keeps_flags(pre, post)
    }

    /// Everything a leave guarantees, as a relation between the handler
    /// before and after the call: a complete no-op when no channel is
    /// set; otherwise the channel is cleared, everything else kept, a
    /// Disconnect handed to the worker and the desired state published.
    pub open spec fn leave_rel(pre: Self, post: Self) -> bool {
        if pre.channel_id is None {
            post == pre
        } else {
            &&& post.channel_id is None
            &&& Self::keeps_identity(pre, post)
            &&& Self::keeps_credentials(pre, post)
            &&& Self::keeps_flags(pre, post)
            &&& Self::leave_logs(post, pre.emitted@, post.emitted@)
        }
    }

    /// Everything a server update guarantees, as a relation between the
    /// handler before and after the call, for argument values `endpoint`
    /// and `token` (the token as its character sequence): the token is
    /// always recorded; a supplied endpoint is recorded and, with the
    /// session id already present, a Connect with the now-complete
    /// credential bundle is handed over — every time, with no "already
    /// connected" deduplication; an absent endpoint forces a leave.
    pub open spec fn update_server_rel(pre: Self, post: Self, endpoint: Option<String>, token: Seq<char>) -> bool {
        &&& Self::keeps_identity(pre, post)
        &&& Self::keeps_flags(pre, post)
        &&& post.token is Some
        &&& post.token.unwrap()@ == token
        &&& match endpoint {
            Some(e) => {
                &&& post.endpoint == Some(e)
                &&& post.session_id == pre.session_id
                &&& post.channel_id == pre.channel_id
                &&& if pre.session_id is Some {
                    Self::sends_from(
                        post,
                        pre.emitted@,
                        Command::Connect(post.connection_info()),
                        post.emitted@,
                    )
                } else {
                    post.emitted@ == pre.emitted@
                }
            },
            None => {
                &&& post.endpoint == pre.endpoint
                &&& post.session_id == pre.session_id
                &&& post.channel_id is None
                &&& if pre.channel_id is Some {
                    Self::leave_logs(post, pre.emitted@, post.emitted@)
                } else {
                    post.emitted@ == pre.emitted@
                }
            },
        }
    }

    /// Everything a state update guarantees, as a relation between the
    /// handler before and after the call, for the event value `vs`: an
    /// event for another user is ignored entirely — events are broadcast
    /// per guild and must be self-filtered; otherwise the channel is
    /// taken from the event and, when present, the session id recorded
    /// and — with endpoint and token already present — a Connect with the
    /// now-complete credential bundle handed over, edge-triggered and
    /// never deduplicated. A channel made absent by the event is cleared
    /// with nothing handed over.
    pub open spec fn update_state_rel(pre: Self, post: Self, vs: VoiceState) -> bool {
        if vs.user_id != pre.user_id {
            post == pre
        } else {
            &&& Self::keeps_identity(pre, post)
            &&& Self::keeps_flags(pre, post)
            &&& post.endpoint == pre.endpoint
            &&& post.token == pre.token
            &&& post.channel_id == vs.channel_id
            &&& match vs.channel_id {
                Some(_) => {
                    &&& post.session_id == Some(vs.session_id)
                    &&& if pre.endpoint is Some && pre.token is Some {
                        Self::sends_from(
                            post,
                            pre.emitted@,
                            Command::Connect(post.connection_info()),
                            post.emitted@,
                        )
                    } else {
                        post.emitted@ == pre.emitted@
                    }
                },
                None => {
                    &&& post.session_id == pre.session_id
                    &&& post.emitted@ == pre.emitted@
                },
            }
        }
    }

    /// A freshly constructed handler: no channel, no credentials, both
    /// flags clear, nothing emitted.
    pub open spec fn is_fresh(self, guild_id: GuildId, user_id: UserId) -> bool {
        &&& self.channel_id is None
        &&& self.endpoint is None
        &&& self.guild_id == guild_id
        &&& !self.self_deaf
        &&& !self.self_mute
        &&& self.session_id is None
        &&& self.token is None
        &&& self.user_id == user_id
        &&& self.emitted@ == Seq::<Emission>::empty()
    }

    /// Creates a new handler attached to the outer signaling sink `ws`.
    pub fn new(guild_id: GuildId, ws: UnboundedSender<Envelope>, user_id: UserId, launcher: L) -> (h: Self)
        ensures
            h.is_fresh(guild_id, user_id),
            !h.is_standalone(),
    {
        Self::new_raw(guild_id, Some(ws), user_id, launcher)
    }

    /// Creates a new, standalone handler, not attached to an outer
    /// signaling sink: state transitions and worker commands still occur,
    /// only publishes are skipped.
    pub fn standalone(guild_id: GuildId, user_id: UserId, launcher: L) -> (h: Self)
        ensures
            h.is_fresh(guild_id, user_id),
            h.is_standalone(),
    {
        Self::new_raw(guild_id, None, user_id, launcher)
    }

    fn new_raw(guild_id: GuildId, ws: Option<UnboundedSender<Envelope>>, user_id: UserId, launcher: L) -> (h: Self)
        ensures
            h.is_fresh(guild_id, user_id),
            h.is_standalone() == (ws is None),
    {
        let (tx, rx) = new_channel();
        let mut launcher = launcher;
        launcher.launch(guild_id, rx);

        Handler {
            channel_id: None,
            endpoint: None,
            guild_id,
            self_deaf: false,
            self_mute: false,
            sender: tx,
            session_id: None,
            token: None,
            user_id,
            ws,
            launcher,
            emitted: Ghost(Seq::empty()),
        }
    }

    /// Best-effort publish of the desired state to the outer sink: a
    /// no-op in standalone mode, and a failure of the outer sink is
    /// deliberately swallowed — the outer connection's own recovery, not
    /// this layer, handles it.
    fn update(&mut self)
        ensures
            Self::keeps_facts(*old(self), *final(self)),
            final(self).emitted@ == Self::logged_publish(*old(self), old(self).emitted@),
    {
        if self.ws.is_none() {
            return;
        }
        let env = Envelope {
            channel_id: self.channel_id,
            guild_id: self.guild_id,
            self_deaf: self.self_deaf,
            self_mute: self.self_mute,
        };
        match &self.ws {
            Some(tx) => {
                let _ = channel_send(tx, env);
            },
            None => {},
        }
        self.emitted = Ghost(self.emitted@.push(Emission::Publish(env)));
    }

    /// Hands a command to the current worker. If the consumer half is
    /// gone — the worker terminated — a fresh channel is installed, the
    /// command redelivered on it, a replacement worker launched, and the
    /// desired state republished, so the command is not lost. A further
    /// failure surfaces only on the next send, never synchronously.
    fn send(&mut self, command: Command)
        ensures
            Self::keeps_facts(*old(self), *final(self)),
            Self::sends_from(*old(self), old(self).emitted@, command, final(self).emitted@),
    {
        match channel_send(&self.sender, command) {
            Ok(()) => {
                self.emitted = Ghost(self.emitted@.push(Emission::Cmd(command)));
            },
            Err(undelivered) => {
                self.respawn_with(undelivered);
            },
        }
    }

    /// Attempts to connect: returns false unless endpoint, session id and
    /// token are all present; otherwise builds the credential bundle from
    /// them, hands a Connect command to the worker and returns true.
    ///
    /// This is the single decision point for "is there enough information
    /// to attempt a connection"; [`Handler::update_server`] and
    /// [`Handler::update_state`] call it whenever the triple may just
    /// have become complete. The attempt is fire-and-forget: no
    /// "connected" acknowledgment is tracked, and a repeated call with a
    /// complete triple hands over a further Connect.
    pub fn connect(&mut self) -> (r: bool)
        ensures
            r == old(self).connect_eligible(),
            !r ==> *final(self) == *old(self),
            r ==> Self::keeps_facts(*old(self), *final(self)) && Self::sends_from(
                *old(self),
                old(self).emitted@,
                Command::Connect(old(self).connection_info()),
                final(self).emitted@,
            ),
    {
        if self.endpoint.is_none() || self.session_id.is_none() || self.token.is_none() {
            return false;
        }

        let endpoint = self.endpoint.clone().unwrap();
        let guild_id = self.guild_id;
        let session_id = self.session_id.clone().unwrap();
        let token = self.token.clone().unwrap();
        let user_id = self.user_id;

        self.send(Command::Connect(ConnectionInfo {
            endpoint,
            guild_id,
            session_id,
            token,
            user_id,
        }));

        true
    }

    /// Sets whether connections are to be deafened, and publishes the
    /// desired state if a channel is currently set. Deafening needs no
    /// worker action: it affects signaling only, unlike muting.
    pub fn deafen(&mut self, deaf: bool)
        ensures
            final(self).self_deaf == deaf,
            final(self).self_mute == old(self).self_mute,
            final(self).channel_id == old(self).channel_id,
            Self::keeps_identity(*old(self), *final(self)),
            Self::keeps_credentials(*old(self), *final(self)),
            final(self).emitted@ == if old(self).channel_id is Some {
                Self::logged_publish(*final(self), old(self).emitted@)
            } else {
                old(self).emitted@
            },
    {
        self.self_deaf = deaf;

        if self.channel_id.is_some() {
            self.update();
        }
    }

    /// Connects — or switches — to the given voice channel: sets the
    /// channel and publishes the desired state.
    pub fn join(&mut self, channel_id: ChannelId)
        ensures
            final(self).channel_id == Some(channel_id),
            Self::keeps_identity(*old(self), *final(self)),
            Self::keeps_credentials(*old(self), *final(self)),
            Self::keeps_flags(*old(self), *final(self)),
            final(self).emitted@ == Self::logged_publish(*final(self), old(self).emitted@),
    {
        self.channel_id = Some(channel_id);

        self.send_join();
    }

    /// Leaves the current voice channel: clears the channel, hands a
    /// Disconnect to the worker and publishes the desired state. A no-op
    /// when no channel is set, so leaving twice equals leaving once.
    /// Settings such as the deafen and mute flags are kept.
    pub fn leave(&mut self)
        ensures
            Self::leave_rel(*old(self), *final(self)),
    {
        if self.channel_id.is_some() {
            self.channel_id = None;
            self.send(Command::Disconnect);

            self.update();
        }
    }

    /// Installs a receiver for incoming audio — or drops the current one,
    /// when `None` is passed — by handing the choice to the worker.
    pub fn listen(&mut self, receiver: Option<Arc<dyn AudioReceiver>>)
        ensures
            Self::keeps_facts(*old(self), *final(self)),
            Self::sends_from(
                *old(self),
                old(self).emitted@,
                Command::SetReceiver(receiver),
                final(self).emitted@,
            ),
    {
        self.send(Command::SetReceiver(receiver))
    }

    /// Sets whether connections are to be muted; if a channel is
    /// currently set, publishes the desired state and then hands a Mute
    /// command to the worker — muting needs worker action, unlike
    /// deafening.
    pub fn mute(&mut self, mute: bool)
        ensures
            final(self).self_mute == mute,
            final(self).self_deaf == old(self).self_deaf,
            final(self).channel_id == old(self).channel_id,
            Self::keeps_identity(*old(self), *final(self)),
            Self::keeps_credentials(*old(self), *final(self)),
            old(self).channel_id is None ==> final(self).emitted@ == old(self).emitted@,
            old(self).channel_id is Some ==> Self::publish_then_sends(
                *final(self),
                old(self).emitted@,
                Command::Mute(mute),
                final(self).emitted@,
            ),
    {
        self.self_mute = mute;

        if self.channel_id.is_some() {
            self.update();
            self.send(Command::Mute(mute));
        }
    }

    /// Plays audio from a source: wraps it into a shared player handle
    /// and adds that to the worker's source list.
    pub fn play(&mut self, source: Box<dyn AudioSource>)
        ensures
            Self::keeps_facts(*old(self), *final(self)),
            exists|player: LockedAudio| Self::sends_from(
                *old(self),
                old(self).emitted@,
                Command::AddSender(player),
                final(self).emitted@,
            ),
    {
        self.play_returning(source);
    }

    /// Plays audio from a source, returning the shared player handle: the
    /// very handle inside the AddSender command the worker receives, so
    /// the caller can inspect and control playback under the same mutual
    /// exclusion.
    pub fn play_returning(&mut self, source: Box<dyn AudioSource>) -> (player: LockedAudio)
        ensures
            Self::keeps_facts(*old(self), *final(self)),
            Self::sends_from(
                *old(self),
                old(self).emitted@,
                Command::AddSender(player),
                final(self).emitted@,
            ),
    {
        let player = new_player(source);
        let shared = clone_player(&player);
        self.send(Command::AddSender(shared));

        player
    }

    /// Plays audio from a source, replacing all current sources: the
    /// worker receives a SetSender command holding the returned player
    /// handle.
    pub fn play_only(&mut self, source: Box<dyn AudioSource>) -> (player: LockedAudio)
        ensures
            Self::keeps_facts(*old(self), *final(self)),
            Self::sends_from(
                *old(self),
                old(self).emitted@,
                Command::SetSender(Some(player)),
                final(self).emitted@,
            ),
    {
        let player = new_player(source);
        let shared = clone_player(&player);
        self.send(Command::SetSender(Some(shared)));

        player
    }

    /// Hands the desired encoder bitrate to the worker; stateless.
    pub fn set_bitrate(&mut self, bitrate: Bitrate)
        ensures
            Self::keeps_facts(*old(self), *final(self)),
            Self::sends_from(
                *old(self),
                old(self).emitted@,
                Command::SetBitrate(bitrate),
                final(self).emitted@,
            ),
    {
        self.send(Command::SetBitrate(bitrate))
    }

    /// Stops playing: the worker receives a SetSender command that clears
    /// the source list.
    pub fn stop(&mut self)
        ensures
            Self::keeps_facts(*old(self), *final(self)),
            Self::sends_from(
                *old(self),
                old(self).emitted@,
                Command::SetSender(None),
                final(self).emitted@,
            ),
    {
        self.send(Command::SetSender(None))
    }

    /// Switches to the given voice channel: a complete no-op when the
    /// channel is already the current one; otherwise sets it and
    /// publishes the desired state. Connection reuse across a switch is
    /// assumed: no reconnect command is handed to the worker.
    pub fn switch_to(&mut self, channel_id: ChannelId)
        ensures
            old(self).channel_id == Some(channel_id) ==> *final(self) == *old(self),
            old(self).channel_id != Some(channel_id) ==> {
                &&& final(self).channel_id == Some(channel_id)
                &&& Self::keeps_identity(*old(self), *final(self))
                &&& Self::keeps_credentials(*old(self), *final(self))
                &&& Self::keeps_flags(*old(self), *final(self))
                &&& final(self).emitted@ == Self::logged_publish(*final(self), old(self).emitted@)
            },
    {
        match self.channel_id {
            Some(current_id) if current_id == channel_id => {
                // Already set to the given channel: nothing to do.
            },
            _ => {
                self.channel_id = Some(channel_id);

                self.update();
            },
        }
    }

    /// Updates the voice server data: always records the token; when an
    /// endpoint is supplied, records it and — if the session id is
    /// already present — attempts to connect, edge-triggered on the
    /// triple becoming complete. An absent endpoint is treated as a
    /// forced leave.
    pub fn update_server(&mut self, endpoint: &Option<String>, token: &str)
        ensures
            Self::update_server_rel(*old(self), *final(self), *endpoint, token@),
    {
        self.token = Some(token.to_string());

        match endpoint.clone() {
            Some(endpoint) => {
                self.endpoint = Some(endpoint);

                if self.session_id.is_some() {
                    self.connect();
                }
            },
            None => {
                self.leave();
            },
        }
    }

    /// Updates the internal voice state from a broadcast event. Events
    /// for other users are silently ignored — they are broadcast per
    /// guild and must be self-filtered. Otherwise the channel is taken
    /// from the event; when present, the session id is recorded and — if
    /// endpoint and token are already present — a connection attempted,
    /// edge-triggered on the triple becoming complete.
    pub fn update_state(&mut self, voice_state: &VoiceState)
        ensures
            Self::update_state_rel(*old(self), *final(self), *voice_state),
    {
        if self.user_id != voice_state.user_id {
            return;
        }

        self.channel_id = voice_state.channel_id;

        if voice_state.channel_id.is_some() {
            self.session_id = Some(voice_state.session_id.clone());

            if self.endpoint.is_some() && self.token.is_some() {
                self.connect();
            }
        } else {
            // The channel was just taken from the event and is absent, so
            // this clears nothing further and hands over no Disconnect.
            self.leave();
        }
    }

    /// Publishes the desired state when a channel is set; the channel was
    /// just joined, so there is nothing to do when it is absent.
    fn send_join(&mut self)
        ensures
            Self::keeps_facts(*old(self), *final(self)),
            final(self).emitted@ == if old(self).channel_id is Some {
                Self::logged_publish(*old(self), old(self).emitted@)
            } else {
                old(self).emitted@
            },
    {
        if self.channel_id.is_none() {
            return;
        }

        self.update();
    }

    /// Installs a fresh channel, redelivers the one in-flight command on
    /// it, launches a replacement worker owning the new consumer half,
    /// and republishes the desired state so both the new worker and the
    /// outer sink learn the current intent.
    fn respawn_with(&mut self, command: Command)
        ensures
            Self::keeps_facts(*old(self), *final(self)),
            final(self).emitted@ == Self::logged_publish(
                *old(self),
                old(self).emitted@.push(Emission::Cmd(command)),
            ),
    {
        let (tx, rx) = new_channel();
        self.sender = tx;
        let _ = channel_send(&self.sender, command);
        self.emitted = Ghost(self.emitted@.push(Emission::Cmd(command)));
        self.launcher.launch(self.guild_id, rx);
        self.update();
    }
}

} // verus!
