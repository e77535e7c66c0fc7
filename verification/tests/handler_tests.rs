//! Exercises the coordinator end to end, with real channels on both sides:
//! a test launcher that keeps every consumer half it is handed, and an
//! outer sink drained by the test.

use futures::channel::mpsc::unbounded;
use futures::channel::mpsc::UnboundedReceiver;

use voice_handler::audio::AudioReceiver;
use voice_handler::audio::AudioSource;
use voice_handler::command::Bitrate;
use voice_handler::command::Command;
use voice_handler::command::Envelope;
use voice_handler::command::VoiceState;
use voice_handler::handler::Handler;
use voice_handler::handler::WorkerLauncher;
use voice_handler::id::ChannelId;
use voice_handler::id::GuildId;
use voice_handler::id::UserId;

/// Keeps every consumer half handed over, newest last, so tests can drain
/// what the handler enqueued and observe respawns.
struct TestLauncher {
    receivers: Vec<UnboundedReceiver<Command>>,
    guilds: Vec<GuildId>,
}

impl TestLauncher {
    fn new() -> TestLauncher {
        TestLauncher { receivers: Vec::new(), guilds: Vec::new() }
    }
}

impl WorkerLauncher for TestLauncher {
    fn launch(&mut self, guild_id: GuildId, receiver: UnboundedReceiver<Command>) {
        self.receivers.push(receiver);
        self.guilds.push(guild_id);
    }
}

struct NullSource;

impl AudioSource for NullSource {}

struct NullReceiver;

impl AudioReceiver for NullReceiver {}

fn attached() -> (Handler<TestLauncher>, UnboundedReceiver<Envelope>) {
    let (ws_tx, ws_rx) = unbounded();
    let h = Handler::new(GuildId(81), ws_tx, UserId(54), TestLauncher::new());
    (h, ws_rx)
}

fn next_command(h: &mut Handler<TestLauncher>) -> Option<Command> {
    let last = h.launcher.receivers.len() - 1;
    h.launcher.receivers[last].try_recv().ok()
}

fn next_publish(ws_rx: &mut UnboundedReceiver<Envelope>) -> Option<Envelope> {
    ws_rx.try_recv().ok()
}

#[test]
fn join_publishes_desired_state() {
    let (mut h, mut ws_rx) = attached();
    h.join(ChannelId(3));

    assert_eq!(h.channel_id, Some(ChannelId(3)));
    assert_eq!(
        next_publish(&mut ws_rx),
        Some(Envelope {
            channel_id: Some(ChannelId(3)),
            guild_id: GuildId(81),
            self_deaf: false,
            self_mute: false,
        })
    );
    assert!(next_publish(&mut ws_rx).is_none());
    assert!(next_command(&mut h).is_none());
}

#[test]
fn end_to_end_connect_flow() {
    let (mut h, mut ws_rx) = attached();
    h.join(ChannelId(3));
    assert!(next_publish(&mut ws_rx).is_some());

    h.update_server(&Some("ep".to_string()), "tok");
    assert_eq!(h.endpoint.as_deref(), Some("ep"));
    assert_eq!(h.token.as_deref(), Some("tok"));
    assert!(h.session_id.is_none());
    // The triple is incomplete: no connection attempt yet.
    assert!(next_command(&mut h).is_none());

    h.update_state(&VoiceState {
        channel_id: Some(ChannelId(3)),
        session_id: "sid".to_string(),
        user_id: UserId(54),
    });
    assert_eq!(h.session_id.as_deref(), Some("sid"));
    match next_command(&mut h) {
        Some(Command::Connect(info)) => {
            assert_eq!(info.endpoint, "ep");
            assert_eq!(info.guild_id, GuildId(81));
            assert_eq!(info.session_id, "sid");
            assert_eq!(info.token, "tok");
            assert_eq!(info.user_id, UserId(54));
        },
        _ => panic!("expected a Connect command"),
    }
    assert!(next_command(&mut h).is_none());
    assert!(next_publish(&mut ws_rx).is_none());
}

#[test]
fn connect_gating_needs_the_full_triple() {
    for bits in 0..8u32 {
        let mut h = Handler::standalone(GuildId(81), UserId(54), TestLauncher::new());
        if bits & 1 != 0 {
            h.endpoint = Some("ep".to_string());
        }
        if bits & 2 != 0 {
            h.session_id = Some("sid".to_string());
        }
        if bits & 4 != 0 {
            h.token = Some("tok".to_string());
        }

        let attempted = h.connect();
        assert_eq!(attempted, bits == 7);
        if bits == 7 {
            match next_command(&mut h) {
                Some(Command::Connect(info)) => {
                    assert_eq!(info.guild_id, GuildId(81));
                    assert_eq!(info.user_id, UserId(54));
                },
                _ => panic!("expected a Connect command"),
            }
        }
        assert!(next_command(&mut h).is_none());
    }
}

#[test]
fn update_server_reconnects_without_dedup() {
    let (mut h, mut ws_rx) = attached();
    h.update_state(&VoiceState {
        channel_id: Some(ChannelId(3)),
        session_id: "sid".to_string(),
        user_id: UserId(54),
    });
    // Endpoint and token are still absent: nothing is attempted.
    assert!(next_command(&mut h).is_none());

    h.update_server(&Some("ep".to_string()), "tok");
    assert!(matches!(next_command(&mut h), Some(Command::Connect(_))));

    h.update_server(&Some("ep".to_string()), "tok");
    assert!(matches!(next_command(&mut h), Some(Command::Connect(_))));
    assert!(next_command(&mut h).is_none());
    assert!(next_publish(&mut ws_rx).is_none());
}

#[test]
fn update_server_without_endpoint_forces_leave() {
    let (mut h, mut ws_rx) = attached();
    h.join(ChannelId(3));
    assert!(next_publish(&mut ws_rx).is_some());

    h.update_server(&None, "tok");
    assert_eq!(h.token.as_deref(), Some("tok"));
    assert!(h.channel_id.is_none());
    assert!(matches!(next_command(&mut h), Some(Command::Disconnect)));
    assert_eq!(
        next_publish(&mut ws_rx),
        Some(Envelope {
            channel_id: None,
            guild_id: GuildId(81),
            self_deaf: false,
            self_mute: false,
        })
    );
}

#[test]
fn foreign_state_events_are_ignored() {
    let (mut h, mut ws_rx) = attached();
    h.join(ChannelId(3));
    assert!(next_publish(&mut ws_rx).is_some());

    h.update_state(&VoiceState {
        channel_id: Some(ChannelId(9)),
        session_id: "other".to_string(),
        user_id: UserId(999),
    });
    assert_eq!(h.channel_id, Some(ChannelId(3)));
    assert!(h.session_id.is_none());
    assert!(next_command(&mut h).is_none());
    assert!(next_publish(&mut ws_rx).is_none());
}

#[test]
fn state_event_without_channel_clears_quietly() {
    let (mut h, mut ws_rx) = attached();
    h.join(ChannelId(3));
    assert!(next_publish(&mut ws_rx).is_some());

    h.update_state(&VoiceState {
        channel_id: None,
        session_id: "sid".to_string(),
        user_id: UserId(54),
    });
    // The channel is taken from the event before leave runs, so leave
    // finds it already absent and hands over no Disconnect.
    assert!(h.channel_id.is_none());
    assert!(h.session_id.is_none());
    assert!(next_command(&mut h).is_none());
    assert!(next_publish(&mut ws_rx).is_none());
}

#[test]
fn leave_is_idempotent() {
    let (mut h, mut ws_rx) = attached();
    h.join(ChannelId(3));
    assert!(next_publish(&mut ws_rx).is_some());

    h.leave();
    assert!(h.channel_id.is_none());
    assert!(matches!(next_command(&mut h), Some(Command::Disconnect)));
    assert!(next_command(&mut h).is_none());
    assert!(next_publish(&mut ws_rx).is_some());

    h.leave();
    assert!(h.channel_id.is_none());
    assert!(next_command(&mut h).is_none());
    assert!(next_publish(&mut ws_rx).is_none());
}

#[test]
fn leave_keeps_settings() {
    let mut h = Handler::standalone(GuildId(81), UserId(54), TestLauncher::new());
    h.deafen(true);
    h.mute(true);
    h.join(ChannelId(3));
    h.leave();
    assert!(h.self_deaf);
    assert!(h.self_mute);
}

#[test]
fn mute_without_channel_emits_nothing() {
    let (mut h, mut ws_rx) = attached();
    h.mute(true);

    assert!(h.self_mute);
    assert!(next_command(&mut h).is_none());
    assert!(next_publish(&mut ws_rx).is_none());
}

#[test]
fn mute_with_channel_publishes_then_commands() {
    let (mut h, mut ws_rx) = attached();
    h.join(ChannelId(3));
    assert!(next_publish(&mut ws_rx).is_some());

    h.mute(true);
    assert!(h.self_mute);
    assert_eq!(
        next_publish(&mut ws_rx),
        Some(Envelope {
            channel_id: Some(ChannelId(3)),
            guild_id: GuildId(81),
            self_deaf: false,
            self_mute: true,
        })
    );
    assert!(matches!(next_command(&mut h), Some(Command::Mute(true))));
    assert!(next_command(&mut h).is_none());
}

#[test]
fn deafen_publishes_but_commands_nothing() {
    let (mut h, mut ws_rx) = attached();
    h.join(ChannelId(3));
    assert!(next_publish(&mut ws_rx).is_some());

    h.deafen(true);
    assert!(h.self_deaf);
    assert_eq!(
        next_publish(&mut ws_rx),
        Some(Envelope {
            channel_id: Some(ChannelId(3)),
            guild_id: GuildId(81),
            self_deaf: true,
            self_mute: false,
        })
    );
    assert!(next_command(&mut h).is_none());
}

#[test]
fn deafen_without_channel_only_records() {
    let (mut h, mut ws_rx) = attached();
    h.deafen(true);
    assert!(h.self_deaf);
    assert!(next_publish(&mut ws_rx).is_none());
}

#[test]
fn switch_to_same_channel_is_a_noop() {
    let (mut h, mut ws_rx) = attached();
    h.join(ChannelId(3));
    assert!(next_publish(&mut ws_rx).is_some());

    h.switch_to(ChannelId(3));
    assert_eq!(h.channel_id, Some(ChannelId(3)));
    assert!(next_command(&mut h).is_none());
    assert!(next_publish(&mut ws_rx).is_none());
}

#[test]
fn switch_to_new_channel_publishes_only() {
    let (mut h, mut ws_rx) = attached();
    h.join(ChannelId(3));
    assert!(next_publish(&mut ws_rx).is_some());

    h.switch_to(ChannelId(4));
    assert_eq!(h.channel_id, Some(ChannelId(4)));
    assert_eq!(
        next_publish(&mut ws_rx),
        Some(Envelope {
            channel_id: Some(ChannelId(4)),
            guild_id: GuildId(81),
            self_deaf: false,
            self_mute: false,
        })
    );
    // Connection reuse is assumed: no worker command on a switch.
    assert!(next_command(&mut h).is_none());
}

#[test]
fn respawn_redelivers_the_inflight_command() {
    let (mut h, mut ws_rx) = attached();
    assert_eq!(h.launcher.receivers.len(), 1);
    // Sever the delivery path: the worker's consumer half goes away.
    h.launcher.receivers.clear();

    h.set_bitrate(Bitrate::Bits(64000));

    // A replacement worker was launched for the same guild, and the very
    // first item its fresh consumer sees is the in-flight command.
    assert_eq!(h.launcher.receivers.len(), 1);
    assert_eq!(h.launcher.guilds, vec![GuildId(81), GuildId(81)]);
    assert!(matches!(
        next_command(&mut h),
        Some(Command::SetBitrate(Bitrate::Bits(64000)))
    ));
    assert!(next_command(&mut h).is_none());
    // Exactly one publish reconciles the desired state with the outer sink.
    assert!(next_publish(&mut ws_rx).is_some());
    assert!(next_publish(&mut ws_rx).is_none());
}

#[test]
fn play_returning_hands_the_same_player_to_the_worker() {
    let mut h = Handler::standalone(GuildId(81), UserId(54), TestLauncher::new());
    let player = h.play_returning(Box::new(NullSource));

    match next_command(&mut h) {
        Some(Command::AddSender(shared)) => {
            assert!(std::sync::Arc::ptr_eq(&player, &shared));
        },
        _ => panic!("expected an AddSender command"),
    }
}

#[test]
fn play_only_replaces_all_sources() {
    let mut h = Handler::standalone(GuildId(81), UserId(54), TestLauncher::new());
    let player = h.play_only(Box::new(NullSource));

    match next_command(&mut h) {
        Some(Command::SetSender(Some(shared))) => {
            assert!(std::sync::Arc::ptr_eq(&player, &shared));
        },
        _ => panic!("expected a SetSender command with a player"),
    }
}

#[test]
fn play_adds_a_sender() {
    let mut h = Handler::standalone(GuildId(81), UserId(54), TestLauncher::new());
    h.play(Box::new(NullSource));
    assert!(matches!(next_command(&mut h), Some(Command::AddSender(_))));
}

#[test]
fn stop_clears_the_sources() {
    let mut h = Handler::standalone(GuildId(81), UserId(54), TestLauncher::new());
    h.stop();
    assert!(matches!(next_command(&mut h), Some(Command::SetSender(None))));
}

#[test]
fn listen_installs_and_drops_receivers() {
    let mut h = Handler::standalone(GuildId(81), UserId(54), TestLauncher::new());
    h.listen(Some(std::sync::Arc::new(NullReceiver)));
    assert!(matches!(next_command(&mut h), Some(Command::SetReceiver(Some(_)))));

    h.listen(None);
    assert!(matches!(next_command(&mut h), Some(Command::SetReceiver(None))));
}

#[test]
fn lost_outer_sink_is_swallowed() {
    let (mut h, ws_rx) = attached();
    // The outer connection goes away; its recovery is not this layer's
    // job, so operations keep working and failures to publish are
    // swallowed.
    drop(ws_rx);

    h.join(ChannelId(3));
    assert_eq!(h.channel_id, Some(ChannelId(3)));

    h.mute(true);
    assert!(h.self_mute);
    assert!(matches!(next_command(&mut h), Some(Command::Mute(true))));
    assert!(next_command(&mut h).is_none());
}

#[test]
fn standalone_never_publishes() {
    let mut h = Handler::standalone(GuildId(81), UserId(54), TestLauncher::new());
    h.join(ChannelId(3));
    h.deafen(true);
    h.mute(true);
    h.leave();

    // State transitions and worker commands still occur in standalone
    // mode; only the outer publish is skipped, and there is no sink at
    // all to receive one.
    assert!(h.channel_id.is_none());
    assert!(h.self_deaf);
    assert!(h.self_mute);
    assert!(matches!(next_command(&mut h), Some(Command::Mute(true))));
    assert!(matches!(next_command(&mut h), Some(Command::Disconnect)));
    assert!(next_command(&mut h).is_none());
}
