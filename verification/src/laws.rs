//! The coordinator's cross-call guarantees, stated over the relations
//! that [`crate::handler::Handler`]'s contracts establish and proved once
//! for every launcher, every state and every outcome of the worker
//! channel.

use vstd::prelude::*;

use crate::command::Command;
use crate::command::Emission;
use crate::handler::Handler;
use crate::handler::WorkerLauncher;

verus! {

/// True of an emission that is a Disconnect command.
pub open spec fn is_disconnect(e: Emission) -> bool {
    e matches Emission::Cmd(Command::Disconnect)
}

/// True of an emission that is a Connect command.
pub open spec fn is_connect(e: Emission) -> bool {
    e matches Emission::Cmd(Command::Connect(_))
}

/// How a log looks with the publishes filtered out: the commands alone,
/// in the order they were handed to the worker.
pub open spec fn commands_of(log: Seq<Emission>) -> Seq<Emission> {
    log.filter(|e: Emission| e is Cmd)
}

/// How many Disconnect commands a log holds.
pub open spec fn disconnect_count(log: Seq<Emission>) -> nat {
    log.filter(|e: Emission| is_disconnect(e)).len()
}

/// How many Connect commands a log holds.
pub open spec fn connect_count(log: Seq<Emission>) -> nat {
    log.filter(|e: Emission| is_connect(e)).len()
}

/// Appending one emission extends a filtered log by that emission when it
/// satisfies the predicate, and not at all otherwise.
proof fn lemma_filter_push(s: Seq<Emission>, pred: spec_fn(Emission) -> bool, x: Emission)
    ensures
        s.push(x).filter(pred) == if pred(x) {
            s.filter(pred).push(x)
        } else {
            s.filter(pred)
        },
{
    reveal(Seq::filter);
    assert(s.push(x).drop_last() =~= s);
}

/// Law: commands keep their send order, whatever the worker channel did.
/// Two consecutive hand-overs leave the two commands, in order, as the
/// only additions to the command part of the log: a respawn republishes
/// the desired state, but never reorders, duplicates or drops a command.
pub proof fn lemma_send_order<L: WorkerLauncher>(
    h0: Handler<L>,
    h1: Handler<L>,
    log0: Seq<Emission>,
    log1: Seq<Emission>,
    log2: Seq<Emission>,
    a: Command,
    b: Command,
)
    requires
        Handler::sends_from(h0, log0, a, log1),
        Handler::sends_from(h1, log1, b, log2),
    ensures
        commands_of(log2) == commands_of(log0).push(Emission::Cmd(a)).push(Emission::Cmd(b)),
{
    let pred = |e: Emission| e is Cmd;
    lemma_filter_push(log0, pred, Emission::Cmd(a));
    lemma_filter_push(log0.push(Emission::Cmd(a)), pred, Emission::Publish(h0.envelope()));
    lemma_filter_push(log1, pred, Emission::Cmd(b));
    lemma_filter_push(log1.push(Emission::Cmd(b)), pred, Emission::Publish(h1.envelope()));
}

/// Law: leave is idempotent. Two consecutive leaves behave as one: the
/// channel is absent after either, the second call is a complete no-op,
/// their joint emissions are those of a single leave, and — when a
/// channel was set to begin with — exactly one Disconnect is handed to
/// the worker in total.
pub proof fn lemma_leave_idempotent<L: WorkerLauncher>(h0: Handler<L>, h1: Handler<L>, h2: Handler<L>)
    requires
        Handler::leave_rel(h0, h1),
        Handler::leave_rel(h1, h2),
    ensures
        h1.channel_id is None,
        h2 == h1,
        Handler::leave_rel(h0, h2),
        h0.channel_id is Some ==> disconnect_count(h1.emitted@) == disconnect_count(h0.emitted@)
            + 1,
        h0.channel_id is None ==> h2 == h0,
{
    if h0.channel_id is Some {
        let pred = |e: Emission| is_disconnect(e);
        lemma_filter_push(h0.emitted@, pred, Emission::Cmd(Command::Disconnect));
        lemma_filter_push(
            h0.emitted@.push(Emission::Cmd(Command::Disconnect)),
            pred,
            Emission::Publish(h1.envelope()),
        );
        lemma_filter_push(
            h0.emitted@.push(Emission::Cmd(Command::Disconnect)).push(
                Emission::Publish(h1.envelope()),
            ),
            pred,
            Emission::Publish(h1.envelope()),
        );
    }
}

/// Law: connecting is edge-triggered and never deduplicated. With the
/// session id already present, a server update that carries an endpoint
/// hands exactly one Connect to the worker; repeating the very same
/// update hands over a second one — no "already connected" state is
/// tracked, whether the worker should ignore the repetition is its own
/// affair.
pub proof fn lemma_update_server_reconnects<L: WorkerLauncher>(
    h0: Handler<L>,
    h1: Handler<L>,
    h2: Handler<L>,
    endpoint: Option<String>,
    token: Seq<char>,
)
    requires
        h0.session_id is Some,
        endpoint is Some,
        Handler::update_server_rel(h0, h1, endpoint, token),
        Handler::update_server_rel(h1, h2, endpoint, token),
    ensures
        connect_count(h1.emitted@) == connect_count(h0.emitted@) + 1,
        connect_count(h2.emitted@) == connect_count(h1.emitted@) + 1,
{
    let pred = |e: Emission| is_connect(e);
    lemma_filter_push(h0.emitted@, pred, Emission::Cmd(Command::Connect(h1.connection_info())));
    lemma_filter_push(
        h0.emitted@.push(Emission::Cmd(Command::Connect(h1.connection_info()))),
        pred,
        Emission::Publish(h1.envelope()),
    );
    lemma_filter_push(h1.emitted@, pred, Emission::Cmd(Command::Connect(h2.connection_info())));
    lemma_filter_push(
        h1.emitted@.push(Emission::Cmd(Command::Connect(h2.connection_info()))),
        pred,
        Emission::Publish(h2.envelope()),
    );
}

/// Law: the other entry point into the complete-triple state behaves the
/// same way. With endpoint and token already present, a state event for
/// this user that carries a channel hands exactly one Connect to the
/// worker, however often it is repeated.
pub proof fn lemma_update_state_connects<L: WorkerLauncher>(
    h0: Handler<L>,
    h1: Handler<L>,
    vs: crate::command::VoiceState,
)
    requires
        h0.endpoint is Some,
        h0.token is Some,
        vs.user_id == h0.user_id,
        vs.channel_id is Some,
        Handler::update_state_rel(h0, h1, vs),
    ensures
        connect_count(h1.emitted@) == connect_count(h0.emitted@) + 1,
{
    let pred = |e: Emission| is_connect(e);
    lemma_filter_push(h0.emitted@, pred, Emission::Cmd(Command::Connect(h1.connection_info())));
    lemma_filter_push(
        h0.emitted@.push(Emission::Cmd(Command::Connect(h1.connection_info()))),
        pred,
        Emission::Publish(h1.envelope()),
    );
}

} // verus!
