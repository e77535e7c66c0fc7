//! Trusted bindings to the outside primitives the coordinator is built on:
//! the unbounded channels that carry commands and desired-state envelopes,
//! the asynchronous lock around a player, and shared-handle cloning.

use vstd::prelude::*;

use futures::channel::mpsc::UnboundedReceiver;
use futures::channel::mpsc::UnboundedSender;
use std::sync::Arc;

verus! {

#[verifier::external_type_specification]
#[verifier::external_body]
#[verifier::reject_recursive_types(T)]
pub struct ExUnboundedSender<T>(UnboundedSender<T>);

#[verifier::external_type_specification]
#[verifier::external_body]
#[verifier::reject_recursive_types(T)]
pub struct ExUnboundedReceiver<T>(UnboundedReceiver<T>);

#[verifier::external_type_specification]
#[verifier::external_body]
#[verifier::reject_recursive_types(T)]
pub struct ExMutex<T: ?Sized>(tokio::sync::Mutex<T>);

/// Relies on futures::channel::mpsc::unbounded: creates the producer and
/// consumer halves of a fresh, connected, ordered, unbounded channel.
#[verifier::external_body]
pub(crate) fn new_channel<T>() -> (UnboundedSender<T>, UnboundedReceiver<T>) {
    futures::channel::mpsc::unbounded()
}

/// Relies on UnboundedSender::unbounded_send and TrySendError::into_inner:
/// the non-blocking enqueue fails only when the consumer half is gone, and
/// the error then carries the undelivered message back.
#[verifier::external_body]
pub(crate) fn channel_send<T>(tx: &UnboundedSender<T>, msg: T) -> (r: Result<(), T>)
    ensures
        r matches Err(m) ==> m == msg,
{
    match tx.unbounded_send(msg) {
        Ok(()) => Ok(()),
        Err(e) => Err(e.into_inner()),
    }
}

/// Relies on tokio::sync::Mutex::new: wraps a value for mutually exclusive
/// access, shared later between the caller and the worker.
#[verifier::external_body]
pub(crate) fn mutex_new<T>(value: T) -> tokio::sync::Mutex<T> {
    tokio::sync::Mutex::new(value)
}

/// Relies on Arc::clone: the clone is a handle to the same allocation as
/// the original.
#[verifier::external_body]
pub(crate) fn arc_clone<T>(arc: &Arc<T>) -> (r: Arc<T>)
    ensures
        r == *arc,
{
    Arc::clone(arc)
}

} // verus!
