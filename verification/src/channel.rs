//! The message channels that connect the capture, hook and render threads
//! (crossbeam-channel). What a channel holds depends on other threads, so
//! nothing is stated about what a receive returns or whether a send is
//! delivered.
use vstd::prelude::*;
use crossbeam_channel::{Receiver, Sender};

verus! {

#[verifier::external_type_specification]
#[verifier::external_body]
#[verifier::reject_recursive_types(T)]
pub struct ExSender<T>(Sender<T>);

#[verifier::external_type_specification]
#[verifier::external_body]
#[verifier::reject_recursive_types(T)]
pub struct ExReceiver<T>(Receiver<T>);

/// `Sender::send`: blocks until `msg` is queued or every receiver is gone;
/// returns whether it was queued. Nothing is claimed about the outcome.
#[verifier::external_body]
pub(crate) fn channel_send<T>(tx: &Sender<T>, msg: T) -> (queued: bool) {
    tx.send(msg).is_ok()
}

/// `Sender::try_send`: queues `msg` if there is room right now; returns
/// whether it was queued. Nothing is claimed about the outcome.
#[verifier::external_body]
pub(crate) fn channel_try_send<T>(tx: &Sender<T>, msg: T) -> (queued: bool) {
    tx.try_send(msg).is_ok()
}

/// `Receiver::try_recv`: the next queued message, if one is waiting.
/// Nothing is claimed about the outcome.
#[verifier::external_body]
pub(crate) fn channel_try_recv<T>(rx: &Receiver<T>) -> (msg: Option<T>) {
    rx.try_recv().ok()
}

/// Upper bound on the messages one drain takes from a channel; a drain stops
/// earlier as soon as the channel is empty.
pub const DRAIN_LIMIT: usize = usize::MAX;

} // verus!
