//! Fan-out of state-change notifications.
//!
//! A [`Broadcaster`] publishes every successful switch to any number of
//! subscribers without ever blocking or failing on the publishing side. It is
//! backed by a `tokio` broadcast channel: a subscriber that cannot keep up
//! misses values and is told so by the channel rather than stalling the
//! publisher, and a fresh subscriber only sees values published after it
//! subscribed. The ghost `history` field records every value ever published,
//! so contracts can say exactly what a switch put on the channel.

use vstd::prelude::*;

use crate::models::{ActiveRunner, ActiveRunnerView};

verus! {

#[verifier::external_type_specification]
#[verifier::external_body]
#[verifier::reject_recursive_types(T)]
pub struct ExSender<T>(tokio::sync::broadcast::Sender<T>);

#[verifier::external_type_specification]
#[verifier::external_body]
#[verifier::reject_recursive_types(T)]
pub struct ExReceiver<T>(tokio::sync::broadcast::Receiver<T>);

/// Relies on tokio::sync::broadcast::channel: creates a channel with room for
/// one value in flight; the initial receiver half is dropped here, so the
/// sender starts with no subscribers.
#[verifier::external_body]
fn new_sender() -> tokio::sync::broadcast::Sender<ActiveRunner> {
    let (tx, _rx) = tokio::sync::broadcast::channel(1);
    tx
}

/// Relies on tokio::sync::broadcast::Sender::send: the value is made available
/// to every receiver subscribed at this moment, and the call errs exactly when
/// there is none; either way the sender is unaffected. Returns whether any
/// receiver existed.
#[verifier::external_body]
fn send_value(s: &tokio::sync::broadcast::Sender<ActiveRunner>, value: ActiveRunner) -> bool {
    s.send(value).is_ok()
}

/// Relies on tokio::sync::broadcast::Sender::subscribe: the new receiver
/// yields only values sent after this call, in publication order.
#[verifier::external_body]
fn new_receiver(
    s: &tokio::sync::broadcast::Sender<ActiveRunner>,
) -> tokio::sync::broadcast::Receiver<ActiveRunner> {
    s.subscribe()
}

/// Multi-subscriber, drop-if-slow notification channel over the active-runner
/// value. `history` is the ghost record of everything ever published on it.
pub struct Broadcaster {
    pub sender: tokio::sync::broadcast::Sender<ActiveRunner>,
    pub history: Ghost<Seq<ActiveRunnerView>>,
}

impl Broadcaster {
    /// A fresh broadcaster with no subscribers and nothing published.
    pub fn new() -> (r: Broadcaster)
        ensures
            r.history@ == Seq::<ActiveRunnerView>::empty(),
    {
        Broadcaster { sender: new_sender(), history: Ghost(Seq::empty()) }
    }

    /// Publishes one value. Never blocks and never fails observably: the
    /// result only reports whether anyone was subscribed to receive it.
    pub fn publish(&mut self, value: ActiveRunner) -> (r: bool)
        ensures
            final(self).history@ == old(self).history@.push(value@),
    {
        let ghost v = value@;
        let delivered = send_value(&self.sender, value);
        self.history = Ghost(self.history@.push(v));
        delivered
    }

    /// A new independent subscription. It starts empty: only values published
    /// from now on reach it, and if it falls behind the channel reports the
    /// missed values to it as a lag rather than blocking the publisher.
    pub fn subscribe(&self) -> tokio::sync::broadcast::Receiver<ActiveRunner> {
        new_receiver(&self.sender)
    }
}

} // verus!
