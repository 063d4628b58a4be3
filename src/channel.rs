//! Multi-producer channels that carry requests out of script calls.
//!
//! Script-side closures hold a [`KotoSender`]; the host drains the matching
//! [`KotoReceiver`] in a later phase. Both ends are crossbeam channel ends, so
//! senders can be cloned and used from many threads at once.

use crossbeam_channel::{Receiver, Sender};
use vstd::prelude::*;

verus! {

#[verifier::external_type_specification]
#[verifier::external_body]
#[verifier::reject_recursive_types(T)]
pub struct ExSender<T>(Sender<T>);

#[verifier::external_type_specification]
#[verifier::external_body]
#[verifier::reject_recursive_types(T)]
pub struct ExReceiver<T>(Receiver<T>);

/// The sending end of a channel.
#[verifier::reject_recursive_types(T)]
pub struct KotoSender<T>(pub Sender<T>);

/// The receiving end of a channel.
#[verifier::reject_recursive_types(T)]
pub struct KotoReceiver<T>(pub Receiver<T>);

/// Creates an unbounded channel.
///
/// Relies on `crossbeam_channel::unbounded`, which returns the two connected
/// ends of a fresh, empty, unbounded channel.
#[verifier::external_body]
pub fn koto_channel<T>() -> (KotoSender<T>, KotoReceiver<T>) {
    let (sender, receiver) = crossbeam_channel::unbounded();
    (KotoSender(sender), KotoReceiver(receiver))
}

impl<T> KotoSender<T> {
    /// Sends a value without blocking.
    ///
    /// Relies on `crossbeam_channel::Sender::try_send`. On an unbounded channel
    /// it fails only once every receiver has been dropped; the result tells
    /// whether the value was queued, and a failed send is a configuration
    /// error that the caller reports.
    #[verifier::external_body]
    pub fn send(&self, value: T) -> (delivered: bool) {
        self.0.try_send(value).is_ok()
    }
}

impl<T> KotoReceiver<T> {
    /// Takes the oldest queued value without blocking, or `None` when the
    /// channel is empty.
    ///
    /// Relies on `crossbeam_channel::Receiver::try_recv`. What it returns
    /// depends on what other threads have sent, so nothing is stated of it.
    #[verifier::external_body]
    pub fn receive(&self) -> Option<T> {
        self.0.try_recv().ok()
    }
}

/// Relies on `Clone for crossbeam_channel::Sender`: a new handle to the same channel.
#[verifier::external_body]
fn clone_sender<T>(sender: &Sender<T>) -> Sender<T> {
    sender.clone()
}

/// Relies on `Clone for crossbeam_channel::Receiver`: a new handle to the same channel.
#[verifier::external_body]
fn clone_receiver<T>(receiver: &Receiver<T>) -> Receiver<T> {
    receiver.clone()
}

impl<T> Clone for KotoSender<T> {
    fn clone(&self) -> Self {
        KotoSender(clone_sender(&self.0))
    }
}

impl<T> Clone for KotoReceiver<T> {
    fn clone(&self) -> Self {
        KotoReceiver(clone_receiver(&self.0))
    }
}

} // verus!
