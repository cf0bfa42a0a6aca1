//! The broadcast hub: one multicast channel that carries every message to
//! every subscriber.
//!
//! The channel is `tokio::sync::broadcast`. Its state is shared between tasks
//! and changes behind shared references, so the contracts here say nothing of
//! what it holds: they say what each call is handed.

use vstd::prelude::*;
use tokio::sync::broadcast::{Receiver, Sender};
use crate::content::Message;

verus! {

/// The sending half of the broadcast channel.
#[verifier::external_type_specification]
#[verifier::external_body]
#[verifier::reject_recursive_types(T)]
pub struct ExSender<T>(Sender<T>);

/// The receiving half of the broadcast channel.
#[verifier::external_type_specification]
#[verifier::external_body]
#[verifier::reject_recursive_types(T)]
pub struct ExReceiver<T>(Receiver<T>);

/// `Sender::send`: hands a message to every subscriber there is at the moment
/// of the call. Returns whether there was one; without one the message is
/// dropped. Nothing is claimed of the result.
#[verifier::external_body]
fn send(hub: &Sender<Message>, message: Message) -> (delivered: bool) {
    hub.send(message).is_ok()
}

/// `Sender::receiver_count`: how many subscribers the channel has at the
/// moment of the call. Nothing is claimed of the number.
#[verifier::external_body]
pub(crate) fn receiver_count(hub: &Sender<Message>) -> (count: usize) {
    hub.receiver_count()
}

/// `Sender::subscribe`: a new subscriber, which receives what is sent after
/// this call. Nothing is claimed of it.
#[verifier::external_body]
pub(crate) fn subscribe(hub: &Sender<Message>) -> (subscriber: Receiver<Message>) {
    hub.subscribe()
}

/// Publishes a message to every subscriber and never waits for one. Returns
/// whether there was a subscriber; without one the message is dropped, which
/// is no failure.
pub fn publish(hub: &Sender<Message>, message: Message) -> (delivered: bool) {
    send(hub, message)
}

} // verus!
