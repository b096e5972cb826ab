use vstd::prelude::*;
use tokio::sync::broadcast::{Receiver, Sender};

use crate::event::Event;

verus! {

#[verifier::external_type_specification]
#[verifier::external_body]
#[verifier::reject_recursive_types(T)]
pub struct ExSender<T>(Sender<T>);

#[verifier::external_type_specification]
#[verifier::external_body]
#[verifier::reject_recursive_types(T)]
pub struct ExReceiver<T>(Receiver<T>);

/// Relies on tokio::sync::broadcast::channel: it makes a channel that buffers
/// `capacity` values, and panics on a capacity of zero or above `usize::MAX / 2`.
#[verifier::external_body]
fn open_channel(capacity: usize) -> (r: (Sender<Event>, Receiver<Event>))
    requires
        0 < capacity <= usize::MAX / 2,
{
    tokio::sync::broadcast::channel(capacity)
}

/// Relies on tokio::sync::broadcast::Sender::send: it fails, handing the value
/// back, only when no receiver is subscribed, and otherwise reports how many
/// receivers were subscribed, at least one.
#[verifier::external_body]
fn send_event(sender: &Sender<Event>, e: Event) -> (r: Option<usize>)
    ensures
        r is Some ==> r->0 >= 1,
{
    match sender.send(e) {
        Ok(n) => Some(n),
        Err(_) => None,
    }
}

/// Relies on tokio::sync::broadcast::Sender::subscribe: a new receiver that is
/// handed only the values sent after this call. It panics only once
/// `usize::MAX / 4` receivers are alive at the same time, which memory rules out.
#[verifier::external_body]
fn subscribe_receiver(sender: &Sender<Event>) -> (r: Receiver<Event>) {
    sender.subscribe()
}

/// Relies on tokio::sync::broadcast::Receiver::try_recv: the next buffered
/// value, or that none is buffered, that this receiver fell behind by a number
/// of values, or that every sender is gone.
#[verifier::external_body]
fn try_receive(receiver: &mut Receiver<Event>) -> (r: Delivery) {
    match receiver.try_recv() {
        Ok(e) => Delivery::Event(e),
        Err(tokio::sync::broadcast::error::TryRecvError::Empty) => Delivery::Empty,
        Err(tokio::sync::broadcast::error::TryRecvError::Lagged(n)) => Delivery::Lagged(n),
        Err(tokio::sync::broadcast::error::TryRecvError::Closed) => Delivery::Closed,
    }
}

/// What a subscriber finds when it asks its hub for the next event.
#[derive(Clone, Copy, Debug, PartialEq, Eq, Structural)]
pub enum Delivery {
    /// The next event, in the order of publication.
    Event(Event),
    /// No event is waiting yet.
    Empty,
    /// The subscriber fell behind and this many of its oldest unread events were dropped.
    Lagged(u64),
    /// The hub is gone; no event will come.
    Closed,
}

/// The fan-out point: every event published is handed to each subscriber
/// that was subscribed when it was published, in the order of publication.
/// A subscriber that falls more than the capacity behind loses its oldest
/// unread events; publishing never waits for a subscriber.
pub struct Hub {
    sender: Sender<Event>,
}

impl Hub {
    /// A hub that buffers up to `capacity` events for its subscribers.
    pub fn new(capacity: usize) -> (r: Hub)
        requires
            0 < capacity <= usize::MAX / 2,
    {
        let (sender, _) = open_channel(capacity);
        Hub { sender }
    }

    /// Hands the event to every current subscriber and returns how many there
    /// were. With no subscriber, publishing does nothing and returns zero.
    pub fn publish(&self, e: Event) -> (r: usize) {
        match send_event(&self.sender, e) {
            Some(n) => n,
            None => 0,
        }
    }

    /// A new subscription, which sees only events published from now on.
    pub fn subscribe(&self) -> (r: Subscription) {
        Subscription { receiver: subscribe_receiver(&self.sender) }
    }
}

/// One listener of a hub.
pub struct Subscription {
    receiver: Receiver<Event>,
}

impl Subscription {
    /// The next event for this subscriber, without waiting.
    pub fn try_next(&mut self) -> (r: Delivery) {
        try_receive(&mut self.receiver)
    }

    /// The underlying receiver, for a caller that waits for events.
    pub fn into_receiver(self) -> (r: Receiver<Event>) {
        self.receiver
    }
}

} // verus!
