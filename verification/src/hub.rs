//! The broadcast channel that carries every published event to every
//! subscriber, and what is taken on trust about it.
//!
//! The channel is shared by all the connections and read by each of them at
//! its own pace, so nothing is claimed of what a call finds in it.

use crate::message::{ChatEvent, ServerMessage};
use tokio::sync::broadcast::{Receiver, Sender};
use vstd::prelude::*;

verus! {

#[verifier::external_type_specification]
#[verifier::external_body]
#[verifier::reject_recursive_types(T)]
pub struct ExSender<T>(Sender<T>);

#[verifier::external_type_specification]
#[verifier::external_body]
#[verifier::reject_recursive_types(T)]
pub struct ExReceiver<T>(Receiver<T>);

/// The hub keeps at least this many events for a subscriber that has
/// fallen behind; older ones are dropped for that subscriber.
pub const HUB_CAPACITY: usize = 1000;

/// `tokio::sync::broadcast::channel`, the sending half: a channel that keeps
/// at least `capacity` events for each subscriber. The receiver that comes
/// with it is dropped, so the channel starts without subscribers. The call
/// panics on a capacity of zero or above half of `usize::MAX`.
#[verifier::external_body]
pub(crate) fn hub_open(capacity: usize) -> Sender<ServerMessage>
    requires
        0 < capacity <= usize::MAX / 2,
{
    tokio::sync::broadcast::channel(capacity).0
}

/// `Sender::send`: queues the event for every receiver that is subscribed
/// at this moment and returns their number, zero when there is none and the
/// event is dropped. It never waits for a receiver.
#[verifier::external_body]
pub(crate) fn hub_send(hub: &Sender<ServerMessage>, event: ServerMessage) -> usize {
    match hub.send(event) {
        Ok(receivers) => receivers,
        Err(_) => 0,
    }
}

/// `Sender::subscribe`: a receiver that sees the events sent after this
/// call, in the order in which they are sent. The call panics once the
/// channel has as many receivers as it can count.
#[verifier::external_body]
pub(crate) fn hub_subscribe(hub: &Sender<ServerMessage>) -> Receiver<ServerMessage> {
    hub.subscribe()
}

/// What a subscription yields when it is asked for the next event.
#[derive(Debug, Clone, PartialEq, Eq)]
pub enum Delivery {
    /// The next event, in the order of publication.
    Event(ServerMessage),
    /// The subscriber fell behind and the hub dropped this many of the
    /// oldest events that it had not seen yet.
    Lagged(u64),
    /// The hub is gone and every event has been seen.
    Closed,
}

/// A delivery as a mathematical value.
pub enum Delivered {
    Event(ChatEvent),
    Lagged(u64),
    Closed,
}

impl View for Delivery {
    type V = Delivered;

    open spec fn view(&self) -> Delivered {
        match *self {
            Delivery::Event(event) => Delivered::Event(event@),
            Delivery::Lagged(missed) => Delivered::Lagged(missed),
            Delivery::Closed => Delivered::Closed,
        }
    }
}

/// What the forwarder of a connection does with a delivery.
#[derive(Debug, Clone, PartialEq, Eq)]
pub enum Forward {
    /// Hand the event to the writer of the connection.
    Enqueue(ServerMessage),
    /// Nothing to hand over; ask for the next event.
    Resume,
    /// The subscription has ended; tear the session down.
    Stop,
}

/// A forwarding step as a mathematical value.
pub enum Forwarded {
    Enqueue(ChatEvent),
    Resume,
    Stop,
}

impl View for Forward {
    type V = Forwarded;

    open spec fn view(&self) -> Forwarded {
        match *self {
            Forward::Enqueue(event) => Forwarded::Enqueue(event@),
            Forward::Resume => Forwarded::Resume,
            Forward::Stop => Forwarded::Stop,
        }
    }
}

/// The forwarding step for a delivery: an event goes to the writer as it
/// is, a gap is passed over, and the end of the hub ends the forwarding.
pub open spec fn forwarded(delivery: Delivered) -> Forwarded {
    match delivery {
        Delivered::Event(event) => Forwarded::Enqueue(event),
        Delivered::Lagged(_) => Forwarded::Resume,
        Delivered::Closed => Forwarded::Stop,
    }
}

/// What a forwarder hands to its writer, in order, over a run of
/// deliveries: every event up to the end of the hub.
pub open spec fn enqueued(deliveries: Seq<Delivered>) -> Seq<ChatEvent>
    decreases deliveries.len(),
{
    if deliveries.len() == 0 {
        Seq::empty()
    } else {
        match forwarded(deliveries[0]) {
            Forwarded::Enqueue(event) => seq![event] + enqueued(deliveries.drop_first()),
            Forwarded::Resume => enqueued(deliveries.drop_first()),
            Forwarded::Stop => Seq::empty(),
        }
    }
}

/// Decides what the forwarder does with a delivery.
pub fn forward(delivery: Delivery) -> (step: Forward)
    ensures
        step@ == forwarded(delivery@),
{
    match delivery {
        Delivery::Event(event) => Forward::Enqueue(event),
        Delivery::Lagged(_) => Forward::Resume,
        Delivery::Closed => Forward::Stop,
    }
}

} // verus!
