//! The broadcast channel that carries the wire text of every envelope to the
//! connected clients.
//!
//! The channel is tokio's: bounded and lossy. A publisher never waits for a
//! subscriber; a subscriber that falls too far behind is told how many
//! messages it missed and goes on with what the channel still holds.

use crate::connection::ConnectionEvent;
use vstd::prelude::*;

verus! {

#[verifier::external_type_specification]
#[verifier::external_body]
#[verifier::reject_recursive_types(T)]
pub struct ExSender<T>(tokio::sync::broadcast::Sender<T>);

#[verifier::external_type_specification]
#[verifier::external_body]
#[verifier::reject_recursive_types(T)]
pub struct ExReceiver<T>(tokio::sync::broadcast::Receiver<T>);

/// The capacity that the channel is opened with where none is asked for.
pub const DEFAULT_CAPACITY: usize = 100;

/// The largest capacity that a channel can be opened with.
pub const MAX_CAPACITY: usize = usize::MAX / 2;

/// Whether a channel can be opened with the given capacity.
pub open spec fn is_capacity(capacity: usize) -> bool {
    1 <= capacity <= MAX_CAPACITY
}

/// What a subscriber finds when it looks for its next message.
#[derive(Clone, Debug)]
pub enum Delivery {
    /// The next message.
    Message(String),
    /// Nothing new was published.
    Empty,
    /// This many messages were overwritten before the subscriber read them.
    Lagged(u64),
    /// Every sender is gone: nothing will be published any more.
    Closed,
}

impl Delivery {
    /// What the delivery means to the connection of the subscriber, where
    /// it means anything.
    pub open spec fn as_event(self) -> Option<ConnectionEvent> {
        match self {
            Delivery::Message(message) => Some(ConnectionEvent::Published(message)),
            Delivery::Empty => None,
            Delivery::Lagged(missed) => Some(ConnectionEvent::Lagged(missed)),
            Delivery::Closed => Some(ConnectionEvent::ChannelClosed),
        }
    }

    /// Turns the delivery into the event for the connection of the
    /// subscriber; `None` where nothing happened.
    pub fn into_event(self) -> (r: Option<ConnectionEvent>)
        ensures
            r == self.as_event(),
    {
        match self {
            Delivery::Message(message) => Some(ConnectionEvent::Published(message)),
            Delivery::Empty => None,
            Delivery::Lagged(missed) => Some(ConnectionEvent::Lagged(missed)),
            Delivery::Closed => Some(ConnectionEvent::ChannelClosed),
        }
    }
}

/// `broadcast::channel` of tokio; the receiver that comes with the sender
/// is dropped, so the channel starts without subscribers.
#[verifier::external_body]
pub(crate) fn open_channel(capacity: usize) -> (r: tokio::sync::broadcast::Sender<String>)
    requires
        is_capacity(capacity),
{
    tokio::sync::broadcast::channel(capacity).0
}

/// `Sender::send` of tokio: the number of subscribers that the message was
/// queued for, at least one, or `None` where there is no subscriber.
#[verifier::external_body]
pub(crate) fn publish(sender: &tokio::sync::broadcast::Sender<String>, message: String) -> (r:
    Option<usize>)
    ensures
        r matches Some(receivers) ==> receivers >= 1,
{
    sender.send(message).ok()
}

/// `Sender::subscribe` of tokio: a receive handle that sees what is
/// published from now on.
#[verifier::external_body]
pub(crate) fn subscribe_to(sender: &tokio::sync::broadcast::Sender<String>) -> (r:
    tokio::sync::broadcast::Receiver<String>) {
    sender.subscribe()
}

/// `Clone::clone` of tokio's `Sender`. A sender is a handle on its channel
/// and holds nothing else, and its clone is a handle on the same channel:
/// the two are the same sender.
#[verifier::external_body]
pub(crate) fn share_sender(sender: &tokio::sync::broadcast::Sender<String>) -> (r:
    tokio::sync::broadcast::Sender<String>)
    ensures
        r == *sender,
{
    sender.clone()
}

/// `Receiver::try_recv` of tokio, with its three errors told apart.
#[verifier::external_body]
pub(crate) fn poll_receiver(receiver: &mut tokio::sync::broadcast::Receiver<String>) -> (r:
    Delivery) {
    match receiver.try_recv() {
        Ok(message) => Delivery::Message(message),
        Err(tokio::sync::broadcast::error::TryRecvError::Empty) => Delivery::Empty,
        Err(tokio::sync::broadcast::error::TryRecvError::Lagged(missed)) => Delivery::Lagged(missed),
        Err(tokio::sync::broadcast::error::TryRecvError::Closed) => Delivery::Closed,
    }
}

/// What became of a message that was handed to the channel.
#[derive(Clone, Copy, Debug, PartialEq, Eq, Structural)]
pub enum Published {
    /// The message was queued for this many subscribers.
    Delivered(usize),
    /// There was no subscriber; the message is gone.
    NoSubscribers,
}

impl Published {
    /// What the answer of the channel says.
    pub open spec fn of(answer: Option<usize>) -> Published {
        match answer {
            Some(receivers) => Published::Delivered(receivers),
            None => Published::NoSubscribers,
        }
    }

    /// Reads the answer of the channel. Neither answer is an error: that
    /// nobody listens is the expected state of a channel.
    pub fn from_answer(answer: Option<usize>) -> (r: Published)
        ensures
            r == Published::of(answer),
    {
        match answer {
            Some(receivers) => Published::Delivered(receivers),
            None => Published::NoSubscribers,
        }
    }
}

/// The receive handle of one subscriber.
pub struct Subscription {
    receiver: tokio::sync::broadcast::Receiver<String>,
}

impl Subscription {
    /// The handle on the channel that the subscription reads from.
    pub closed spec fn handle(self) -> tokio::sync::broadcast::Receiver<String> {
        self.receiver
    }

    /// Looks for the next message without waiting.
    pub fn poll(&mut self) -> (r: Delivery) {
        poll_receiver(&mut self.receiver)
    }

    /// Hands the handle of the channel out, for whoever waits on it.
    pub fn into_receiver(self) -> (r: tokio::sync::broadcast::Receiver<String>)
        ensures
            r == self.handle(),
    {
        self.receiver
    }
}

/// The sending side of one channel, with the capacity that it was opened
/// with.
pub struct Broadcaster {
    sender: tokio::sync::broadcast::Sender<String>,
    capacity: usize,
}

impl Broadcaster {
    /// The capacity that the channel was opened with.
    pub closed spec fn opened_with(self) -> usize {
        self.capacity
    }

    /// The sender of the channel.
    pub closed spec fn handle(self) -> tokio::sync::broadcast::Sender<String> {
        self.sender
    }

    /// Opens a channel that holds at least `capacity` messages for a
    /// subscriber that does not read.
    pub fn new(capacity: usize) -> (r: Broadcaster)
        requires
            is_capacity(capacity),
        ensures
            r.opened_with() == capacity,
    {
        Broadcaster { sender: open_channel(capacity), capacity }
    }

    /// Opens a channel with the given capacity; `None` where no channel can
    /// have that capacity.
    pub fn try_new(capacity: usize) -> (r: Option<Broadcaster>)
        ensures
            r is Some <==> is_capacity(capacity),
            r matches Some(broadcaster) ==> broadcaster.opened_with() == capacity,
    {
        if 1 <= capacity && capacity <= MAX_CAPACITY {
            Some(Broadcaster::new(capacity))
        } else {
            None
        }
    }

    /// The capacity that the channel was opened with.
    pub fn capacity(&self) -> (r: usize)
        ensures
            r == self.opened_with(),
    {
        self.capacity
    }

    /// Hands `message` to every subscriber. Never waits.
    pub fn send(&self, message: String) -> (r: Published)
        ensures
            r matches Published::Delivered(receivers) ==> receivers >= 1,
    {
        Published::from_answer(publish(&self.sender, message))
    }

    /// A new subscriber, which sees what is published from now on.
    pub fn subscribe(&self) -> (r: Subscription) {
        Subscription { receiver: subscribe_to(&self.sender) }
    }

    /// Another handle on the sending side of the channel: what is sent
    /// through it reaches the subscribers of this channel.
    pub fn sender(&self) -> (r: tokio::sync::broadcast::Sender<String>)
        ensures
            r == self.handle(),
    {
        share_sender(&self.sender)
    }
}

} // verus!
