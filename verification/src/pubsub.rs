//! Topic-based publish/subscribe on top of a bounded broadcast channel.
//!
//! One publisher pushes [`TopicPayload`]s onto a `tokio::sync::broadcast`
//! channel. Every subscription owns a receiver of that channel and a
//! [`TopicFilter`] which decides, for each thing the receiver hands out, what
//! the consumer gets to see. The channel never blocks the publisher: a
//! receiver that falls behind loses the oldest messages and is told how many.

use tokio::sync::broadcast::error::{SendError, TryRecvError};
use tokio::sync::broadcast::{Receiver, Sender};
use vstd::prelude::*;
use vstd::std_specs::cmp::PartialEqSpec;

verus! {

/// The sending half of `tokio::sync::broadcast`. Nothing inside it is visible
/// to the verifier.
#[verifier::external_type_specification]
#[verifier::external_body]
#[verifier::reject_recursive_types(T)]
pub struct ExBroadcastSender<T>(tokio::sync::broadcast::Sender<T>);

/// The receiving half of `tokio::sync::broadcast`. Nothing inside it is
/// visible to the verifier.
#[verifier::external_type_specification]
#[verifier::external_body]
#[verifier::reject_recursive_types(T)]
pub struct ExBroadcastReceiver<T>(tokio::sync::broadcast::Receiver<T>);

/// The container for a message that is passed along the pub-sub channel: a
/// topic that says what kind of message it is, and the message itself.
#[derive(Debug)]
pub struct TopicPayload<T, M> {
    topic: T,
    message: M,
}

impl<T: Clone, M: Clone> Clone for TopicPayload<T, M> {
    /// A copy of a payload carries a clone of its topic and a clone of its
    /// message; the payload itself stays as it is.
    fn clone(&self) -> (copy: Self)
        ensures
            cloned(self.spec_topic(), copy.spec_topic()),
            cloned(self.spec_message(), copy.spec_message()),
    {
        TopicPayload { topic: self.topic.clone(), message: self.message.clone() }
    }
}

impl<T, M> TopicPayload<T, M> {
    /// The topic this payload was classified under.
    pub closed spec fn spec_topic(&self) -> T {
        self.topic
    }

    /// The message carried by this payload.
    pub closed spec fn spec_message(&self) -> M {
        self.message
    }

    pub fn new(topic: T, message: M) -> (payload: Self)
        ensures
            payload.spec_topic() == topic,
            payload.spec_message() == message,
    {
        Self { topic, message }
    }

    pub fn topic(&self) -> (topic: &T)
        ensures
            *topic == self.spec_topic(),
    {
        &self.topic
    }

    pub fn message(&self) -> (message: &M)
        ensures
            *message == self.spec_message(),
    {
        &self.message
    }
}

/// The publishing end of the pub-sub channel.
pub type TopicPublisher<T, M> = Sender<TopicPayload<T, M>>;

/// What a receiver handed out on one read.
#[derive(Debug, PartialEq, Eq)]
pub enum Received<P> {
    /// The next value in publish order.
    Item(P),
    /// The receiver fell behind by more than the channel retains; this many
    /// values were skipped and are gone.
    Lagged(u64),
    /// Nothing new has been published.
    Empty,
    /// Nothing new has been published and no publisher is left.
    Closed,
}

/// What a subscription passes on to its consumer for one read.
#[derive(Debug, PartialEq, Eq)]
pub enum Delivery<M> {
    /// A message published under the subscribed topic.
    Message(M),
    /// A message of another topic was read and dropped.
    Filtered,
    /// This many messages, of whatever topic, were lost to this subscriber.
    Lagged(u64),
    /// Nothing to read for now.
    Empty,
    /// Nothing to read, and nothing will come.
    Closed,
}

impl<M> Delivery<M> {
    /// The message, if this delivery carries one.
    pub open spec fn spec_into_message(self) -> Option<M> {
        match self {
            Delivery::Message(m) => Some(m),
            _ => None,
        }
    }

    /// The message, if this delivery carries one; every other outcome is
    /// nothing to the consumer.
    pub fn into_message(self) -> (message: Option<M>)
        ensures
            message == self.spec_into_message(),
    {
        match self {
            Delivery::Message(m) => Some(m),
            _ => None,
        }
    }
}

/// `tokio::sync::broadcast::channel`: makes a channel that retains at least
/// `capacity` values. The call panics for a capacity of zero or above
/// `usize::MAX / 2`, so neither is admitted. Nothing is claimed of the halves.
#[verifier::external_body]
fn broadcast_channel<P: Clone>(capacity: usize) -> (halves: (Sender<P>, Receiver<P>))
    requires
        0 < capacity <= usize::MAX / 2,
{
    tokio::sync::broadcast::channel(capacity)
}

/// `Sender::send`: fails only when no receiver is subscribed, and then hands
/// the value back unchanged; on success it reports the number of receivers
/// subscribed at that moment, which is at least one.
#[verifier::external_body]
fn broadcast_send<P>(sender: &Sender<P>, value: P) -> (sent: Result<usize, P>)
    ensures
        sent matches Ok(receivers) ==> receivers >= 1,
        sent matches Err(returned) ==> returned == value,
{
    match sender.send(value) {
        Ok(receivers) => Ok(receivers),
        Err(SendError(returned)) => Err(returned),
    }
}

/// `Sender::subscribe`: a new receiver that sees what is sent from now on.
/// Nothing is claimed of it here. (The call panics once `usize::MAX / 4`
/// receivers exist, which no address space can hold.)
#[verifier::external_body]
fn broadcast_subscribe<P>(sender: &Sender<P>) -> (receiver: Receiver<P>) {
    sender.subscribe()
}

/// `Sender::clone`: another handle on the same channel. A sender is nothing
/// but its share in the channel's state, and the clone holds the very same
/// share, so as a value the clone is the sender it was made from; tokio's
/// `same_channel` is true of the two.
#[verifier::external_body]
fn broadcast_sender_clone<P>(sender: &Sender<P>) -> (handle: Sender<P>)
    ensures
        handle == *sender,
{
    sender.clone()
}

/// `Receiver::try_recv`: one non-blocking read. What comes back depends on
/// what other holders of the channel did, so nothing is claimed of it.
#[verifier::external_body]
fn broadcast_try_recv<P: Clone>(receiver: &mut Receiver<P>) -> (received: Received<P>) {
    match receiver.try_recv() {
        Ok(value) => Received::Item(value),
        Err(TryRecvError::Lagged(missed)) => Received::Lagged(missed),
        Err(TryRecvError::Empty) => Received::Empty,
        Err(TryRecvError::Closed) => Received::Closed,
    }
}

/// The topic a subscription listens to, and the label under which its
/// consumer is reported when it lags.
pub struct TopicFilter<T> {
    topic: T,
    label: &'static str,
}

impl<T: PartialEq> TopicFilter<T> {
    pub closed spec fn spec_topic(&self) -> T {
        self.topic
    }

    pub closed spec fn spec_label(&self) -> &'static str {
        self.label
    }

    /// Whether a payload is let through: its topic equals the filter's.
    pub open spec fn admits<M>(&self, payload: TopicPayload<T, M>) -> bool {
        payload.spec_topic().eq_spec(&self.spec_topic())
    }

    /// What the consumer gets for each thing a receiver can hand out.
    pub open spec fn delivery<M>(&self, received: Received<TopicPayload<T, M>>) -> Delivery<M> {
        match received {
            Received::Item(payload) => if self.admits(payload) {
                Delivery::Message(payload.spec_message())
            } else {
                Delivery::Filtered
            },
            Received::Lagged(missed) => Delivery::Lagged(missed),
            Received::Empty => Delivery::Empty,
            Received::Closed => Delivery::Closed,
        }
    }

    pub fn new(topic: T, label: &'static str) -> (filter: Self)
        ensures
            filter.spec_topic() == topic,
            filter.spec_label() == label,
    {
        TopicFilter { topic, label }
    }

    pub fn topic(&self) -> (topic: &T)
        ensures
            *topic == self.spec_topic(),
    {
        &self.topic
    }

    pub fn label(&self) -> (label: &'static str)
        ensures
            label == self.spec_label(),
    {
        self.label
    }

    /// Decides what the consumer sees of one read. A payload of the filter's
    /// topic gives up its message; any other payload is dropped; a lag count
    /// and the two idle outcomes are passed on as they are. No payload ever
    /// yields anything but its own message.
    pub fn accept<M>(&self, received: Received<TopicPayload<T, M>>) -> (delivery: Delivery<M>)
        ensures
            T::obeys_eq_spec() ==> delivery == self.delivery(received),
            received matches Received::Item(payload) ==> delivery == Delivery::Message(
                payload.spec_message(),
            ) || delivery == Delivery::<M>::Filtered,
            !(received is Item) ==> delivery == self.delivery(received),
    {
        match received {
            Received::Item(payload) => {
                if payload.topic == self.topic {
                    Delivery::Message(payload.message)
                } else {
                    Delivery::Filtered
                }
            },
            Received::Lagged(missed) => Delivery::Lagged(missed),
            Received::Empty => Delivery::Empty,
            Received::Closed => Delivery::Closed,
        }
    }
}

/// A live, per-consumer cursor into the pub-sub channel, bound to one topic.
/// It sees only what is published after it was made.
#[verifier::reject_recursive_types(T)]
#[verifier::reject_recursive_types(M)]
pub struct TopicSubscription<T, M> {
    receiver: Receiver<TopicPayload<T, M>>,
    filter: TopicFilter<T>,
}

impl<T: Clone + PartialEq, M: Clone> TopicSubscription<T, M> {
    pub closed spec fn spec_filter(&self) -> TopicFilter<T> {
        self.filter
    }

    pub fn filter(&self) -> (filter: &TopicFilter<T>)
        ensures
            *filter == self.spec_filter(),
    {
        &self.filter
    }

    /// Reads the channel once, without waiting, and filters what came.
    /// Whatever the channel handed out, the filter stays as it was and the
    /// delivery is the filter's answer to one read.
    pub fn try_next(&mut self) -> (delivery: Delivery<M>)
        ensures
            final(self).spec_filter() == old(self).spec_filter(),
            T::obeys_eq_spec() ==> exists|received: Received<TopicPayload<T, M>>|
                delivery == #[trigger] old(self).spec_filter().delivery(received),
    {
        let received = broadcast_try_recv(&mut self.receiver);
        self.filter.accept(received)
    }

    /// Takes the subscription apart, for a consumer that drives the receiver
    /// itself and asks the filter about each read.
    pub fn into_parts(self) -> (parts: (Receiver<TopicPayload<T, M>>, TopicFilter<T>))
        ensures
            parts.1 == self.spec_filter(),
    {
        (self.receiver, self.filter)
    }
}

/// This structure is used to create subscriptions to particular topics.
/// Subscriptions obtained after messages are published will miss those
/// messages.
#[verifier::reject_recursive_types(T)]
#[verifier::reject_recursive_types(M)]
pub struct TopicSubscriptionFactory<T, M> {
    sender: Sender<TopicPayload<T, M>>,
}

impl<T, M> TopicSubscriptionFactory<T, M> {
    /// The channel's sender that subscriptions are made from.
    pub closed spec fn spec_sender(&self) -> Sender<TopicPayload<T, M>> {
        self.sender
    }
}

impl<T: Clone, M: Clone> Clone for TopicSubscriptionFactory<T, M> {
    /// Another factory on the same channel: its subscriptions are made from
    /// the same sender as this one's.
    fn clone(&self) -> (factory: Self)
        ensures
            factory.spec_sender() == self.spec_sender(),
    {
        TopicSubscriptionFactory { sender: broadcast_sender_clone(&self.sender) }
    }
}

impl<T: Clone + PartialEq, M: Clone> TopicSubscriptionFactory<T, M> {
    pub fn new(sender: Sender<TopicPayload<T, M>>) -> (factory: Self)
        ensures
            factory.spec_sender() == sender,
    {
        TopicSubscriptionFactory { sender }
    }

    /// Creates a subscription to a particular topic. The label identifies
    /// the consumer when it lags.
    pub fn get_subscription(&self, topic: T, label: &'static str) -> (subscription:
        TopicSubscription<T, M>)
        ensures
            subscription.spec_filter().spec_topic() == topic,
            subscription.spec_filter().spec_label() == label,
    {
        let receiver = broadcast_subscribe(&self.sender);
        TopicSubscription { receiver, filter: TopicFilter::new(topic, label) }
    }

    /// Another factory on the same channel: its subscriptions are made from
    /// the same sender as this one's.
    pub fn duplicate(&self) -> (factory: Self)
        ensures
            factory.spec_sender() == self.spec_sender(),
    {
        TopicSubscriptionFactory { sender: broadcast_sender_clone(&self.sender) }
    }
}

/// What became of one payload handed to the publisher.
#[derive(Debug)]
pub enum Published<P> {
    /// The payload is in the channel; this many receivers were subscribed.
    Sent(usize),
    /// Nobody is subscribed: the payload comes back as it was.
    NoSubscribers(P),
}

/// Pushes one payload onto the channel without waiting for any subscriber.
pub fn publish<T: Clone, M: Clone>(
    publisher: &TopicPublisher<T, M>,
    payload: TopicPayload<T, M>,
) -> (published: Published<TopicPayload<T, M>>)
    ensures
        published matches Published::Sent(receivers) ==> receivers >= 1,
        published matches Published::NoSubscribers(returned) ==> returned == payload,
{
    match broadcast_send(publisher, payload) {
        Ok(receivers) => Published::Sent(receivers),
        Err(returned) => Published::NoSubscribers(returned),
    }
}

/// Topic isolation: a subscriber never observes a message that was published
/// under a topic other than its own. Whatever the message, a payload whose
/// topic differs from the filter's is dropped.
pub proof fn law_topic_isolation<T: PartialEq, M>(subscribed: T, other: T)
    requires
        !other.eq_spec(&subscribed),
    ensures
        forall|filter: TopicFilter<T>, payload: TopicPayload<T, M>|
            filter.spec_topic() == subscribed && payload.spec_topic() == other
                ==> #[trigger] filter.delivery(Received::Item(payload)) == Delivery::<M>::Filtered,
        forall|filter: TopicFilter<T>, payload: TopicPayload<T, M>|
            filter.spec_topic() == subscribed && payload.spec_topic() == other
                ==> #[trigger] filter.delivery(Received::Item(payload)).spec_into_message() is None,
{
}

/// A subscriber observes exactly the messages of its own topic, unchanged:
/// a delivery carries a message only if the read was a payload of the
/// subscribed topic, and then it is that payload's message.
pub proof fn law_delivery_is_own_topic<T: PartialEq, M>(
    filter: TopicFilter<T>,
    received: Received<TopicPayload<T, M>>,
    message: M,
)
    ensures
        filter.delivery(received) == Delivery::Message(message) <==> (received matches Received::Item(
            payload,
        ) && filter.admits(payload) && payload.spec_message() == message),
        received matches Received::Lagged(missed) ==> filter.delivery(received)
            == Delivery::<M>::Lagged(missed),
{
}

/// Creates a topic-based pub-sub channel that retains at least `size`
/// payloads for a slow subscriber. The two ends are ends of one channel: the
/// factory makes its subscriptions from the publisher's sender.
pub fn pubsub_channel<T: Clone + PartialEq, M: Clone>(size: usize) -> (ends: (
    TopicPublisher<T, M>,
    TopicSubscriptionFactory<T, M>,
))
    requires
        0 < size <= usize::MAX / 2,
    ensures
        ends.1.spec_sender() == ends.0,
{
    let (publisher, _receiver) = broadcast_channel::<TopicPayload<T, M>>(size);
    let handle = broadcast_sender_clone(&publisher);
    (handle, TopicSubscriptionFactory::new(publisher))
}

} // verus!
