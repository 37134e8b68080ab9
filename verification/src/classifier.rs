//! Classification of inbound envelopes into topics, and the step that hands
//! a classified envelope to the publisher.
//!
//! An envelope whose message type is not recognised is ignored: it is
//! dropped where it is classified, it is reported to the caller of [`route`]
//! so that it can be logged, and it never reaches the publisher or any
//! subscriber. The peer that sent it is not held to account for it; a policy
//! that does so would have to be added at the caller of [`route`].

use crate::connectivity::peer::PeerId;
use crate::pubsub::{
    publish, Delivery, Published, Received, TopicFilter, TopicPayload, TopicPublisher,
    TopicSubscriptionFactory,
};
use std::sync::Arc;
use vstd::prelude::*;
use vstd::std_specs::cmp::PartialEqSpecImpl;

verus! {

/// The topic of a message: the identifier of its message type.
#[derive(Clone, Copy, Debug)]
pub struct MessageType {
    pub tag: i32,
}

impl PartialEq for MessageType {
    fn eq(&self, other: &Self) -> (equal: bool) {
        self.tag == other.tag
    }
}

impl Eq for MessageType {

}

impl PartialEqSpecImpl for MessageType {
    open spec fn obeys_eq_spec() -> bool {
        true
    }

    open spec fn eq_spec(&self, other: &Self) -> bool {
        self.tag == other.tag
    }
}

/// Topics are told apart by their tags: a subscription to one message type
/// admits a payload exactly if the payload's tag is the subscribed one.
pub proof fn law_message_types_are_told_apart<M>(
    filter: TopicFilter<MessageType>,
    payload: TopicPayload<MessageType, M>,
)
    ensures
        filter.admits(payload) <==> payload.spec_topic().tag == filter.spec_topic().tag,
        filter.delivery(Received::Item(payload)) == if payload.spec_topic().tag
            == filter.spec_topic().tag {
            Delivery::Message(payload.spec_message())
        } else {
            Delivery::Filtered
        },
{
}

/// A decoded inbound envelope, as far as this crate reads it.
#[derive(Debug)]
pub struct Envelope {
    /// The message-type tag from the envelope's header.
    pub message_type: i32,
    /// The peer the envelope originated from.
    pub origin: PeerId,
    /// An opaque token for following the envelope through the logs.
    pub trace: u64,
    /// The undecoded message body.
    pub body: Vec<u8>,
}

/// The subscription factory of the inbound pipeline.
pub type SubscriptionFactory = TopicSubscriptionFactory<MessageType, Arc<Envelope>>;

/// The publisher of the inbound pipeline.
pub type EnvelopePublisher = TopicPublisher<MessageType, Arc<Envelope>>;

/// The set of message types that the node has consumers for. An envelope of
/// any other type is dropped before it reaches the fan-out channel.
pub struct MessageClassifier {
    recognised: Vec<i32>,
}

impl MessageClassifier {
    /// The recognised tags.
    pub closed spec fn tags(&self) -> Set<i32> {
        self.recognised@.to_set()
    }

    /// A classifier that recognises nothing.
    pub fn new() -> (classifier: Self)
        ensures
            classifier.tags() == Set::<i32>::empty(),
    {
        let classifier = MessageClassifier { recognised: Vec::new() };
        assert(classifier.recognised@.to_set() =~= Set::<i32>::empty());
        classifier
    }

    /// Whether `tag` is recognised.
    pub fn recognises(&self, tag: i32) -> (known: bool)
        ensures
            known == self.tags().contains(tag),
    {
        let mut i: usize = 0;
        while i < self.recognised.len()
            invariant
                i <= self.recognised.len(),
                forall|j: int| 0 <= j < i ==> self.recognised@[j] != tag,
            decreases self.recognised.len() - i,
        {
            if self.recognised[i] == tag {
                assert(self.recognised@.contains(tag));
                return true;
            }
            i += 1;
        }
        assert(!self.recognised@.contains(tag));
        false
    }

    /// Makes `tag` a recognised message type. Returns whether it was new.
    pub fn register(&mut self, tag: i32) -> (added: bool)
        ensures
            final(self).tags() == old(self).tags().insert(tag),
            added == !old(self).tags().contains(tag),
    {
        if self.recognises(tag) {
            assert(self.tags().insert(tag) =~= self.tags());
            false
        } else {
            let ghost before = self.recognised@;
            self.recognised.push(tag);
            assert(self.recognised@ == before.push(tag));
            assert(before.push(tag).to_set() =~= before.to_set().insert(tag)) by {
                assert forall|t: i32| before.push(tag).contains(t) <==> (before.contains(t) || t
                    == tag) by {
                    if before.contains(t) {
                        let k = choose|k: int| 0 <= k < before.len() && before[k] == t;
                        assert(before.push(tag)[k] == t);
                    }
                    if t == tag {
                        assert(before.push(tag)[before.len() as int] == t);
                    }
                }
            }
            true
        }
    }

    /// The topic of a message-type tag: the tag itself if it is recognised,
    /// nothing otherwise.
    pub open spec fn spec_classify(&self, tag: i32) -> Option<MessageType> {
        if self.tags().contains(tag) {
            Some(MessageType { tag })
        } else {
            None
        }
    }

    pub fn classify(&self, tag: i32) -> (topic: Option<MessageType>)
        ensures
            topic == self.spec_classify(tag),
    {
        if self.recognises(tag) {
            Some(MessageType { tag })
        } else {
            None
        }
    }

    /// Wraps an envelope of a recognised type in a payload under its topic.
    /// An envelope of any other type comes back as it was.
    pub fn classify_envelope(&self, envelope: Arc<Envelope>) -> (classified: Result<
        TopicPayload<MessageType, Arc<Envelope>>,
        Arc<Envelope>,
    >)
        ensures
            match self.spec_classify(envelope.message_type) {
                Some(topic) => classified matches Ok(payload) && payload.spec_topic() == topic
                    && payload.spec_message() == envelope,
                None => classified == Err::<TopicPayload<MessageType, Arc<Envelope>>, _>(envelope),
            },
    {
        match self.classify(envelope.message_type) {
            Some(topic) => Ok(TopicPayload::new(topic, envelope)),
            None => Err(envelope),
        }
    }
}

/// What became of one inbound envelope.
#[derive(Clone, Copy, Debug, PartialEq, Eq)]
pub enum Routed {
    /// It was published under its topic; this many receivers were subscribed.
    Published(usize),
    /// Its type is recognised, but nobody is subscribed to the channel.
    NoSubscribers,
    /// Its type is not recognised; it was dropped. No penalty falls on the
    /// peer that sent it.
    Unrecognised(i32),
}

impl Routed {
    /// What a classified envelope is reported as, once the channel has said
    /// what became of its payload.
    pub open spec fn spec_of_published<P>(published: Published<P>) -> Routed {
        match published {
            Published::Sent(receivers) => Routed::Published(receivers),
            Published::NoSubscribers(_) => Routed::NoSubscribers,
        }
    }

    pub fn of_published<P>(published: Published<P>) -> (routed: Routed)
        ensures
            routed == Self::spec_of_published(published),
    {
        match published {
            Published::Sent(receivers) => Routed::Published(receivers),
            Published::NoSubscribers(_) => Routed::NoSubscribers,
        }
    }
}

/// Handles one inbound envelope: classifies it and, if its type is
/// recognised, pushes it onto the fan-out channel. An envelope is reported
/// as unrecognised if and only if its type is not recognised, and then with
/// its own tag; it never reaches the channel. An envelope of a recognised
/// type is always handed to the channel, under its topic, and what is
/// reported is what the channel said of it.
pub fn route(
    classifier: &MessageClassifier,
    publisher: &EnvelopePublisher,
    envelope: Arc<Envelope>,
) -> (routed: Routed)
    ensures
        routed is Unrecognised <==> classifier.spec_classify(envelope.message_type) is None,
        routed matches Routed::Unrecognised(tag) ==> tag == envelope.message_type,
        classifier.spec_classify(envelope.message_type) is Some ==> exists|
            published: Published<TopicPayload<MessageType, Arc<Envelope>>>,
        |
            routed == #[trigger] Routed::spec_of_published(published) && (published matches Published::NoSubscribers(
                returned,
            ) ==> returned.spec_topic() == classifier.spec_classify(envelope.message_type)->0
                && returned.spec_message() == envelope),
        routed matches Routed::Published(receivers) ==> receivers >= 1,
{
    match classifier.classify_envelope(envelope) {
        Ok(payload) => Routed::of_published(publish(publisher, payload)),
        Err(envelope) => Routed::Unrecognised(envelope.message_type),
    }
}

} // verus!
