use p2p_core::classifier::{route, Envelope, MessageClassifier, MessageType, Routed};
use p2p_core::connectivity::peer::PeerId;
use p2p_core::pubsub::{pubsub_channel, Delivery, Published};
use std::sync::Arc;

fn envelope(message_type: i32, body: u8) -> Arc<Envelope> {
    Arc::new(Envelope {
        message_type,
        origin: PeerId { key: 42 },
        trace: 7,
        body: vec![body],
    })
}

fn classifier() -> MessageClassifier {
    let mut classifier = MessageClassifier::new();
    assert!(classifier.register(1));
    assert!(classifier.register(65));
    classifier
}

#[test]
fn new_classifier_recognises_nothing() {
    let classifier = MessageClassifier::new();
    assert!(!classifier.recognises(0));
    assert!(!classifier.recognises(1));
    assert_eq!(classifier.classify(1), None);
}

#[test]
fn registered_tags_are_recognised() {
    let mut classifier = classifier();
    assert!(classifier.recognises(1));
    assert!(classifier.recognises(65));
    assert!(!classifier.recognises(2));
    assert!(!classifier.register(1));
    assert!(classifier.recognises(1));
    assert!(classifier.register(-3));
    assert!(classifier.recognises(-3));
}

#[test]
fn topic_of_a_recognised_tag_is_the_tag() {
    let classifier = classifier();
    assert_eq!(classifier.classify(65), Some(MessageType { tag: 65 }));
    assert_eq!(classifier.classify(66), None);
}

#[test]
fn message_types_are_equal_when_their_tags_are() {
    assert!(MessageType { tag: 1 } == MessageType { tag: 1 });
    assert!(MessageType { tag: 1 } != MessageType { tag: 2 });
}

#[test]
fn envelope_of_a_recognised_type_is_wrapped_under_its_topic() {
    let classifier = classifier();
    let payload = classifier.classify_envelope(envelope(65, 9)).unwrap();
    assert_eq!(*payload.topic(), MessageType { tag: 65 });
    assert_eq!(payload.message().body, vec![9]);
    assert_eq!(payload.message().origin, PeerId { key: 42 });
    assert_eq!(payload.message().trace, 7);
}

#[test]
fn envelope_of_an_unrecognised_type_comes_back() {
    let classifier = classifier();
    let back = classifier.classify_envelope(envelope(2, 9)).unwrap_err();
    assert_eq!(back.message_type, 2);
    assert_eq!(back.body, vec![9]);
}

#[test]
fn unrecognised_envelope_never_reaches_a_subscriber() {
    let classifier = classifier();
    let (publisher, factory) = pubsub_channel::<MessageType, Arc<Envelope>>(4);
    let mut sub = factory.get_subscription(MessageType { tag: 2 }, "two");
    assert_eq!(route(&classifier, &publisher, envelope(2, 0)), Routed::Unrecognised(2));
    assert!(matches!(sub.try_next(), Delivery::Empty));
}

#[test]
fn recognised_envelope_is_published_under_its_topic() {
    let classifier = classifier();
    let (publisher, factory) = pubsub_channel::<MessageType, Arc<Envelope>>(4);
    assert_eq!(route(&classifier, &publisher, envelope(1, 0)), Routed::NoSubscribers);

    let mut pings = factory.get_subscription(MessageType { tag: 1 }, "pings");
    let mut blocks = factory.get_subscription(MessageType { tag: 65 }, "blocks");
    assert_eq!(route(&classifier, &publisher, envelope(65, 1)), Routed::Published(2));
    assert_eq!(route(&classifier, &publisher, envelope(3, 2)), Routed::Unrecognised(3));
    assert_eq!(route(&classifier, &publisher, envelope(1, 3)), Routed::Published(2));

    assert!(matches!(pings.try_next(), Delivery::Filtered));
    match pings.try_next() {
        Delivery::Message(envelope) => assert_eq!(envelope.body, vec![3]),
        other => panic!("expected the ping, got {:?}", other),
    }
    assert!(matches!(pings.try_next(), Delivery::Empty));
    match blocks.try_next() {
        Delivery::Message(envelope) => assert_eq!(envelope.body, vec![1]),
        other => panic!("expected the block, got {:?}", other),
    }
    assert!(matches!(blocks.try_next(), Delivery::Filtered));
    assert!(matches!(blocks.try_next(), Delivery::Empty));
}

#[test]
fn recognised_envelopes_around_an_unrecognised_one_are_handed_on_in_order() {
    let classifier = classifier();
    let (publisher, factory) = pubsub_channel::<MessageType, Arc<Envelope>>(8);
    let mut pings = factory.get_subscription(MessageType { tag: 1 }, "pings");
    let mut unknown = factory.get_subscription(MessageType { tag: 2 }, "unknown");

    assert_eq!(route(&classifier, &publisher, envelope(1, 10)), Routed::Published(2));
    assert_eq!(route(&classifier, &publisher, envelope(2, 11)), Routed::Unrecognised(2));
    assert_eq!(route(&classifier, &publisher, envelope(1, 12)), Routed::Published(2));

    match pings.try_next() {
        Delivery::Message(envelope) => assert_eq!(envelope.body, vec![10]),
        other => panic!("expected the first ping, got {:?}", other),
    }
    match pings.try_next() {
        Delivery::Message(envelope) => assert_eq!(envelope.body, vec![12]),
        other => panic!("expected the second ping, got {:?}", other),
    }
    assert!(matches!(pings.try_next(), Delivery::Empty));

    assert!(matches!(unknown.try_next(), Delivery::Filtered));
    assert!(matches!(unknown.try_next(), Delivery::Filtered));
    assert!(matches!(unknown.try_next(), Delivery::Empty));
}

#[test]
fn what_the_channel_said_is_what_is_reported() {
    assert_eq!(Routed::of_published(Published::<u8>::Sent(3)), Routed::Published(3));
    assert_eq!(Routed::of_published(Published::NoSubscribers(7u8)), Routed::NoSubscribers);
}
