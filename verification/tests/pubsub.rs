use p2p_core::pubsub::{
    publish, pubsub_channel, Delivery, Published, Received, TopicFilter, TopicPayload,
    TopicSubscription,
};

#[derive(Debug, Clone, PartialEq)]
struct Dummy {
    a: u32,
    _b: String,
}

fn dummy(a: u32, b: &str) -> Dummy {
    Dummy { a, _b: b.to_string() }
}

/// Reads a subscription until the channel has nothing more for it, and
/// returns the messages and the lag counts it was given on the way.
fn drain<M: Clone>(sub: &mut TopicSubscription<&'static str, M>) -> (Vec<M>, Vec<u64>) {
    let mut messages = Vec::new();
    let mut lags = Vec::new();
    loop {
        match sub.try_next() {
            Delivery::Message(m) => messages.push(m),
            Delivery::Filtered => {},
            Delivery::Lagged(n) => lags.push(n),
            Delivery::Empty | Delivery::Closed => return (messages, lags),
        }
    }
}

#[test]
fn topic_pub_sub() {
    let (publisher, subscriber_factory) = pubsub_channel(10);

    let messages = vec![
        TopicPayload::new("Topic1", dummy(1, "one")),
        TopicPayload::new("Topic2", dummy(2, "two")),
        TopicPayload::new("Topic1", dummy(3, "three")),
        TopicPayload::new("Topic2", dummy(4, "four")),
        TopicPayload::new("Topic1", dummy(5, "five")),
        TopicPayload::new("Topic2", dummy(6, "size")),
        TopicPayload::new("Topic1", dummy(7, "seven")),
    ];

    let mut sub1 = subscriber_factory.get_subscription("Topic1", "Test");
    let mut sub2 = subscriber_factory.get_subscription("Topic2", "Test");
    drop(subscriber_factory);

    for m in messages {
        publisher.send(m).unwrap();
    }

    let (topic1a, lags) = drain(&mut sub1);
    assert!(lags.is_empty());
    assert_eq!(topic1a.len(), 4);
    assert_eq!(topic1a[0].a, 1);
    assert_eq!(topic1a[1].a, 3);
    assert_eq!(topic1a[2].a, 5);
    assert_eq!(topic1a[3].a, 7);

    let messages2 = vec![
        TopicPayload::new("Topic1", dummy(11, "one one")),
        TopicPayload::new("Topic2", dummy(22, "two two")),
        TopicPayload::new("Topic1", dummy(33, "three three")),
    ];

    for m in messages2 {
        publisher.send(m).unwrap();
    }

    let (topic1b, _) = drain(&mut sub1);
    assert_eq!(topic1b.len(), 2);
    assert_eq!(topic1b[0].a, 11);
    assert_eq!(topic1b[1].a, 33);

    let (topic2, _) = drain(&mut sub2);
    assert_eq!(topic2.len(), 4);
    assert_eq!(topic2[0].a, 2);
    assert_eq!(topic2[1].a, 4);
    assert_eq!(topic2[2].a, 6);
    assert_eq!(topic2[3].a, 22);
}

#[test]
fn payload_keeps_topic_and_message() {
    let payload = TopicPayload::new("Topic1", 7u32);
    assert_eq!(*payload.topic(), "Topic1");
    assert_eq!(*payload.message(), 7u32);
}

#[test]
fn clone_of_a_payload_keeps_topic_and_message() {
    let p = TopicPayload::new("Topic1", 7u32);
    let q = p.clone();
    assert_eq!(*p.message(), 7u32);
    assert_eq!(*p.topic(), "Topic1");
    assert_eq!(*q.message(), 7u32);
    assert_eq!(*q.topic(), "Topic1");

    let owned = TopicPayload::new("Topic2".to_string(), vec![1u8, 2, 3]);
    let copy = owned.clone();
    assert_eq!(copy.topic(), owned.topic());
    assert_eq!(copy.message(), owned.message());
}

#[test]
fn clone_of_a_factory_subscribes_to_the_same_channel() {
    let (publisher, factory) = pubsub_channel::<&'static str, u32>(4);
    let other = factory.clone();
    drop(factory);
    let mut sub = other.get_subscription("A", "clone");
    publisher.send(TopicPayload::new("A", 5)).unwrap();
    assert_eq!(sub.try_next(), Delivery::Message(5));
}

#[test]
fn subscriber_on_a_of_seven_alternating_publishes_receives_the_four_of_a() {
    let (publisher, factory) = pubsub_channel::<&'static str, u32>(7);
    let mut on_a = factory.get_subscription("A", "first");
    let topics = ["A", "B", "A", "B", "A", "B", "A"];
    for (i, topic) in topics.iter().enumerate() {
        publisher.send(TopicPayload::new(*topic, i as u32 + 1)).unwrap();
    }
    let (received, lags) = drain(&mut on_a);
    assert_eq!(received, vec![1, 3, 5, 7]);
    assert!(lags.is_empty());

    let mut on_b = factory.get_subscription("B", "second");
    let (late, lags) = drain(&mut on_b);
    assert!(late.is_empty());
    assert!(lags.is_empty());
}

#[test]
fn subscription_does_not_replay_what_was_published_before_it() {
    let (publisher, factory) = pubsub_channel::<&'static str, u32>(8);
    let _keep_open = factory.get_subscription("A", "keeper");
    publisher.send(TopicPayload::new("A", 1)).unwrap();
    let mut sub = factory.get_subscription("A", "late");
    publisher.send(TopicPayload::new("A", 2)).unwrap();
    assert_eq!(sub.try_next(), Delivery::Message(2));
    assert_eq!(sub.try_next(), Delivery::Empty);
}

#[test]
fn subscriber_on_one_topic_never_sees_another() {
    let (publisher, factory) = pubsub_channel::<u8, u32>(16);
    let mut on_two = factory.get_subscription(2, "two");
    for i in 0..10u32 {
        publisher.send(TopicPayload::new(1, i)).unwrap();
    }
    for _ in 0..10 {
        assert_eq!(on_two.try_next(), Delivery::Filtered);
    }
    assert_eq!(on_two.try_next(), Delivery::Empty);
}

#[test]
fn lagging_subscriber_is_told_how_many_it_missed_and_goes_on_in_order() {
    let capacity = 4;
    let extra = 2;
    let (publisher, factory) = pubsub_channel::<&'static str, u32>(capacity);
    let mut sub = factory.get_subscription("A", "slow");
    for i in 0..(capacity + extra) as u32 {
        publisher.send(TopicPayload::new("A", i)).unwrap();
    }
    assert_eq!(sub.try_next(), Delivery::Lagged(extra as u64));
    assert_eq!(sub.try_next(), Delivery::Message(2));
    assert_eq!(sub.try_next(), Delivery::Message(3));
    assert_eq!(sub.try_next(), Delivery::Message(4));
    assert_eq!(sub.try_next(), Delivery::Message(5));
    assert_eq!(sub.try_next(), Delivery::Empty);
    publisher.send(TopicPayload::new("A", 6)).unwrap();
    assert_eq!(sub.try_next(), Delivery::Message(6));
}

#[test]
fn lag_is_what_was_published_beyond_what_the_channel_retains() {
    for capacity in 1usize..=9 {
        // The channel retains the next power of two of what was asked for.
        let retained = capacity.next_power_of_two() as u64;
        for extra in 1u64..=5 {
            let published = capacity as u64 + extra;
            let (publisher, factory) = pubsub_channel::<u8, u64>(capacity);
            let mut sub = factory.get_subscription(1, "slow");
            for i in 0..published {
                publisher.send(TopicPayload::new(1, i)).unwrap();
            }
            let mut next = 0;
            if published > retained {
                let missed = published - retained;
                assert!(missed <= extra);
                assert_eq!(sub.try_next(), Delivery::Lagged(missed));
                next = missed;
            }
            for i in next..published {
                assert_eq!(sub.try_next(), Delivery::Message(i));
            }
            assert_eq!(sub.try_next(), Delivery::Empty);
        }
    }
}

#[test]
fn lag_counts_messages_of_every_topic() {
    let (publisher, factory) = pubsub_channel::<&'static str, u32>(2);
    let mut sub = factory.get_subscription("A", "slow");
    publisher.send(TopicPayload::new("B", 0)).unwrap();
    publisher.send(TopicPayload::new("B", 1)).unwrap();
    publisher.send(TopicPayload::new("B", 2)).unwrap();
    publisher.send(TopicPayload::new("A", 3)).unwrap();
    assert_eq!(sub.try_next(), Delivery::Lagged(2));
    assert_eq!(sub.try_next(), Delivery::Filtered);
    assert_eq!(sub.try_next(), Delivery::Message(3));
}

#[test]
fn a_slow_subscriber_does_not_hold_up_a_fast_one() {
    let (publisher, factory) = pubsub_channel::<&'static str, u32>(2);
    let mut slow = factory.get_subscription("A", "slow");
    let mut fast = factory.get_subscription("A", "fast");
    for i in 0..6u32 {
        publisher.send(TopicPayload::new("A", i)).unwrap();
        assert_eq!(fast.try_next(), Delivery::Message(i));
    }
    assert_eq!(slow.try_next(), Delivery::Lagged(4));
    assert_eq!(slow.try_next(), Delivery::Message(4));
    assert_eq!(slow.try_next(), Delivery::Message(5));
}

#[test]
fn publish_without_subscribers_hands_the_payload_back() {
    let (publisher, factory) = pubsub_channel::<&'static str, u32>(4);
    match publish(&publisher, TopicPayload::new("A", 9)) {
        Published::NoSubscribers(returned) => {
            assert_eq!(*returned.topic(), "A");
            assert_eq!(*returned.message(), 9);
        },
        Published::Sent(_) => panic!("nobody is subscribed"),
    }
    let mut one = factory.get_subscription("A", "one");
    let _two = factory.get_subscription("B", "two");
    match publish(&publisher, TopicPayload::new("A", 10)) {
        Published::Sent(receivers) => assert_eq!(receivers, 2),
        Published::NoSubscribers(_) => panic!("two are subscribed"),
    }
    assert_eq!(one.try_next(), Delivery::Message(10));
}

#[test]
fn subscription_is_closed_when_every_publisher_is_gone() {
    let (publisher, factory) = pubsub_channel::<&'static str, u32>(4);
    let mut sub = factory.get_subscription("A", "last");
    publisher.send(TopicPayload::new("A", 1)).unwrap();
    drop(publisher);
    drop(factory);
    assert_eq!(sub.try_next(), Delivery::Message(1));
    assert_eq!(sub.try_next(), Delivery::Closed);
}

#[test]
fn duplicated_factory_subscribes_to_the_same_channel() {
    let (publisher, factory) = pubsub_channel::<&'static str, u32>(4);
    let other = factory.duplicate();
    drop(factory);
    let mut sub = other.get_subscription("A", "dup");
    publisher.send(TopicPayload::new("A", 5)).unwrap();
    assert_eq!(sub.try_next(), Delivery::Message(5));
}

#[test]
fn both_ends_and_every_duplicate_are_on_one_channel() {
    let (publisher, factory) = pubsub_channel::<&'static str, u32>(4);
    let other = factory.duplicate();
    let (from_factory, _) = factory.get_subscription("A", "one").into_parts();
    let (mut from_duplicate, filter) = other.get_subscription("A", "two").into_parts();
    assert!(from_factory.same_channel(&from_duplicate));
    assert!(publisher.same_channel(&publisher.clone()));

    let (elsewhere, _) = pubsub_channel::<&'static str, u32>(4);
    assert!(!publisher.same_channel(&elsewhere));

    publisher.send(TopicPayload::new("A", 3)).unwrap();
    let payload = from_duplicate.try_recv().unwrap();
    assert_eq!(filter.accept(Received::Item(payload)), Delivery::Message(3));
}

#[test]
fn filter_answers_each_read() {
    let filter = TopicFilter::new("A", "label");
    assert_eq!(*filter.topic(), "A");
    assert_eq!(filter.label(), "label");
    assert_eq!(
        filter.accept(Received::Item(TopicPayload::new("A", 1u32))),
        Delivery::Message(1)
    );
    assert_eq!(
        filter.accept(Received::Item(TopicPayload::new("B", 2u32))),
        Delivery::Filtered
    );
    assert_eq!(filter.accept(Received::<TopicPayload<&str, u32>>::Lagged(3)), Delivery::Lagged(3));
    assert_eq!(filter.accept(Received::<TopicPayload<&str, u32>>::Empty), Delivery::Empty);
    assert_eq!(filter.accept(Received::<TopicPayload<&str, u32>>::Closed), Delivery::Closed);
}

#[test]
fn only_a_message_is_something_to_the_consumer() {
    assert_eq!(Delivery::Message(4u32).into_message(), Some(4));
    assert_eq!(Delivery::<u32>::Filtered.into_message(), None);
    assert_eq!(Delivery::<u32>::Lagged(9).into_message(), None);
    assert_eq!(Delivery::<u32>::Empty.into_message(), None);
    assert_eq!(Delivery::<u32>::Closed.into_message(), None);
}

#[test]
fn subscription_comes_apart_into_receiver_and_filter() {
    let (publisher, factory) = pubsub_channel::<&'static str, u32>(4);
    let sub = factory.get_subscription("A", "parts");
    assert_eq!(*sub.filter().topic(), "A");
    let (mut receiver, filter) = sub.into_parts();
    publisher.send(TopicPayload::new("A", 8)).unwrap();
    let payload = receiver.try_recv().unwrap();
    assert_eq!(filter.accept(Received::Item(payload)), Delivery::Message(8));
    assert_eq!(filter.label(), "parts");
}
