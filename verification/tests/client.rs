use mqtt_harness::client::{
    payload, ClientApp, ClientCommand, ClientEvent, ClientPhase, ClientRun, Publisher,
    PublisherCommand, PublisherEvent, QUEUE_CAPACITY,
};
use mqtt_harness::error::LinkError;
use mqtt_harness::settings::{ClientConfig, QoS, SharedConfig};

fn config(count: usize, interval: u64) -> ClientConfig {
    ClientConfig {
        client_id: "c".to_string(),
        host: "localhost".to_string(),
        port: 1883,
        keep_alive_seconds: 5,
        subscribe_topic: "in/topic".to_string(),
        publish_topic: "out/topic".to_string(),
        qos: QoS::AtLeastOnce,
        publish_count: count,
        publish_interval_ms: interval,
    }
}

/// Carries out every command of the publisher, and gives the payloads
/// published and the pauses made, in order.
fn run_publisher(mut publisher: Publisher) -> (Vec<Vec<u8>>, Vec<u64>) {
    let mut payloads = Vec::new();
    let mut pauses = Vec::new();
    let mut command = publisher.pending();
    loop {
        command = match command {
            PublisherCommand::Publish {
                topic,
                qos,
                retain,
                payload,
            } => {
                assert_eq!(topic, "out/topic");
                assert_eq!(qos, QoS::AtLeastOnce);
                assert!(!retain);
                assert_eq!(payloads.len(), pauses.len());
                payloads.push(payload);
                publisher.step(PublisherEvent::Published)
            }
            PublisherCommand::Sleep { millis } => {
                assert_eq!(payloads.len(), pauses.len() + 1);
                pauses.push(millis);
                publisher.step(PublisherEvent::Slept)
            }
            PublisherCommand::Finish => return (payloads, pauses),
            PublisherCommand::Abort(error) => panic!("{}", error.message()),
        };
    }
}

fn draining(count: usize) -> ClientRun {
    let mut run = ClientRun::new(config(count, 0));
    run.step(ClientEvent::Subscribed);
    run.step(ClientEvent::PublisherStarted);
    run
}

fn notified(description: &str) -> ClientEvent {
    ClientEvent::Notified {
        description: description.to_string(),
    }
}

#[test]
fn queue_capacity_is_ten() {
    assert_eq!(QUEUE_CAPACITY, 10);
}

#[test]
fn payload_has_the_length_and_the_byte_of_its_index() {
    assert_eq!(payload(0), Vec::<u8>::new());
    assert_eq!(payload(1), vec![1u8]);
    assert_eq!(payload(2), vec![2u8, 2]);
    assert_eq!(payload(5), vec![5u8; 5]);
    assert_eq!(payload(255), vec![255u8; 255]);
}

#[test]
fn payload_bytes_wrap_at_256() {
    assert_eq!(payload(256), vec![0u8; 256]);
    assert_eq!(payload(257), vec![1u8; 257]);
    assert_eq!(payload(1000), vec![232u8; 1000]);
    for index in 0..600usize {
        let bytes = payload(index);
        assert_eq!(bytes.len(), index);
        assert!(bytes.iter().all(|b| *b as usize == index % 256));
    }
}

#[test]
fn three_publishes_with_growing_payloads() {
    let text = "[v4.1]\nlisten = \"localhost:1883\"\n[client]\nclient_id = \"c\"\nkeep_alive_seconds = 5\npublish_count = 3\npublish_interval_ms = 0\nqos = 1\n";
    let built = config::Config::builder()
        .add_source(config::File::from_str(text, config::FileFormat::Toml))
        .build();
    let store = SharedConfig::new(built).unwrap();
    let app = ClientApp::new(SharedConfig::client(&store)).unwrap();
    let (_options, mut run) = app.run();
    match run.pending() {
        ClientCommand::Subscribe { topic, qos } => {
            assert_eq!(topic, "hello/rumqtt");
            assert_eq!(qos, QoS::AtLeastOnce);
        }
        other => panic!("unexpected command {:?}", other),
    }
    let publisher = match run.step(ClientEvent::Subscribed).next {
        ClientCommand::StartPublisher(publisher) => publisher,
        other => panic!("unexpected command {:?}", other),
    };
    let mut publisher = publisher;
    let mut payloads = Vec::new();
    let mut pauses = 0;
    let mut command = publisher.pending();
    loop {
        command = match command {
            PublisherCommand::Publish {
                topic,
                qos,
                retain,
                payload,
            } => {
                assert_eq!(topic, "hello/rumqtt");
                assert_eq!(qos, QoS::AtLeastOnce);
                assert!(!retain);
                payloads.push(payload);
                publisher.step(PublisherEvent::Published)
            }
            PublisherCommand::Sleep { millis } => {
                assert_eq!(millis, 0);
                pauses += 1;
                publisher.step(PublisherEvent::Slept)
            }
            PublisherCommand::Finish => break,
            PublisherCommand::Abort(error) => panic!("{}", error.message()),
        };
    }
    assert_eq!(payloads.len(), 3);
    assert_eq!(
        payloads.iter().map(|p| p.len()).collect::<Vec<usize>>(),
        vec![0, 1, 2]
    );
    assert_eq!(payloads, vec![vec![], vec![1u8], vec![2u8, 2]]);
    assert_eq!(pauses, 3);
}

#[test]
fn the_publisher_makes_as_many_publishes_as_asked() {
    for count in [1usize, 2, 10, 37, 300] {
        let publisher = Publisher::new("out/topic".to_string(), QoS::AtLeastOnce, count, 100);
        let (payloads, pauses) = run_publisher(publisher);
        assert_eq!(payloads.len(), count);
        assert_eq!(pauses, vec![100u64; count]);
        for (index, bytes) in payloads.iter().enumerate() {
            assert_eq!(bytes.len(), index);
            assert!(bytes.iter().all(|b| *b as usize == index % 256));
        }
    }
}

#[test]
fn nothing_to_publish_means_no_publish_and_no_pause() {
    let mut publisher = Publisher::new("out/topic".to_string(), QoS::AtMostOnce, 0, 100);
    assert!(matches!(publisher.pending(), PublisherCommand::Finish));
    for event in [
        PublisherEvent::Published,
        PublisherEvent::Slept,
        PublisherEvent::PublishRefused,
    ] {
        assert!(matches!(publisher.step(event), PublisherCommand::Finish));
    }
    let publisher = Publisher::new("out/topic".to_string(), QoS::AtLeastOnce, 0, 100);
    let (payloads, pauses) = run_publisher(publisher);
    assert!(payloads.is_empty());
    assert!(pauses.is_empty());
}

#[test]
fn a_refused_publish_ends_the_publisher() {
    let mut publisher = Publisher::new("out/topic".to_string(), QoS::AtLeastOnce, 5, 1);
    assert!(matches!(
        publisher.step(PublisherEvent::Published),
        PublisherCommand::Sleep { millis: 1 }
    ));
    assert!(matches!(
        publisher.step(PublisherEvent::Slept),
        PublisherCommand::Publish { .. }
    ));
    assert!(matches!(
        publisher.step(PublisherEvent::PublishRefused),
        PublisherCommand::Abort(LinkError::Publish)
    ));
    for event in [
        PublisherEvent::Published,
        PublisherEvent::Slept,
        PublisherEvent::PublishRefused,
    ] {
        assert!(matches!(
            publisher.step(event),
            PublisherCommand::Abort(LinkError::Publish)
        ));
    }
}

#[test]
fn the_publisher_waits_for_the_answer_to_its_command() {
    let mut publisher = Publisher::new("out/topic".to_string(), QoS::ExactlyOnce, 2, 9);
    match publisher.step(PublisherEvent::Slept) {
        PublisherCommand::Publish { payload, qos, .. } => {
            assert!(payload.is_empty());
            assert_eq!(qos, QoS::ExactlyOnce);
        }
        other => panic!("unexpected command {:?}", other),
    }
    publisher.step(PublisherEvent::Published);
    assert!(matches!(
        publisher.step(PublisherEvent::Published),
        PublisherCommand::Sleep { millis: 9 }
    ));
    assert!(matches!(
        publisher.step(PublisherEvent::PublishRefused),
        PublisherCommand::Sleep { millis: 9 }
    ));
    match publisher.step(PublisherEvent::Slept) {
        PublisherCommand::Publish { payload, .. } => assert_eq!(payload, vec![1u8]),
        other => panic!("unexpected command {:?}", other),
    }
    match publisher.pending() {
        PublisherCommand::Publish { payload, .. } => assert_eq!(payload, vec![1u8]),
        other => panic!("unexpected command {:?}", other),
    }
}

#[test]
fn a_run_begins_by_subscribing() {
    let run = ClientRun::new(config(4, 7));
    assert_eq!(run.phase, ClientPhase::Constructed);
    assert_eq!(run.seen, 0);
    match run.pending() {
        ClientCommand::Subscribe { topic, qos } => {
            assert_eq!(topic, "in/topic");
            assert_eq!(qos, QoS::AtLeastOnce);
        }
        other => panic!("unexpected command {:?}", other),
    }
}

#[test]
fn the_publisher_starts_after_the_subscription() {
    let mut run = ClientRun::new(config(4, 7));
    let reaction = run.step(ClientEvent::Subscribed);
    assert!(reaction.line.is_none());
    assert_eq!(run.phase, ClientPhase::Subscribed);
    let publisher = match reaction.next {
        ClientCommand::StartPublisher(publisher) => publisher,
        other => panic!("unexpected command {:?}", other),
    };
    let (payloads, pauses) = run_publisher(publisher);
    assert_eq!(payloads.len(), 4);
    assert_eq!(pauses, vec![7u64; 4]);
    let reaction = run.step(ClientEvent::PublisherStarted);
    assert!(reaction.line.is_none());
    assert!(matches!(reaction.next, ClientCommand::Poll));
    assert_eq!(run.phase, ClientPhase::Draining);
}

#[test]
fn a_refused_subscription_ends_the_run_without_a_publisher() {
    let mut run = ClientRun::new(config(4, 7));
    let reaction = run.step(ClientEvent::SubscribeRefused);
    assert!(reaction.line.is_none());
    assert!(matches!(
        reaction.next,
        ClientCommand::Exit(LinkError::Subscribe)
    ));
    assert_eq!(run.phase, ClientPhase::Stopped(LinkError::Subscribe));
    let events = vec![
        ClientEvent::Subscribed,
        ClientEvent::PublisherStarted,
        notified("n"),
        ClientEvent::StreamEnded,
    ];
    for event in events {
        let reaction = run.step(event);
        assert!(reaction.line.is_none());
        assert!(matches!(
            reaction.next,
            ClientCommand::Exit(LinkError::Subscribe)
        ));
    }
    assert_eq!(run.seen, 0);
}

#[test]
fn notifications_are_reported_with_their_index() {
    let mut run = draining(1);
    let reaction = run.step(notified("Ok(Incoming(ConnAck))"));
    assert_eq!(
        reaction.line.as_deref(),
        Some("Notification = Ok(Incoming(ConnAck)) (0)")
    );
    assert!(matches!(reaction.next, ClientCommand::Poll));
    let reaction = run.step(notified("Ok(Outgoing(Subscribe(1)))"));
    assert_eq!(
        reaction.line.as_deref(),
        Some("Notification = Ok(Outgoing(Subscribe(1))) (1)")
    );
    for index in 2..40usize {
        let reaction = run.step(notified("Ok(x)"));
        assert_eq!(
            reaction.line,
            Some(format!("Notification = Ok(x) ({:?})", index))
        );
        assert_eq!(run.seen, index + 1);
    }
    assert_eq!(run.phase, ClientPhase::Draining);
}

#[test]
fn the_end_of_the_stream_ends_the_run_well() {
    let mut run = draining(1);
    run.step(notified("a"));
    let reaction = run.step(ClientEvent::StreamEnded);
    assert!(reaction.line.is_none());
    assert!(matches!(reaction.next, ClientCommand::Finish));
    assert_eq!(run.phase, ClientPhase::Terminated);
    let reaction = run.step(notified("b"));
    assert!(reaction.line.is_none());
    assert!(matches!(reaction.next, ClientCommand::Finish));
    assert_eq!(run.seen, 1);
}

#[test]
fn an_error_that_ends_the_stream_is_reported_and_ends_the_run_well() {
    let mut run = draining(1);
    run.step(notified("a"));
    run.step(notified("b"));
    let reaction = run.step(ClientEvent::StreamFailed {
        description: "Err(ConnectionRefused)".to_string(),
    });
    assert_eq!(
        reaction.line.as_deref(),
        Some("Notification = Err(ConnectionRefused) (2)")
    );
    assert!(matches!(reaction.next, ClientCommand::Finish));
    assert_eq!(run.phase, ClientPhase::Terminated);
    assert_eq!(run.seen, 3);
}

#[test]
fn the_stream_may_end_before_the_publisher_is_done() {
    let mut run = ClientRun::new(config(1000, 1));
    let mut publisher = match run.step(ClientEvent::Subscribed).next {
        ClientCommand::StartPublisher(publisher) => publisher,
        other => panic!("unexpected command {:?}", other),
    };
    run.step(ClientEvent::PublisherStarted);
    publisher.step(PublisherEvent::Published);
    let reaction = run.step(ClientEvent::StreamEnded);
    assert!(matches!(reaction.next, ClientCommand::Finish));
    assert!(matches!(
        publisher.step(PublisherEvent::Slept),
        PublisherCommand::Publish { .. }
    ));
}

#[test]
fn a_client_event_that_answers_no_pending_command_changes_nothing() {
    let mut run = ClientRun::new(config(1, 1));
    let events = vec![
        ClientEvent::PublisherStarted,
        notified("n"),
        ClientEvent::StreamEnded,
        ClientEvent::StreamFailed {
            description: "e".to_string(),
        },
    ];
    for event in events {
        let reaction = run.step(event);
        assert!(reaction.line.is_none());
        assert!(matches!(reaction.next, ClientCommand::Subscribe { .. }));
        assert_eq!(run.phase, ClientPhase::Constructed);
        assert_eq!(run.seen, 0);
    }
    run.step(ClientEvent::Subscribed);
    let reaction = run.step(notified("n"));
    assert!(reaction.line.is_none());
    assert!(matches!(reaction.next, ClientCommand::StartPublisher(_)));
    assert_eq!(run.seen, 0);
}
