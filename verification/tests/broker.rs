use kafka::consumer::FetchOffset;
use kafka::error::Error;
use ktools::base::{
    MessageFormat, MessageQueueServerType, MessageServerConfig, ReadPosition, StartOffset,
    TopicConfig,
};
use ktools::broker::{client_settings, fallback_offset, fetch_polled, outcome_of};
use ktools::consumer::{KtoolsConsumer, Step};
use ktools::message::PollOutcome;

#[test]
fn a_start_offset_becomes_the_fallback_offset_of_the_client() {
    assert!(matches!(fallback_offset(StartOffset::Earliest), FetchOffset::Earliest));
    assert!(matches!(fallback_offset(StartOffset::Latest), FetchOffset::Latest));
    assert!(matches!(
        fallback_offset(ReadPosition::Head { limit: 3 }.start_offset()),
        FetchOffset::Earliest
    ));
    assert!(matches!(
        fallback_offset(ReadPosition::Follow { limit: -1, commit: false }.start_offset()),
        FetchOffset::Latest
    ));
}

#[test]
fn a_poll_that_failed_is_a_failed_outcome() {
    assert_eq!(outcome_of(&Err(Error::NoHostReachable)), PollOutcome::Failed);
    assert_eq!(outcome_of(&Err(Error::UnsetGroupId)), PollOutcome::Failed);
}

#[test]
fn a_poll_that_failed_is_reported_and_changes_nothing() {
    let brokers = MessageServerConfig {
        brokers: vec!["localhost:9092".to_string()],
        server_type: MessageQueueServerType::Kafka,
    };
    let topic = TopicConfig {
        topic: "orders".to_string(),
        offset_position: ReadPosition::Follow { limit: 2, commit: true },
        format: MessageFormat::JSON,
        fetch_max_bytes_read_per_partition: 1000_1000,
    };
    let mut c = KtoolsConsumer::new(brokers, topic, 10).unwrap();
    let step = fetch_polled(&mut c, &Err(Error::NoHostReachable));
    assert_eq!(step, Step { poll_failed: true, lines: vec![], commit: false, done: false });
    assert!(!c.finished());
}

#[test]
fn the_client_is_set_up_from_the_configuration() {
    let brokers = MessageServerConfig {
        brokers: vec!["a:9092".to_string(), "b:9092".to_string()],
        server_type: MessageQueueServerType::Kafka,
    };
    let topic = TopicConfig {
        topic: "orders".to_string(),
        offset_position: ReadPosition::Head { limit: 3 },
        format: MessageFormat::JSON,
        fetch_max_bytes_read_per_partition: 1000_1000,
    };
    let head = client_settings(&KtoolsConsumer::new(brokers.clone(), topic.clone(), 10).unwrap());
    assert_eq!(head.hosts, vec!["a:9092".to_string(), "b:9092".to_string()]);
    assert_eq!(head.topic, "orders");
    assert_eq!(head.fetch_min_bytes, 1_000);
    assert_eq!(head.fetch_max_bytes_per_partition, 10_001_000);
    assert!(matches!(head.fallback_offset, FetchOffset::Earliest));
    let tail_topic = TopicConfig { offset_position: ReadPosition::Tail { limit: 3 }, ..topic };
    let tail = client_settings(&KtoolsConsumer::new(brokers, tail_topic, 10).unwrap());
    assert!(matches!(tail.fallback_offset, FetchOffset::Latest));
    assert_eq!(head.group, "");
    assert_eq!(tail.group, "");
}

#[test]
fn only_a_position_that_commits_gets_a_group() {
    let settings = |position: ReadPosition| {
        let brokers = MessageServerConfig {
            brokers: vec!["a:9092".to_string()],
            server_type: MessageQueueServerType::Kafka,
        };
        let topic = TopicConfig {
            topic: "orders".to_string(),
            offset_position: position,
            format: MessageFormat::JSON,
            fetch_max_bytes_read_per_partition: 1024,
        };
        client_settings(&KtoolsConsumer::new(brokers, topic, 0).unwrap())
    };
    assert_eq!(settings(ReadPosition::Follow { limit: -1, commit: true }).group, "ktools");
    assert_eq!(settings(ReadPosition::Follow { limit: -1, commit: false }).group, "");
    assert_eq!(settings(ReadPosition::All).group, "");
}
