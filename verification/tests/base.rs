use ktools::base::{
    check_config, fetch_policy, ErrorKind, MessageFormat, MessageQueueServerType,
    MessageServerConfig, ReadPosition, StartOffset, TopicConfig, DEFAULT_FETCH_MAX_BYTES,
    FETCH_MIN_BYTES,
};

fn brokers(list: &[&str]) -> MessageServerConfig {
    MessageServerConfig {
        brokers: list.iter().map(|b| b.to_string()).collect(),
        server_type: MessageQueueServerType::Kafka,
    }
}

fn topic(name: &str, position: ReadPosition, fetch: i32) -> TopicConfig {
    TopicConfig {
        topic: name.to_string(),
        offset_position: position,
        format: MessageFormat::JSON,
        fetch_max_bytes_read_per_partition: fetch,
    }
}

#[test]
fn head_and_all_start_from_the_earliest_offset() {
    assert_eq!(ReadPosition::Head { limit: 3 }.start_offset(), StartOffset::Earliest);
    assert_eq!(ReadPosition::Head { limit: -1 }.start_offset(), StartOffset::Earliest);
    assert_eq!(ReadPosition::All.start_offset(), StartOffset::Earliest);
}

#[test]
fn tail_and_follow_start_from_the_latest_offset() {
    assert_eq!(ReadPosition::Tail { limit: 2 }.start_offset(), StartOffset::Latest);
    assert_eq!(
        ReadPosition::Follow { limit: -1, commit: true }.start_offset(),
        StartOffset::Latest
    );
}

#[test]
fn a_non_negative_limit_is_a_cap_and_a_negative_one_is_none() {
    assert_eq!(ReadPosition::Head { limit: 0 }.effective_limit(), Some(0));
    assert_eq!(ReadPosition::Head { limit: 7 }.effective_limit(), Some(7));
    assert_eq!(ReadPosition::Tail { limit: i32::MAX }.effective_limit(), Some(2_147_483_647));
    assert_eq!(ReadPosition::Tail { limit: -1 }.effective_limit(), None);
    assert_eq!(ReadPosition::Head { limit: i32::MIN }.effective_limit(), None);
    assert_eq!(ReadPosition::Follow { limit: 5, commit: false }.effective_limit(), Some(5));
    assert_eq!(ReadPosition::Follow { limit: -3, commit: false }.effective_limit(), None);
}

#[test]
fn all_has_no_limit() {
    assert_eq!(ReadPosition::All.limit(), -1);
    assert_eq!(ReadPosition::All.effective_limit(), None);
    assert_eq!(fetch_policy(&ReadPosition::All), (StartOffset::Earliest, None));
}

#[test]
fn fetch_policy_pairs_start_and_cap() {
    assert_eq!(fetch_policy(&ReadPosition::Head { limit: 3 }), (StartOffset::Earliest, Some(3)));
    assert_eq!(fetch_policy(&ReadPosition::Tail { limit: 2 }), (StartOffset::Latest, Some(2)));
    assert_eq!(
        fetch_policy(&ReadPosition::Follow { limit: -1, commit: true }),
        (StartOffset::Latest, None)
    );
}

#[test]
fn only_follow_with_commit_commits() {
    assert!(ReadPosition::Follow { limit: -1, commit: true }.commits());
    assert!(!ReadPosition::Follow { limit: -1, commit: false }.commits());
    assert!(!ReadPosition::Head { limit: 1 }.commits());
    assert!(!ReadPosition::Tail { limit: 1 }.commits());
    assert!(!ReadPosition::All.commits());
}

#[test]
fn fetch_sizes_of_the_commands() {
    assert_eq!(DEFAULT_FETCH_MAX_BYTES, 1000_1000);
    assert_eq!(FETCH_MIN_BYTES, 1_000);
}

#[test]
fn a_valid_configuration_is_accepted() {
    let r = check_config(&brokers(&["localhost:9092"]), &topic("orders", ReadPosition::All, 1));
    assert_eq!(r, Ok(()));
}

#[test]
fn an_empty_broker_list_is_a_config_error() {
    let e = check_config(&brokers(&[]), &topic("orders", ReadPosition::All, 1024)).unwrap_err();
    assert_eq!(e.kind, ErrorKind::Config);
    assert_eq!(e.err, "the broker list is empty");
}

#[test]
fn an_empty_topic_name_is_a_config_error() {
    let e = check_config(&brokers(&["a:1"]), &topic("", ReadPosition::All, 1024)).unwrap_err();
    assert_eq!(e.kind, ErrorKind::Config);
    assert_eq!(e.err, "the topic name is empty");
}

#[test]
fn a_fetch_size_of_zero_or_less_is_a_config_error() {
    for fetch in [0, -1, i32::MIN] {
        let e = check_config(&brokers(&["a:1"]), &topic("orders", ReadPosition::All, fetch))
            .unwrap_err();
        assert_eq!(e.kind, ErrorKind::Config);
        assert_eq!(e.err, "the fetch size per partition must be positive");
    }
}

#[test]
fn the_broker_list_is_looked_at_before_the_topic() {
    let e = check_config(&brokers(&[]), &topic("", ReadPosition::All, 0)).unwrap_err();
    assert_eq!(e.err, "the broker list is empty");
    let e = check_config(&brokers(&["a:1"]), &topic("", ReadPosition::All, 0)).unwrap_err();
    assert_eq!(e.err, "the topic name is empty");
}

#[test]
fn errors_of_connection_and_output_carry_their_reason() {
    let e = ktools::base::connection_error("no host reachable".to_string());
    assert_eq!((e.kind, e.err.as_str()), (ErrorKind::Connection, "no host reachable"));
    let e = ktools::base::output_error("broken pipe".to_string());
    assert_eq!((e.kind, e.err.as_str()), (ErrorKind::Output, "broken pipe"));
}
