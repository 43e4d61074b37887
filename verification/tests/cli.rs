use ktools::base::{
    ErrorKind, MessageFormat, MessageQueueServerType, MessageServerConfig, ReadPosition,
    TopicConfig,
};
use ktools::cli::{
    broker_list, option_flags, option_values, plan, plan_parsed, usage, usage_brief, Command,
    ParsedArgs, Plan,
};

fn args(list: &[&str]) -> Vec<String> {
    list.iter().map(|a| a.to_string()).collect()
}

fn consume(brokers: &[&str], topic: &str, position: ReadPosition) -> Plan {
    Plan::Consume {
        broker_config: MessageServerConfig {
            brokers: args(brokers),
            server_type: MessageQueueServerType::Kafka,
        },
        topic_config: TopicConfig {
            topic: topic.to_string(),
            offset_position: position,
            format: MessageFormat::JSON,
            fetch_max_bytes_read_per_partition: 1000_1000,
        },
        verbose: 10,
    }
}

fn config_error(r: Result<Plan, ktools::base::KToolsError>) -> String {
    let e = r.unwrap_err();
    assert_eq!(e.kind, ErrorKind::Config);
    e.err
}

#[test]
fn head_with_a_number_reads_so_many_from_the_start() {
    let r = plan(Command::Head, &args(&["-n", "3", "a:9092,b:9092", "orders"]));
    assert_eq!(r, Ok(consume(&["a:9092", "b:9092"], "orders", ReadPosition::Head { limit: 3 })));
}

#[test]
fn head_without_a_number_has_no_limit() {
    let r = plan(Command::Head, &args(&["localhost:9092", "orders"]));
    assert_eq!(r, Ok(consume(&["localhost:9092"], "orders", ReadPosition::Head { limit: -1 })));
}

#[test]
fn options_may_follow_the_arguments() {
    let r = plan(Command::Head, &args(&["localhost:9092", "orders", "-n", "5"]));
    assert_eq!(r, Ok(consume(&["localhost:9092"], "orders", ReadPosition::Head { limit: 5 })));
}

#[test]
fn tail_reads_from_the_end() {
    let r = plan(Command::Tail, &args(&["-n", "2", "localhost:9092", "orders"]));
    assert_eq!(r, Ok(consume(&["localhost:9092"], "orders", ReadPosition::Tail { limit: 2 })));
}

#[test]
fn tail_with_f_follows_without_committing() {
    let r = plan(Command::Tail, &args(&["-f", "localhost:9092", "orders"]));
    assert_eq!(
        r,
        Ok(consume(&["localhost:9092"], "orders", ReadPosition::Follow { limit: -1, commit: false }))
    );
    let r = plan(Command::Tail, &args(&["-f", "-n", "7", "localhost:9092", "orders"]));
    assert_eq!(
        r,
        Ok(consume(&["localhost:9092"], "orders", ReadPosition::Follow { limit: 7, commit: false }))
    );
}

#[test]
fn head_knows_no_follow_flag() {
    let text = config_error(plan(Command::Head, &args(&["-f", "localhost:9092", "orders"])));
    assert_eq!(text, "Unrecognized option: 'f'");
}

#[test]
fn help_wins_over_everything_else() {
    for command in [Command::Head, Command::Tail, Command::Ls, Command::Echo] {
        assert_eq!(plan(command, &args(&["-h"])), Ok(Plan::ShowUsage));
        assert_eq!(plan(command, &args(&["--help", "x"])), Ok(Plan::ShowUsage));
    }
    assert_eq!(plan(Command::Head, &args(&["-h", "-n", "abc"])), Ok(Plan::ShowUsage));
}

#[test]
fn a_missing_argument_is_a_config_error() {
    assert_eq!(config_error(plan(Command::Head, &args(&[]))), "a required argument is missing");
    assert_eq!(
        config_error(plan(Command::Head, &args(&["localhost:9092"]))),
        "a required argument is missing"
    );
    assert_eq!(
        config_error(plan(Command::Tail, &args(&["-f", "localhost:9092"]))),
        "a required argument is missing"
    );
    assert_eq!(config_error(plan(Command::Ls, &args(&[]))), "a required argument is missing");
    assert_eq!(
        config_error(plan(Command::Echo, &args(&["localhost:9092", "orders"]))),
        "a required argument is missing"
    );
}

#[test]
fn a_limit_that_is_no_number_is_a_config_error() {
    for number in ["abc", "1.5", "", "99999999999"] {
        let text = config_error(plan(Command::Head, &args(&["-n", number, "a:1", "orders"])));
        assert_eq!(text, "the value of -n is not a number");
    }
}

#[test]
fn a_negative_limit_is_taken_as_it_is() {
    let r = plan(Command::Tail, &args(&["-n", "-4", "a:1", "orders"]));
    assert_eq!(r, Ok(consume(&["a:1"], "orders", ReadPosition::Tail { limit: -4 })));
}

#[test]
fn a_number_without_a_value_is_turned_down_by_the_parser() {
    let text = config_error(plan(Command::Head, &args(&["a:1", "orders", "-n"])));
    assert_eq!(text, "Argument to option 'n' missing");
}

#[test]
fn a_command_without_brokers_is_a_config_error() {
    for command in [Command::Head, Command::Tail, Command::Ls, Command::Echo] {
        let text = config_error(plan(command, &args(&["", "orders", "hello"])));
        assert_eq!(text, "the broker list is empty");
    }
}

#[test]
fn an_empty_topic_is_a_config_error_for_head_and_tail() {
    for command in [Command::Head, Command::Tail] {
        let text = config_error(plan(command, &args(&["a:1", ""])));
        assert_eq!(text, "the topic name is empty");
    }
}

#[test]
fn ls_lists_the_topics_of_the_brokers() {
    let r = plan(Command::Ls, &args(&["a:9092,b:9092"]));
    assert_eq!(
        r,
        Ok(Plan::ListTopics {
            broker_config: MessageServerConfig {
                brokers: args(&["a:9092", "b:9092"]),
                server_type: MessageQueueServerType::Kafka,
            },
        })
    );
}

#[test]
fn echo_publishes_one_message() {
    let r = plan(Command::Echo, &args(&["a:9092", "orders", "hello world"]));
    assert_eq!(
        r,
        Ok(Plan::Publish {
            brokers: args(&["a:9092"]),
            topic: "orders".to_string(),
            message: "hello world".to_string(),
        })
    );
}

#[test]
fn a_parsed_command_line_is_planned_without_the_parser() {
    let parsed = ParsedArgs {
        flags: vec![false, true],
        values: vec![Some("12".to_string())],
        free: args(&["a:1,b:2", "orders"]),
    };
    assert_eq!(
        plan_parsed(Command::Tail, &parsed),
        Ok(consume(&["a:1", "b:2"], "orders", ReadPosition::Follow { limit: 12, commit: false }))
    );
    assert_eq!(
        plan_parsed(Command::Head, &parsed),
        Ok(consume(&["a:1", "b:2"], "orders", ReadPosition::Head { limit: 12 }))
    );
    let bare = ParsedArgs { flags: vec![], values: vec![], free: args(&["a:1", "orders"]) };
    assert_eq!(
        plan_parsed(Command::Tail, &bare),
        Ok(consume(&["a:1"], "orders", ReadPosition::Tail { limit: -1 }))
    );
    let help = ParsedArgs { flags: vec![true], values: vec![None], free: vec![] };
    assert_eq!(plan_parsed(Command::Echo, &help), Ok(Plan::ShowUsage));
}

#[test]
fn broker_lists_are_split_at_commas() {
    assert_eq!(broker_list("a:1,b:2,c:3"), args(&["a:1", "b:2", "c:3"]));
    assert_eq!(broker_list("a:1"), args(&["a:1"]));
    assert_eq!(broker_list("a:1,"), args(&["a:1", ""]));
    assert_eq!(broker_list(""), Vec::<String>::new());
}

#[test]
fn the_option_tables_of_the_commands() {
    let shorts = |specs: Vec<ktools::cli::OptionSpec>| -> Vec<String> {
        specs.into_iter().map(|s| s.short).collect()
    };
    assert_eq!(shorts(option_flags(Command::Head)), args(&["h"]));
    assert_eq!(shorts(option_flags(Command::Tail)), args(&["h", "f"]));
    assert_eq!(shorts(option_flags(Command::Ls)), args(&["h"]));
    assert_eq!(shorts(option_flags(Command::Echo)), args(&["h"]));
    assert_eq!(shorts(option_values(Command::Head)), args(&["n"]));
    assert_eq!(shorts(option_values(Command::Tail)), args(&["n"]));
    assert_eq!(shorts(option_values(Command::Ls)), Vec::<String>::new());
    assert_eq!(shorts(option_values(Command::Echo)), Vec::<String>::new());
    let help = &option_flags(Command::Head)[0];
    assert_eq!((help.long.as_str(), help.desc.as_str(), help.hint.as_str()), ("help", "print this help menu", ""));
    let number = &option_values(Command::Head)[0];
    assert_eq!(
        (number.long.as_str(), number.desc.as_str(), number.hint.as_str()),
        ("", "The location is number lines", "NUMBER")
    );
}

#[test]
fn the_brief_names_the_program_and_its_arguments() {
    assert_eq!(usage_brief(Command::Head, "khead"), "Usage: khead brokers topic [options]");
    assert_eq!(usage_brief(Command::Tail, "ktail"), "Usage: ktail brokers topic [options]");
    assert_eq!(usage_brief(Command::Echo, "kecho"), "Usage: kecho brokers topic [options]");
    assert_eq!(usage_brief(Command::Ls, "kls"), "Usage: kls brokers [options]");
}

#[test]
fn the_usage_text_of_head() {
    let expected = "Usage: khead brokers topic [options]\n\nOptions:\n    -h, --help          print this help menu\n    -n NUMBER           The location is number lines\n";
    assert_eq!(usage(Command::Head, "khead"), expected);
}

#[test]
fn the_usage_text_of_tail_and_ls() {
    let tail = "Usage: ktail brokers topic [options]\n\nOptions:\n    -h, --help          print this help menu\n    -f                  no stop\n    -n NUMBER           The location is number lines\n";
    assert_eq!(usage(Command::Tail, "ktail"), tail);
    let ls = "Usage: kls brokers [options]\n\nOptions:\n    -h, --help          print this help menu\n";
    assert_eq!(usage(Command::Ls, "kls"), ls);
}

#[test]
fn the_tools_are_found_by_their_names() {
    assert_eq!(ktools::cli::command_named("khead"), Some(Command::Head));
    assert_eq!(ktools::cli::command_named("ktail"), Some(Command::Tail));
    assert_eq!(ktools::cli::command_named("kls"), Some(Command::Ls));
    assert_eq!(ktools::cli::command_named("kecho"), Some(Command::Echo));
    assert_eq!(ktools::cli::command_named("kcat"), None);
    assert_eq!(ktools::cli::command_named(""), None);
    assert_eq!(ktools::cli::command_named("KHEAD"), None);
}
