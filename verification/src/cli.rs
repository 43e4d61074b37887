//! The command lines of the four tools: their options, their usage text,
//! and what each command line asks for.

use crate::base::{
    no_brokers_text, no_topic_text, ErrorKind, KToolsError, MessageFormat, MessageQueueServerType, MessageServerConfig,
    MessageServerConfigView, ReadPosition, TopicConfig, TopicConfigView, DEFAULT_FETCH_MAX_BYTES,
};
use crate::text::{parse_i32, parsed_i32, split, split_on};
use vstd::prelude::*;
use vstd::string::StringExecFns;
use vstd::utf8::is_ascii_chars;

verus! {

/// The tools.
#[derive(Clone, Copy, Debug, PartialEq, Eq, Structural)]
pub enum Command {
    Head,
    Tail,
    Ls,
    Echo,
}

/// The command behind the name of a tool.
pub open spec fn command_of(name: Seq<char>) -> Option<Command> {
    if name == "khead"@ {
        Some(Command::Head)
    } else if name == "ktail"@ {
        Some(Command::Tail)
    } else if name == "kls"@ {
        Some(Command::Ls)
    } else if name == "kecho"@ {
        Some(Command::Echo)
    } else {
        None
    }
}

/// Finds the command by the name of its tool: `khead`, `ktail`, `kls` or
/// `kecho`.
pub fn command_named(name: &str) -> (r: Option<Command>)
    ensures
        r == command_of(name@),
{
    let name: String = name.to_owned();
    if name == "khead".to_owned() {
        Some(Command::Head)
    } else if name == "ktail".to_owned() {
        Some(Command::Tail)
    } else if name == "kls".to_owned() {
        Some(Command::Ls)
    } else if name == "kecho".to_owned() {
        Some(Command::Echo)
    } else {
        None
    }
}

/// One option of a command line: `-short`, `--long` if the long name is
/// not empty, its description, and the hint that stands for its value in
/// the usage text if it takes one.
#[derive(Clone, Debug, PartialEq, Eq)]
pub struct OptionSpec {
    pub short: String,
    pub long: String,
    pub desc: String,
    pub hint: String,
}

pub struct OptionSpecView {
    pub short: Seq<char>,
    pub long: Seq<char>,
    pub desc: Seq<char>,
    pub hint: Seq<char>,
}

impl DeepView for OptionSpec {
    type V = OptionSpecView;

    open spec fn deep_view(&self) -> OptionSpecView {
        OptionSpecView { short: self.short@, long: self.long@, desc: self.desc@, hint: self.hint@ }
    }
}

/// A parsed command line: for each flag whether it was given, for each
/// option that takes a value the value if it was given, and the arguments
/// that are no options.
#[derive(Clone, Debug, PartialEq, Eq)]
pub struct ParsedArgs {
    pub flags: Vec<bool>,
    pub values: Vec<Option<String>>,
    pub free: Vec<String>,
}

pub struct ParsedArgsView {
    pub flags: Seq<bool>,
    pub values: Seq<Option<Seq<char>>>,
    pub free: Seq<Seq<char>>,
}

impl DeepView for ParsedArgs {
    type V = ParsedArgsView;

    open spec fn deep_view(&self) -> ParsedArgsView {
        ParsedArgsView {
            flags: self.flags.deep_view(),
            values: self.values.deep_view(),
            free: self.free.deep_view(),
        }
    }
}

/// What a command line asks for.
#[derive(Debug, PartialEq, Eq)]
pub enum Plan {
    /// Print the usage text of the command and do nothing else.
    ShowUsage,
    /// Read a topic and print its messages.
    Consume { broker_config: MessageServerConfig, topic_config: TopicConfig, verbose: i32 },
    /// List the topics of a cluster.
    ListTopics { broker_config: MessageServerConfig },
    /// Publish one message.
    Publish { brokers: Vec<String>, topic: String, message: String },
}

pub enum PlanView {
    ShowUsage,
    Consume { broker_config: MessageServerConfigView, topic_config: TopicConfigView, verbose: i32 },
    ListTopics { broker_config: MessageServerConfigView },
    Publish { brokers: Seq<Seq<char>>, topic: Seq<char>, message: Seq<char> },
}

impl DeepView for Plan {
    type V = PlanView;

    open spec fn deep_view(&self) -> PlanView {
        match self {
            Plan::ShowUsage => PlanView::ShowUsage,
            Plan::Consume { broker_config, topic_config, verbose } => PlanView::Consume {
                broker_config: broker_config.deep_view(),
                topic_config: topic_config.deep_view(),
                verbose: *verbose,
            },
            Plan::ListTopics { broker_config } => PlanView::ListTopics {
                broker_config: broker_config.deep_view(),
            },
            Plan::Publish { brokers, topic, message } => PlanView::Publish {
                brokers: brokers.deep_view(),
                topic: topic@,
                message: message@,
            },
        }
    }
}

/// The verbosity that the tools format with: lines carry their prefix.
pub const VERBOSITY: i32 = 10;

/// `-h`, `--help`.
pub open spec fn help_decl() -> OptionSpecView {
    OptionSpecView { short: "h"@, long: "help"@, desc: "print this help menu"@, hint: ""@ }
}

/// `-f`: follow the topic.
pub open spec fn follow_decl() -> OptionSpecView {
    OptionSpecView { short: "f"@, long: ""@, desc: "no stop"@, hint: ""@ }
}

/// `-n NUMBER`: the limit.
pub open spec fn number_decl() -> OptionSpecView {
    OptionSpecView {
        short: "n"@,
        long: ""@,
        desc: "The location is number lines"@,
        hint: "NUMBER"@,
    }
}

/// The flags of a command, help first.
pub open spec fn flags_of(command: Command) -> Seq<OptionSpecView> {
    match command {
        Command::Tail => seq![help_decl(), follow_decl()],
        _ => seq![help_decl()],
    }
}

/// The options of a command that take a value.
pub open spec fn values_of(command: Command) -> Seq<OptionSpecView> {
    match command {
        Command::Head | Command::Tail => seq![number_decl()],
        _ => Seq::empty(),
    }
}

/// Names that the option parser takes: a short name of one ASCII
/// character, and a long name that is empty or longer than one character.
pub open spec fn well_named(specs: Seq<OptionSpecView>) -> bool {
    forall|i: int|
        0 <= i < specs.len() ==> (#[trigger] specs[i]).short.len() == 1 && is_ascii_chars(
            specs[i].short,
        ) && specs[i].long.len() != 1
}

fn option_spec(short: &str, long: &str, desc: &str, hint: &str) -> (spec: OptionSpec)
    ensures
        spec.deep_view() == (OptionSpecView { short: short@, long: long@, desc: desc@, hint: hint@ }),
{
    OptionSpec {
        short: short.to_owned(),
        long: long.to_owned(),
        desc: desc.to_owned(),
        hint: hint.to_owned(),
    }
}

/// The flags of a command.
pub fn option_flags(command: Command) -> (flags: Vec<OptionSpec>)
    ensures
        flags.deep_view() == flags_of(command),
        well_named(flags_of(command)),
{
    let mut flags: Vec<OptionSpec> = Vec::new();
    flags.push(option_spec("h", "help", "print this help menu", ""));
    if command == Command::Tail {
        flags.push(option_spec("f", "", "no stop", ""));
    }
    proof {
        reveal_strlit("h");
        reveal_strlit("help");
        reveal_strlit("f");
        reveal_strlit("");
    }
    flags
}

/// The options of a command that take a value.
pub fn option_values(command: Command) -> (valued: Vec<OptionSpec>)
    ensures
        valued.deep_view() == values_of(command),
        well_named(values_of(command)),
{
    let mut valued: Vec<OptionSpec> = Vec::new();
    if command == Command::Head || command == Command::Tail {
        valued.push(option_spec("n", "", "The location is number lines", "NUMBER"));
    }
    proof {
        reveal_strlit("n");
        reveal_strlit("");
    }
    valued
}

/// `Usage: <program> brokers topic [options]`, without `topic` for `ls`.
pub open spec fn brief_of(command: Command, program: Seq<char>) -> Seq<char> {
    "Usage: "@ + program + if command == Command::Ls {
        " brokers [options]"@
    } else {
        " brokers topic [options]"@
    }
}

/// The first line of the usage text of a command.
pub fn usage_brief(command: Command, program: &str) -> (brief: String)
    ensures
        brief@ == brief_of(command, program@),
{
    let mut brief: String = "Usage: ".to_owned();
    brief.append(program);
    if command == Command::Ls {
        brief.append(" brokers [options]");
    } else {
        brief.append(" brokers topic [options]");
    }
    brief
}

/// The outcome of parsing, by its view.
pub open spec fn parse_view(r: Result<ParsedArgs, String>) -> Result<ParsedArgsView, Seq<char>> {
    match r {
        Ok(parsed) => Ok(parsed.deep_view()),
        Err(text) => Err(text@),
    }
}

/// What `getopts` makes of the arguments `args` under the flags `flags`
/// and the valued options `valued`, declared in this order: the parsed
/// command line, or the text of its failure.
pub uninterp spec fn parsed_command_line(
    flags: Seq<OptionSpecView>,
    valued: Seq<OptionSpecView>,
    args: Seq<Seq<char>>,
) -> Result<ParsedArgsView, Seq<char>>;

/// The usage text that `getopts` derives from a brief and the same
/// options.
pub uninterp spec fn usage_text(
    brief: Seq<char>,
    flags: Seq<OptionSpecView>,
    valued: Seq<OptionSpecView>,
) -> Seq<char>;

/// Declares the flags with `getopts::Options::optflag` and the valued
/// options with `Options::optopt` on a fresh `Options`, and parses `args`
/// with `Options::parse`. Of a match it reads `opt_present` for each flag,
/// `opt_str` for each valued option, both by the short name, and the free
/// arguments; of a failure, its text. Claimed: the names are such that
/// none of these calls panics, and the outcome depends on the three
/// arguments alone.
#[verifier::external_body]
fn parse_command_line(
    flags: &Vec<OptionSpec>,
    valued: &Vec<OptionSpec>,
    args: &Vec<String>,
) -> (r: Result<ParsedArgs, String>)
    requires
        well_named(flags.deep_view()),
        well_named(valued.deep_view()),
    ensures
        parse_view(r) == parsed_command_line(flags.deep_view(), valued.deep_view(), args.deep_view()),
{
    let mut opts = getopts::Options::new();
    for f in flags {
        opts.optflag(&f.short, &f.long, &f.desc);
    }
    for v in valued {
        opts.optopt(&v.short, &v.long, &v.desc, &v.hint);
    }
    match opts.parse(args) {
        Ok(m) => Ok(ParsedArgs {
            flags: flags.iter().map(|f| m.opt_present(&f.short)).collect(),
            values: valued.iter().map(|v| m.opt_str(&v.short)).collect(),
            free: m.free.clone(),
        }),
        Err(fail) => Err(fail.to_string()),
    }
}

/// Declares the options as `parse_command_line` does and asks
/// `getopts::Options::usage` for the usage text under `brief`. Claimed:
/// the call does not panic on such names, and the text depends on the three
/// arguments alone.
#[verifier::external_body]
fn render_usage(brief: &str, flags: &Vec<OptionSpec>, valued: &Vec<OptionSpec>) -> (text: String)
    requires
        well_named(flags.deep_view()),
        well_named(valued.deep_view()),
    ensures
        text@ == usage_text(brief@, flags.deep_view(), valued.deep_view()),
{
    let mut opts = getopts::Options::new();
    for f in flags {
        opts.optflag(&f.short, &f.long, &f.desc);
    }
    for v in valued {
        opts.optopt(&v.short, &v.long, &v.desc, &v.hint);
    }
    opts.usage(brief)
}

/// The usage text of a command, for the name under which the program was
/// called.
pub fn usage(command: Command, program: &str) -> (text: String)
    ensures
        text@ == usage_text(brief_of(command, program@), flags_of(command), values_of(command)),
{
    let brief = usage_brief(command, program);
    let flags = option_flags(command);
    let valued = option_values(command);
    render_usage(brief.as_str(), &flags, &valued)
}

/// The text of the error for a command line with too few arguments.
pub open spec fn missing_argument_text() -> Seq<char> {
    "a required argument is missing"@
}

/// The text of the error for a limit that is no number.
pub open spec fn bad_number_text() -> Seq<char> {
    "the value of -n is not a number"@
}

/// The brokers that a comma-separated list names: none where the text is
/// empty, else the parts between the commas.
pub open spec fn broker_seq(text: Seq<char>) -> Seq<Seq<char>> {
    if text.len() == 0 {
        Seq::empty()
    } else {
        split_on(text, ',')
    }
}

/// Whether the first flag, help, was given.
pub open spec fn help_asked(parsed: ParsedArgsView) -> bool {
    parsed.flags.len() > 0 && parsed.flags[0]
}

/// Whether the second flag, follow, was given.
pub open spec fn follow_asked(parsed: ParsedArgsView) -> bool {
    parsed.flags.len() > 1 && parsed.flags[1]
}

/// The value of the first valued option, the limit, if it was given.
pub open spec fn number_text(parsed: ParsedArgsView) -> Option<Seq<char>> {
    if parsed.values.len() > 0 {
        parsed.values[0]
    } else {
        None
    }
}

/// How many arguments a command needs besides its options: the brokers,
/// then for all but `ls` the topic, then for `echo` the message.
pub open spec fn arity(command: Command) -> nat {
    match command {
        Command::Head | Command::Tail => 2,
        Command::Ls => 1,
        Command::Echo => 3,
    }
}

/// The read position of a command: `head` reads from the start, `tail`
/// from the end, and `tail` with the follow flag keeps following, without
/// committing.
pub open spec fn position_of(command: Command, follow: bool, limit: i32) -> ReadPosition {
    if command == Command::Head {
        ReadPosition::Head { limit }
    } else if follow {
        ReadPosition::Follow { limit, commit: false }
    } else {
        ReadPosition::Tail { limit }
    }
}

/// What a parsed command line asks for. Help wins over everything else.
/// Then a missing argument, an empty broker list, a limit that is no
/// number, and for `head` and `tail` an empty topic name are turned down, in
/// this order. Without `-n` there is no limit, which is -1.
pub open spec fn planned(command: Command, parsed: ParsedArgsView) -> Result<
    PlanView,
    (ErrorKind, Seq<char>),
> {
    let broker_config = MessageServerConfigView {
        brokers: broker_seq(parsed.free[0]),
        server_type: MessageQueueServerType::Kafka,
    };
    if help_asked(parsed) {
        Ok(PlanView::ShowUsage)
    } else if parsed.free.len() < arity(command) {
        Err((ErrorKind::Config, missing_argument_text()))
    } else if broker_config.brokers.len() == 0 {
        Err((ErrorKind::Config, no_brokers_text()))
    } else if command == Command::Ls {
        Ok(PlanView::ListTopics { broker_config })
    } else if command == Command::Echo {
        Ok(
            PlanView::Publish {
                brokers: broker_config.brokers,
                topic: parsed.free[1],
                message: parsed.free[2],
            },
        )
    } else if number_text(parsed) matches Some(text) && parsed_i32(text) is None {
        Err((ErrorKind::Config, bad_number_text()))
    } else if parsed.free[1].len() == 0 {
        Err((ErrorKind::Config, no_topic_text()))
    } else {
        let limit = match number_text(parsed) {
            Some(text) => parsed_i32(text)->0,
            None => -1i32,
        };
        Ok(
            PlanView::Consume {
                broker_config,
                topic_config: TopicConfigView {
                    topic: parsed.free[1],
                    offset_position: position_of(command, follow_asked(parsed), limit),
                    format: MessageFormat::JSON,
                    fetch_max_bytes_read_per_partition: DEFAULT_FETCH_MAX_BYTES,
                },
                verbose: VERBOSITY,
            },
        )
    }
}

/// A plan or an error, by its view.
pub open spec fn plan_view(r: Result<Plan, KToolsError>) -> Result<PlanView, (ErrorKind, Seq<char>)> {
    match r {
        Ok(plan) => Ok(plan.deep_view()),
        Err(e) => Err(e@),
    }
}

/// The brokers that a comma-separated list names.
pub fn broker_list(text: &str) -> (brokers: Vec<String>)
    ensures
        brokers.deep_view() == broker_seq(text@),
{
    if text.is_empty() {
        let brokers: Vec<String> = Vec::new();
        brokers
    } else {
        split(text, ',')
    }
}

fn config_error(text: &str) -> (r: Result<Plan, KToolsError>)
    ensures
        plan_view(r) == Err::<PlanView, (ErrorKind, Seq<char>)>((ErrorKind::Config, text@)),
{
    Err(KToolsError { kind: ErrorKind::Config, err: text.to_owned() })
}

/// Says what a parsed command line asks for.
pub fn plan_parsed(command: Command, parsed: &ParsedArgs) -> (r: Result<Plan, KToolsError>)
    ensures
        plan_view(r) == planned(command, parsed.deep_view()),
{
    if parsed.flags.len() > 0 && parsed.flags[0] {
        return Ok(Plan::ShowUsage);
    }
    let needed: usize = match command {
        Command::Head => 2,
        Command::Tail => 2,
        Command::Ls => 1,
        Command::Echo => 3,
    };
    if parsed.free.len() < needed {
        return config_error("a required argument is missing");
    }
    let brokers: Vec<String> = broker_list(parsed.free[0].as_str());
    if brokers.len() == 0 {
        return config_error("the broker list is empty");
    }
    if command == Command::Ls {
        return Ok(
            Plan::ListTopics {
                broker_config: MessageServerConfig {
                    brokers,
                    server_type: MessageQueueServerType::Kafka,
                },
            },
        );
    }
    let topic: String = parsed.free[1].clone();
    if command == Command::Echo {
        let message: String = parsed.free[2].clone();
        return Ok(Plan::Publish { brokers, topic, message });
    }
    let mut limit: i32 = -1;
    if parsed.values.len() > 0 {
        match &parsed.values[0] {
            Some(text) => {
                match parse_i32(text.as_str()) {
                    Some(number) => {
                        limit = number;
                    },
                    None => {
                        return config_error("the value of -n is not a number");
                    },
                }
            },
            None => {},
        }
    }
    if topic.as_str().is_empty() {
        return config_error("the topic name is empty");
    }
    let follow: bool = parsed.flags.len() > 1 && parsed.flags[1];
    let offset_position = if command == Command::Head {
        ReadPosition::Head { limit }
    } else if follow {
        ReadPosition::Follow { limit, commit: false }
    } else {
        ReadPosition::Tail { limit }
    };
    Ok(
        Plan::Consume {
            broker_config: MessageServerConfig {
                brokers,
                server_type: MessageQueueServerType::Kafka,
            },
            topic_config: TopicConfig {
                topic,
                offset_position,
                format: MessageFormat::JSON,
                fetch_max_bytes_read_per_partition: DEFAULT_FETCH_MAX_BYTES,
            },
            verbose: VERBOSITY,
        },
    )
}

/// What the arguments of a command ask for, where `parse` stands for what
/// the option parser made of them: its failure is a configuration error with
/// the parser's text, and its match is planned as `planned` says.
pub open spec fn planned_from(
    command: Command,
    parse: Result<ParsedArgsView, Seq<char>>,
) -> Result<PlanView, (ErrorKind, Seq<char>)> {
    match parse {
        Ok(parsed) => planned(command, parsed),
        Err(text) => Err((ErrorKind::Config, text)),
    }
}

/// Says what the arguments of a command ask for. `args` are the arguments
/// after the program's name.
pub fn plan(command: Command, args: &Vec<String>) -> (r: Result<Plan, KToolsError>)
    ensures
        plan_view(r) == planned_from(
            command,
            parsed_command_line(flags_of(command), values_of(command), args.deep_view()),
        ),
{
    let flags = option_flags(command);
    let valued = option_values(command);
    match parse_command_line(&flags, &valued, args) {
        Ok(parsed) => plan_parsed(command, &parsed),
        Err(text) => Err(KToolsError { kind: ErrorKind::Config, err: text }),
    }
}

} // verus!
