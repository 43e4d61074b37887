//! Configuration model: broker connection info, topic read policy, and the
//! mapping from a read position to the fetch policy it implies.

use vstd::prelude::*;

verus! {

/// The kind of message-queue server behind a broker list.
#[derive(Clone, Copy, Debug, PartialEq, Eq, Structural)]
pub enum MessageQueueServerType {
    Kafka,
    Pulsar,
}

/// Where in a topic reading starts and when it stops.
///
/// A `limit` means the same in every variant: a non-negative value is an
/// exact cap on the total number of messages over all partitions, a negative
/// value means no cap.
#[derive(Clone, Copy, Debug, PartialEq, Eq, Structural)]
pub enum ReadPosition {
    /// Start from the earliest available offset.
    Head { limit: i32 },
    /// Start from the latest offset.
    Tail { limit: i32 },
    /// Start from the earliest offset and read everything.
    All,
    /// Start from the latest offset and keep polling; with `commit`, the
    /// consumed offsets are committed after each batch.
    Follow { limit: i32, commit: bool },
}

/// How the payload of a message is meant to be read downstream.
#[derive(Clone, Copy, Debug, PartialEq, Eq, Structural)]
pub enum MessageFormat {
    JSON,
    Text,
}

/// Where the fetch starts when the broker holds no committed offset.
#[derive(Clone, Copy, Debug, PartialEq, Eq, Structural)]
pub enum StartOffset {
    Earliest,
    Latest,
}

/// Connection info of a message-queue cluster.
#[derive(Clone, Debug, PartialEq, Eq)]
pub struct MessageServerConfig {
    pub brokers: Vec<String>,
    pub server_type: MessageQueueServerType,
}

/// What to read from which topic.
#[derive(Clone, Debug, PartialEq, Eq)]
pub struct TopicConfig {
    pub topic: String,
    pub offset_position: ReadPosition,
    pub format: MessageFormat,
    pub fetch_max_bytes_read_per_partition: i32,
}

/// The classes of failure that the tools distinguish.
#[derive(Clone, Copy, Debug, PartialEq, Eq, Structural)]
pub enum ErrorKind {
    /// No broker reachable, or topic metadata unavailable.
    Connection,
    /// A single poll failed; the caller retries.
    Poll,
    /// A formatted message could not be written.
    Output,
    /// The configuration is unusable.
    Config,
}

/// A failure: its class, and a text for the user.
#[derive(Clone, Debug, PartialEq, Eq)]
pub struct KToolsError {
    pub kind: ErrorKind,
    pub err: String,
}

impl View for KToolsError {
    type V = (ErrorKind, Seq<char>);

    open spec fn view(&self) -> (ErrorKind, Seq<char>) {
        (self.kind, self.err@)
    }
}

/// The error for a cluster that cannot be reached or whose metadata cannot
/// be had, with the reason as its text.
pub fn connection_error(reason: String) -> (e: KToolsError)
    ensures
        e@ == (ErrorKind::Connection, reason@),
{
    KToolsError { kind: ErrorKind::Connection, err: reason }
}

/// The error for output that cannot be written, with the reason as its
/// text.
pub fn output_error(reason: String) -> (e: KToolsError)
    ensures
        e@ == (ErrorKind::Output, reason@),
{
    KToolsError { kind: ErrorKind::Output, err: reason }
}

/// The fetch size that the commands ask for, per partition and poll.
pub const DEFAULT_FETCH_MAX_BYTES: i32 = 10_001_000;

/// The least number of bytes a broker collects before it answers a fetch.
pub const FETCH_MIN_BYTES: i32 = 1_000;

impl ReadPosition {
    /// The offset to fall back to: `Head` and `All` read from the earliest
    /// offset, `Tail` and `Follow` from the latest.
    pub open spec fn start(self) -> StartOffset {
        match self {
            ReadPosition::Head { .. } | ReadPosition::All => StartOffset::Earliest,
            ReadPosition::Tail { .. } | ReadPosition::Follow { .. } => StartOffset::Latest,
        }
    }

    /// The limit as the fetch loop takes it; `All` has none, which is -1.
    pub open spec fn raw_limit(self) -> i32 {
        match self {
            ReadPosition::Head { limit } => limit,
            ReadPosition::Tail { limit } => limit,
            ReadPosition::All => -1i32,
            ReadPosition::Follow { limit, .. } => limit,
        }
    }

    /// The cap on the number of messages, if there is one.
    pub open spec fn cap(self) -> Option<nat> {
        if self.raw_limit() < 0 {
            None
        } else {
            Some(self.raw_limit() as nat)
        }
    }

    /// Whether consumed offsets are committed after each batch.
    pub open spec fn commits_batches(self) -> bool {
        match self {
            ReadPosition::Head { .. } | ReadPosition::Tail { .. } | ReadPosition::All => false,
            ReadPosition::Follow { commit, .. } => commit,
        }
    }

    /// Where the fetch starts.
    pub fn start_offset(&self) -> (r: StartOffset)
        ensures
            r == self.start(),
    {
        match self {
            ReadPosition::Head { .. } => StartOffset::Earliest,
            ReadPosition::All => StartOffset::Earliest,
            ReadPosition::Tail { .. } => StartOffset::Latest,
            ReadPosition::Follow { .. } => StartOffset::Latest,
        }
    }

    /// The limit as the fetch loop takes it: negative for no cap.
    pub fn limit(&self) -> (r: i32)
        ensures
            r == self.raw_limit(),
    {
        match self {
            ReadPosition::Head { limit } => *limit,
            ReadPosition::Tail { limit } => *limit,
            ReadPosition::All => -1,
            ReadPosition::Follow { limit, .. } => *limit,
        }
    }

    /// The cap on the number of messages, if there is one.
    pub fn effective_limit(&self) -> (r: Option<u32>)
        ensures
            r is Some <==> self.cap() is Some,
            r matches Some(n) ==> self.cap() == Some(n as nat),
    {
        let limit: i32 = self.limit();
        if limit < 0 {
            None
        } else {
            Some(limit as u32)
        }
    }

    /// Whether consumed offsets are committed after each batch.
    pub fn commits(&self) -> (r: bool)
        ensures
            r == self.commits_batches(),
    {
        match self {
            ReadPosition::Head { .. } => false,
            ReadPosition::Tail { .. } => false,
            ReadPosition::All => false,
            ReadPosition::Follow { commit, .. } => *commit,
        }
    }
}

/// The fetch policy of a read position: where to start, and the cap on the
/// number of messages if there is one.
pub fn fetch_policy(position: &ReadPosition) -> (r: (StartOffset, Option<u32>))
    ensures
        r.0 == position.start(),
        r.1 is Some <==> position.cap() is Some,
        r.1 matches Some(n) ==> position.cap() == Some(n as nat),
{
    (position.start_offset(), position.effective_limit())
}

pub struct MessageServerConfigView {
    pub brokers: Seq<Seq<char>>,
    pub server_type: MessageQueueServerType,
}

pub struct TopicConfigView {
    pub topic: Seq<char>,
    pub offset_position: ReadPosition,
    pub format: MessageFormat,
    pub fetch_max_bytes_read_per_partition: i32,
}

impl DeepView for MessageServerConfig {
    type V = MessageServerConfigView;

    open spec fn deep_view(&self) -> MessageServerConfigView {
        MessageServerConfigView {
            brokers: self.brokers.deep_view(),
            server_type: self.server_type,
        }
    }
}

impl DeepView for TopicConfig {
    type V = TopicConfigView;

    open spec fn deep_view(&self) -> TopicConfigView {
        TopicConfigView {
            topic: self.topic@,
            offset_position: self.offset_position,
            format: self.format,
            fetch_max_bytes_read_per_partition: self.fetch_max_bytes_read_per_partition,
        }
    }
}

impl MessageServerConfig {
    /// A broker list names at least one broker.
    pub open spec fn valid(&self) -> bool {
        self.brokers@.len() > 0
    }
}

impl TopicConfig {
    /// A topic has a name, and a fetch may bring at least one byte.
    pub open spec fn valid(&self) -> bool {
        self.topic@.len() > 0 && self.fetch_max_bytes_read_per_partition > 0
    }
}

/// The text of the error for a broker list without brokers.
pub open spec fn no_brokers_text() -> Seq<char> {
    "the broker list is empty"@
}

/// The text of the error for a topic without a name.
pub open spec fn no_topic_text() -> Seq<char> {
    "the topic name is empty"@
}

/// The text of the error for a fetch size that is zero or negative.
pub open spec fn fetch_size_text() -> Seq<char> {
    "the fetch size per partition must be positive"@
}

/// What is wrong with a pair of configurations, if anything: the broker
/// list is looked at first, then the topic's name, then the fetch size.
pub open spec fn config_fault(brokers: &MessageServerConfig, topic: &TopicConfig) -> Option<
    (ErrorKind, Seq<char>),
> {
    if brokers.brokers@.len() == 0 {
        Some((ErrorKind::Config, no_brokers_text()))
    } else if topic.topic@.len() == 0 {
        Some((ErrorKind::Config, no_topic_text()))
    } else if topic.fetch_max_bytes_read_per_partition <= 0 {
        Some((ErrorKind::Config, fetch_size_text()))
    } else {
        None
    }
}

/// Accepts a broker list together with a topic configuration, or says what
/// is wrong with them.
pub fn check_config(
    brokers: &MessageServerConfig,
    topic: &TopicConfig,
) -> (r: Result<(), KToolsError>)
    ensures
        r is Ok <==> brokers.valid() && topic.valid(),
        r is Ok ==> config_fault(brokers, topic) is None,
        r matches Err(e) ==> config_fault(brokers, topic) == Some(e@),
{
    if brokers.brokers.len() == 0 {
        Err(KToolsError { kind: ErrorKind::Config, err: "the broker list is empty".to_owned() })
    } else if topic.topic.as_str().is_empty() {
        Err(KToolsError { kind: ErrorKind::Config, err: "the topic name is empty".to_owned() })
    } else if topic.fetch_max_bytes_read_per_partition <= 0 {
        Err(
            KToolsError {
                kind: ErrorKind::Config,
                err: "the fetch size per partition must be positive".to_owned(),
            },
        )
    } else {
        Ok(())
    }
}

} // verus!
