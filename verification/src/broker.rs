//! The engine on what the Kafka client hands over: the result of a poll
//! becomes a poll outcome, and a start offset becomes the client's fallback
//! offset.

use crate::base::{MessageServerConfigView, StartOffset, TopicConfigView, FETCH_MIN_BYTES};
use crate::consumer::{KtoolsConsumer, Step};
use crate::message::{Message, MessageSet, MessageSetView, PollOutcome, PollOutcomeView};
use kafka::consumer::{FetchOffset, MessageSets};
use kafka::error::Error;
use vstd::prelude::*;

verus! {

/// `kafka::consumer::MessageSets`: what one poll fetched. Nothing is known
/// of a value but what `fetched_sets` names.
#[verifier::external_type_specification]
#[verifier::external_body]
pub struct ExMessageSets(MessageSets);

/// `kafka::error::Error`: why a call of the client failed. Nothing is known
/// of a value.
#[verifier::external_type_specification]
#[verifier::external_body]
pub struct ExError(Error);

/// `kafka::consumer::FetchOffset`, with its variants `Earliest`, `Latest`
/// and `ByTime` as the client declares them.
#[verifier::external_type_specification]
pub struct ExFetchOffset(FetchOffset);

/// The partition sets that a `MessageSets` value holds, in the order in
/// which its iterator yields them.
pub uninterp spec fn fetched_sets(sets: MessageSets) -> Seq<MessageSetView>;

/// Walks `MessageSets::iter` and copies out of each `MessageSet` its
/// `topic()`, its `partition()` and, of each of its `messages()`, the offset
/// and the value. Claimed: the result holds exactly the sets of the walk, in
/// its order, each with its messages in their order.
#[verifier::external_body]
fn read_message_sets(sets: &MessageSets) -> (batch: Vec<MessageSet>)
    ensures
        batch.deep_view() == fetched_sets(*sets),
{
    let mut batch = Vec::new();
    for set in sets.iter() {
        let mut messages = Vec::new();
        for m in set.messages() {
            messages.push(Message { offset: m.offset, value: m.value.to_vec() });
        }
        batch.push(MessageSet { topic: set.topic().to_string(), partition: set.partition(), messages });
    }
    batch
}

/// The poll outcome that the result of a poll stands for.
pub open spec fn polled_outcome(polled: Result<MessageSets, Error>) -> PollOutcomeView {
    match polled {
        Ok(sets) => PollOutcomeView::Batch(fetched_sets(sets)),
        Err(_) => PollOutcomeView::Failed,
    }
}

/// Turns the result of a poll into a poll outcome: the fetched sets of a
/// successful poll, and `Failed` for any error.
pub fn outcome_of(polled: &Result<MessageSets, Error>) -> (outcome: PollOutcome)
    ensures
        outcome.deep_view() == polled_outcome(*polled),
{
    match polled {
        Ok(sets) => PollOutcome::Batch(read_message_sets(sets)),
        Err(_) => PollOutcome::Failed,
    }
}

/// One turn of the fetch loop on the result of a poll.
pub fn fetch_polled(
    consumer: &mut KtoolsConsumer,
    polled: &Result<MessageSets, Error>,
) -> (step: Step)
    ensures
        step.deep_view() == old(consumer)@.step(polled_outcome(*polled)),
        final(consumer)@ == old(consumer)@.after(polled_outcome(*polled)),
        final(consumer).brokers() == old(consumer).brokers(),
        final(consumer).topic() == old(consumer).topic(),
{
    let outcome = outcome_of(polled);
    consumer.fetch(&outcome)
}

/// What the Kafka client of a consumer is set up with before it connects.
#[derive(Debug)]
pub struct ClientSettings {
    pub hosts: Vec<String>,
    pub group: String,
    pub topic: String,
    pub fetch_min_bytes: i32,
    pub fetch_max_bytes_per_partition: i32,
    pub fallback_offset: FetchOffset,
}

pub struct ClientSettingsView {
    pub hosts: Seq<Seq<char>>,
    pub group: Seq<char>,
    pub topic: Seq<char>,
    pub fetch_min_bytes: i32,
    pub fetch_max_bytes_per_partition: i32,
    pub fallback_offset: FetchOffset,
}

impl DeepView for ClientSettings {
    type V = ClientSettingsView;

    open spec fn deep_view(&self) -> ClientSettingsView {
        ClientSettingsView {
            hosts: self.hosts.deep_view(),
            group: self.group@,
            topic: self.topic@,
            fetch_min_bytes: self.fetch_min_bytes,
            fetch_max_bytes_per_partition: self.fetch_max_bytes_per_partition,
            fallback_offset: self.fallback_offset,
        }
    }
}

/// The group on whose behalf offsets are committed.
pub open spec fn commit_group() -> Seq<char> {
    "ktools"@
}

/// The settings for a configuration: its brokers as hosts, the commit
/// group if its read position commits and else the empty group, which is no
/// group, its topic, the least fetch size of the tools, its fetch size per
/// partition, and the fallback offset of its read position.
pub open spec fn settings_of(
    brokers: MessageServerConfigView,
    topic: TopicConfigView,
) -> ClientSettingsView {
    ClientSettingsView {
        hosts: brokers.brokers,
        group: if topic.offset_position.commits_batches() {
            commit_group()
        } else {
            Seq::empty()
        },
        topic: topic.topic,
        fetch_min_bytes: FETCH_MIN_BYTES,
        fetch_max_bytes_per_partition: topic.fetch_max_bytes_read_per_partition,
        fallback_offset: fallback_of(topic.offset_position.start()),
    }
}

/// The settings of the Kafka client for a consumer.
pub fn client_settings(consumer: &KtoolsConsumer) -> (settings: ClientSettings)
    ensures
        settings.deep_view() == settings_of(
            consumer.brokers().deep_view(),
            consumer.topic().deep_view(),
        ),
{
    let brokers = consumer.broker_config();
    let topic = consumer.topic_config();
    let mut hosts: Vec<String> = Vec::new();
    let mut i: usize = 0;
    while i < brokers.brokers.len()
        invariant
            i <= brokers.brokers.len(),
            hosts.deep_view() == brokers.brokers.deep_view().take(i as int),
        decreases brokers.brokers.len() - i,
    {
        let ghost had = hosts.deep_view();
        let host: String = brokers.brokers[i].clone();
        hosts.push(host);
        assert(brokers.brokers.deep_view().take(i + 1) =~= had.push(brokers.brokers[i as int]@));
        i = i + 1;
    }
    assert(brokers.brokers.deep_view().take(i as int) =~= brokers.brokers.deep_view());
    let group: String = if topic.offset_position.commits() {
        "ktools".to_owned()
    } else {
        String::new()
    };
    ClientSettings {
        hosts,
        group,
        topic: topic.topic.clone(),
        fetch_min_bytes: FETCH_MIN_BYTES,
        fetch_max_bytes_per_partition: topic.fetch_max_bytes_read_per_partition,
        fallback_offset: fallback_offset(topic.offset_position.start_offset()),
    }
}

/// `Earliest` for `Earliest` and `Latest` for `Latest`.
pub open spec fn fallback_of(start: StartOffset) -> FetchOffset {
    match start {
        StartOffset::Earliest => FetchOffset::Earliest,
        StartOffset::Latest => FetchOffset::Latest,
    }
}

/// The fallback offset of the Kafka client for a start offset.
pub fn fallback_offset(start: StartOffset) -> (offset: FetchOffset)
    ensures
        offset == fallback_of(start),
{
    match start {
        StartOffset::Earliest => FetchOffset::Earliest,
        StartOffset::Latest => FetchOffset::Latest,
    }
}

} // verus!
