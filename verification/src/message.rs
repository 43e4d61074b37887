//! Messages as a poll hands them over: one set per partition, in the order
//! in which the broker client returned them.

use vstd::prelude::*;

verus! {

/// One message of a partition: its offset and its payload.
#[derive(Clone, Debug, PartialEq, Eq)]
pub struct Message {
    pub offset: i64,
    pub value: Vec<u8>,
}

/// The messages that one poll brought from one partition, in arrival order.
#[derive(Clone, Debug, PartialEq, Eq)]
pub struct MessageSet {
    pub topic: String,
    pub partition: i32,
    pub messages: Vec<Message>,
}

/// What one poll returned.
#[derive(Clone, Debug, PartialEq, Eq)]
pub enum PollOutcome {
    /// The partition message-sets of one batch, possibly none.
    Batch(Vec<MessageSet>),
    /// The poll failed; nothing was fetched.
    Failed,
}

pub struct MessageView {
    pub offset: i64,
    pub value: Seq<u8>,
}

pub struct MessageSetView {
    pub topic: Seq<char>,
    pub partition: i32,
    pub messages: Seq<MessageView>,
}

pub enum PollOutcomeView {
    Batch(Seq<MessageSetView>),
    Failed,
}

/// A message together with the topic and partition it came from.
pub struct Record {
    pub topic: Seq<char>,
    pub partition: i32,
    pub offset: i64,
    pub value: Seq<u8>,
}

impl DeepView for Message {
    type V = MessageView;

    open spec fn deep_view(&self) -> MessageView {
        MessageView { offset: self.offset, value: self.value@ }
    }
}

impl DeepView for MessageSet {
    type V = MessageSetView;

    open spec fn deep_view(&self) -> MessageSetView {
        MessageSetView {
            topic: self.topic@,
            partition: self.partition,
            messages: self.messages.deep_view(),
        }
    }
}

impl DeepView for PollOutcome {
    type V = PollOutcomeView;

    open spec fn deep_view(&self) -> PollOutcomeView {
        match self {
            PollOutcome::Batch(sets) => PollOutcomeView::Batch(sets.deep_view()),
            PollOutcome::Failed => PollOutcomeView::Failed,
        }
    }
}

impl MessageSetView {
    /// The `i`-th message of the set, with the set's topic and partition.
    pub open spec fn record(self, i: int) -> Record {
        Record {
            topic: self.topic,
            partition: self.partition,
            offset: self.messages[i].offset,
            value: self.messages[i].value,
        }
    }

    /// The messages of the set, in arrival order.
    pub open spec fn records(self) -> Seq<Record> {
        Seq::new(self.messages.len(), |i: int| self.record(i))
    }
}

/// The messages of a batch: those of its first set, then those of its
/// second, and so on, each set in arrival order.
pub open spec fn batch_records(sets: Seq<MessageSetView>) -> Seq<Record>
    decreases sets.len(),
{
    if sets.len() == 0 {
        Seq::empty()
    } else {
        batch_records(sets.drop_last()) + sets.last().records()
    }
}

impl PollOutcomeView {
    /// The messages that the poll made available; none if it failed.
    pub open spec fn records(self) -> Seq<Record> {
        match self {
            PollOutcomeView::Batch(sets) => batch_records(sets),
            PollOutcomeView::Failed => Seq::empty(),
        }
    }
}

/// The messages of the first `n + 1` sets are those of the first `n`,
/// followed by those of set `n`.
pub proof fn lemma_batch_records_step(sets: Seq<MessageSetView>, n: int)
    requires
        0 <= n < sets.len(),
    ensures
        batch_records(sets.take(n + 1)) == batch_records(sets.take(n)) + sets[n].records(),
{
    assert(sets.take(n + 1).drop_last() =~= sets.take(n));
}

/// The messages of the first `n` sets open the messages of the whole batch.
pub proof fn lemma_batch_records_prefix(sets: Seq<MessageSetView>, n: int)
    requires
        0 <= n <= sets.len(),
    ensures
        batch_records(sets.take(n)).len() <= batch_records(sets).len(),
        batch_records(sets.take(n)) == batch_records(sets).take(
            batch_records(sets.take(n)).len() as int,
        ),
    decreases sets.len() - n,
{
    if n == sets.len() {
        assert(sets.take(n) =~= sets);
    } else {
        lemma_batch_records_prefix(sets, n + 1);
        lemma_batch_records_step(sets, n);
    }
}

} // verus!
