//! The consumption engine: what to emit for each poll, when to commit and
//! when to stop.
//!
//! The engine never talks to a broker. Its caller polls, hands the outcome
//! to [`KtoolsConsumer::fetch`], and carries out the [`Step`] it gets back:
//! report the failure if there was one, write the lines in order, commit if
//! asked to, and stop polling once the step says so.

use crate::base::{
    check_config, config_fault, KToolsError, MessageServerConfig, ReadPosition, TopicConfig,
};
use crate::format::{format_message, lines_of};
use crate::message::{
    batch_records, lemma_batch_records_prefix, lemma_batch_records_step, MessageSet,
    MessageSetView, PollOutcome, PollOutcomeView, Record,
};
use vstd::prelude::*;

verus! {

/// What the caller is to do after one poll, in this order: report the poll
/// failure if `poll_failed`, write each of `lines` as one piece, commit the
/// consumed offsets if `commit`, and poll no more if `done`.
#[derive(Debug, PartialEq, Eq)]
pub struct Step {
    pub poll_failed: bool,
    pub lines: Vec<Vec<u8>>,
    pub commit: bool,
    pub done: bool,
}

pub struct StepView {
    pub poll_failed: bool,
    pub lines: Seq<Seq<u8>>,
    pub commit: bool,
    pub done: bool,
}

impl DeepView for Step {
    type V = StepView;

    open spec fn deep_view(&self) -> StepView {
        StepView {
            poll_failed: self.poll_failed,
            lines: self.lines.deep_view(),
            commit: self.commit,
            done: self.done,
        }
    }
}

/// One thing for the caller to do.
#[derive(Debug, PartialEq, Eq)]
pub enum Effect {
    /// Report that the poll failed.
    ReportPollFailure,
    /// Write these bytes to the output as one piece.
    Write(Vec<u8>),
    /// Commit the consumed offsets of the batch.
    Commit,
    /// Poll no more.
    Stop,
}

pub enum EffectView {
    ReportPollFailure,
    Write(Seq<u8>),
    Commit,
    Stop,
}

impl DeepView for Effect {
    type V = EffectView;

    open spec fn deep_view(&self) -> EffectView {
        match self {
            Effect::ReportPollFailure => EffectView::ReportPollFailure,
            Effect::Write(line) => EffectView::Write(line@),
            Effect::Commit => EffectView::Commit,
            Effect::Stop => EffectView::Stop,
        }
    }
}

impl StepView {
    /// The writes of the lines, in their order.
    pub open spec fn writes(self) -> Seq<EffectView> {
        Seq::new(self.lines.len(), |i: int| EffectView::Write(self.lines[i]))
    }

    /// The step as the things to do, in the order in which they are done:
    /// the report of a poll failure, the lines, the commit, the stop.
    pub open spec fn effects(self) -> Seq<EffectView> {
        (if self.poll_failed {
            seq![EffectView::ReportPollFailure]
        } else {
            Seq::empty()
        }) + self.writes() + (if self.commit {
            seq![EffectView::Commit]
        } else {
            Seq::empty()
        }) + (if self.done {
            seq![EffectView::Stop]
        } else {
            Seq::empty()
        })
    }
}

impl Step {
    /// The things to do for this step, in the order in which they are to be
    /// done.
    pub fn into_effects(self) -> (effects: Vec<Effect>)
        ensures
            effects.deep_view() == self.deep_view().effects(),
    {
        let ghost view = self.deep_view();
        let mut effects: Vec<Effect> = Vec::new();
        if self.poll_failed {
            effects.push(Effect::ReportPollFailure);
        }
        let ghost head = effects.deep_view();
        let lines = self.lines;
        for line in it: lines
            invariant
                view.lines == lines.deep_view(),
                effects.deep_view() == head + view.writes().take(it.index() as int),
        {
            let ghost had = effects.deep_view();
            assert(line.deep_view() =~= line@);
            effects.push(Effect::Write(line));
            assert(effects.deep_view() =~= had.push(EffectView::Write(line@)));
        }
        let ghost written = effects.deep_view();
        if self.commit {
            effects.push(Effect::Commit);
        }
        let ghost committed = effects.deep_view();
        assert(committed =~= written + if view.commit {
            seq![EffectView::Commit]
        } else {
            Seq::empty()
        });
        if self.done {
            effects.push(Effect::Stop);
        }
        assert(effects.deep_view() =~= committed + if view.done {
            seq![EffectView::Stop]
        } else {
            Seq::empty()
        });
        effects
    }
}

/// How many of `available` messages a limit lets through: all of them
/// under a negative limit, else at most `limit`.
pub open spec fn emit_count(limit: int, available: nat) -> nat {
    if limit < 0 || available <= limit {
        available
    } else {
        limit as nat
    }
}

/// The messages of a batch that a limit lets through: the first
/// `emit_count` of them, across its partition sets.
pub open spec fn shown(sets: Seq<MessageSetView>, limit: int) -> Seq<Record> {
    batch_records(sets).take(emit_count(limit, batch_records(sets).len()) as int)
}

/// The state of a fetch loop between two polls.
pub struct FetchState {
    /// How many more messages may be emitted; `None` where there is no cap.
    pub remaining: Option<nat>,
    /// Whether the consumed offsets are committed after each batch.
    pub commit: bool,
    /// The verbosity that lines are formatted with.
    pub verbose: i32,
}

impl FetchState {
    /// The state before the first poll.
    pub open spec fn start(position: ReadPosition, verbose: i32) -> FetchState {
        FetchState { remaining: position.cap(), commit: position.commits_batches(), verbose }
    }

    /// The termination rule: there is a cap and it has been reached.
    pub open spec fn finished(self) -> bool {
        self.remaining == Some(0nat)
    }

    /// The remaining cap as a limit: -1 where there is none.
    pub open spec fn limit(self) -> int {
        match self.remaining {
            Some(n) => n as int,
            None => -1,
        }
    }

    /// The messages that are emitted for a poll outcome.
    pub open spec fn emitted(self, outcome: PollOutcomeView) -> Seq<Record> {
        outcome.records().take(emit_count(self.limit(), outcome.records().len()) as int)
    }

    /// The state after a poll outcome has been dealt with.
    pub open spec fn after(self, outcome: PollOutcomeView) -> FetchState {
        FetchState {
            remaining: match self.remaining {
                Some(n) => Some((n - self.emitted(outcome).len()) as nat),
                None => None,
            },
            commit: self.commit,
            verbose: self.verbose,
        }
    }

    /// What the caller is told to do for a poll outcome.
    pub open spec fn step(self, outcome: PollOutcomeView) -> StepView {
        StepView {
            poll_failed: outcome is Failed,
            lines: lines_of(self.emitted(outcome), self.verbose),
            commit: outcome is Batch && self.commit && !self.after(outcome).finished(),
            done: self.after(outcome).finished(),
        }
    }
}

/// The steps of a fetch loop that meets the poll outcomes of `script` one
/// after the other: it polls first, and polls again only while the last step
/// was not done and the script has more to give.
pub open spec fn run(state: FetchState, script: Seq<PollOutcomeView>) -> Seq<StepView>
    decreases script.len(),
{
    if script.len() == 0 {
        Seq::empty()
    } else if state.step(script[0]).done {
        seq![state.step(script[0])]
    } else {
        seq![state.step(script[0])] + run(state.after(script[0]), script.drop_first())
    }
}

/// The state in which that fetch loop ends.
pub open spec fn run_end(state: FetchState, script: Seq<PollOutcomeView>) -> FetchState
    decreases script.len(),
{
    if script.len() == 0 {
        state
    } else if state.step(script[0]).done {
        state.after(script[0])
    } else {
        run_end(state.after(script[0]), script.drop_first())
    }
}

/// The consumer of one topic: its configuration and how much of its limit
/// is left.
#[derive(Debug)]
pub struct KtoolsConsumer {
    broker_config: MessageServerConfig,
    topic_config: TopicConfig,
    verbose: i32,
    left: i32,
}

impl View for KtoolsConsumer {
    type V = FetchState;

    closed spec fn view(&self) -> FetchState {
        FetchState {
            remaining: if self.left < 0 {
                None
            } else {
                Some(self.left as nat)
            },
            commit: self.topic_config.offset_position.commits_batches(),
            verbose: self.verbose,
        }
    }
}

impl KtoolsConsumer {
    /// The broker list that the consumer was made with.
    pub closed spec fn brokers(&self) -> MessageServerConfig {
        self.broker_config
    }

    /// The topic configuration that the consumer was made with.
    pub closed spec fn topic(&self) -> TopicConfig {
        self.topic_config
    }

    /// A consumer at the start of its fetch loop, for a valid configuration.
    pub fn new(
        broker_config: MessageServerConfig,
        topic_config: TopicConfig,
        verbose: i32,
    ) -> (r: Result<KtoolsConsumer, KToolsError>)
        ensures
            r is Ok <==> broker_config.valid() && topic_config.valid(),
            r matches Ok(c) ==> c@ == FetchState::start(topic_config.offset_position, verbose)
                && c.brokers() == broker_config && c.topic() == topic_config,
            r matches Err(e) ==> config_fault(&broker_config, &topic_config) == Some(e@),
    {
        match check_config(&broker_config, &topic_config) {
            Err(e) => Err(e),
            Ok(()) => {
                let left: i32 = topic_config.offset_position.limit();
                Ok(
                    KtoolsConsumer {
                        broker_config,
                        topic_config,
                        verbose,
                        left: if left < 0 {
                            -1
                        } else {
                            left
                        },
                    },
                )
            },
        }
    }

    /// The lines of the messages of `batch` that `limit` lets through, in
    /// arrival order: set after set, and within a set message after message.
    /// The limit counts messages across the whole batch, and cuts in the
    /// middle of a set where it is reached there.
    #[verifier::loop_isolation(false)]
    pub fn display(batch: &Vec<MessageSet>, verbose: i32, limit: i32) -> (lines: Vec<Vec<u8>>)
        ensures
            lines.deep_view() == lines_of(shown(batch.deep_view(), limit as int), verbose),
    {
        let ghost sets = batch.deep_view();
        let mut lines: Vec<Vec<u8>> = Vec::new();
        if limit == 0 {
            return lines;
        }
        let mut s: usize = 0;
        while s < batch.len()
            invariant
                s <= batch.len(),
                lines.deep_view() == lines_of(batch_records(sets.take(s as int)), verbose),
                limit >= 0 ==> lines.len() < limit,
            decreases batch.len() - s,
        {
            let set = &batch[s];
            let ghost before = batch_records(sets.take(s as int));
            let ghost here = sets[s as int].records();
            let mut m: usize = 0;
            while m < set.messages.len()
                invariant
                    m <= set.messages.len(),
                    lines.deep_view() == lines_of(before + here.take(m as int), verbose),
                    limit >= 0 ==> lines.len() < limit,
                decreases set.messages.len() - m,
            {
                let ghost had = lines.deep_view();
                let line = format_message(set.topic.as_str(), set.partition, &set.messages[m], verbose);
                lines.push(line);
                assert(lines@[had.len() as int].deep_view() =~= line@);
                assert(lines.deep_view() =~= had.push(line@));
                m = m + 1;
                if limit >= 0 && lines.len() >= limit as usize {
                    proof {
                        lemma_batch_records_step(sets, s as int);
                        lemma_batch_records_prefix(sets, s + 1);
                    }
                    return lines;
                }
            }
            proof {
                lemma_batch_records_step(sets, s as int);
            }
            s = s + 1;
        }
        assert(sets.take(s as int) =~= sets);
        lines
    }

    /// The termination rule: whether the cap, if there is one, has been
    /// reached, so that no further poll is due.
    pub fn finished(&self) -> (r: bool)
        ensures
            r == self@.finished(),
    {
        self.left == 0
    }

    /// One turn of the fetch loop, after the poll: says what to emit for
    /// the outcome of the poll and what to do next, and counts the emitted
    /// messages against the limit.
    ///
    /// A failed poll is reported and emits nothing. Of a batch, the messages
    /// that the rest of the limit lets through are emitted. The step is done
    /// once the limit has been reached. A commit is asked for only after a
    /// batch, only where the read position commits, and only if the step is
    /// not done.
    pub fn fetch(&mut self, polled: &PollOutcome) -> (step: Step)
        ensures
            step.deep_view() == old(self)@.step(polled.deep_view()),
            final(self)@ == old(self)@.after(polled.deep_view()),
            final(self).brokers() == old(self).brokers(),
            final(self).topic() == old(self).topic(),
    {
        match polled {
            PollOutcome::Failed => {
                let lines: Vec<Vec<u8>> = Vec::new();
                assert(lines.deep_view() =~= lines_of(
                    old(self)@.emitted(polled.deep_view()),
                    self.verbose,
                ));
                Step { poll_failed: true, lines, commit: false, done: self.left == 0 }
            },
            PollOutcome::Batch(batch) => {
                let lines = Self::display(batch, self.verbose, self.left);
                assert(lines.deep_view().len() == lines.len());
                if self.left >= 0 {
                    self.left = self.left - lines.len() as i32;
                }
                let done: bool = self.left == 0;
                let commit: bool = self.topic_config.offset_position.commits() && !done;
                Step { poll_failed: false, lines, commit, done }
            },
        }
    }

    /// The fetch loop over poll outcomes that are already at hand: meets
    /// them in order as `fetch` does, and stops after the step that is done
    /// or when `script` is used up. The result has one step per poll made.
    pub fn consume(&mut self, script: &Vec<PollOutcome>) -> (steps: Vec<Step>)
        ensures
            steps.deep_view() == run(old(self)@, script.deep_view()),
            final(self)@ == run_end(old(self)@, script.deep_view()),
            final(self).brokers() == old(self).brokers(),
            final(self).topic() == old(self).topic(),
    {
        let ghost outcomes = script.deep_view();
        let mut steps: Vec<Step> = Vec::new();
        let mut polls: usize = 0;
        let mut done: bool = false;
        assert(outcomes.skip(0) =~= outcomes);
        while polls < script.len() && !done
            invariant
                polls <= script.len(),
                outcomes == script.deep_view(),
                run(old(self)@, outcomes) == steps.deep_view() + if done {
                    Seq::empty()
                } else {
                    run(self@, outcomes.skip(polls as int))
                },
                run_end(old(self)@, outcomes) == if done {
                    self@
                } else {
                    run_end(self@, outcomes.skip(polls as int))
                },
                self.brokers() == old(self).brokers(),
                self.topic() == old(self).topic(),
            decreases script.len() - polls,
        {
            let step = self.fetch(&script[polls]);
            assert(outcomes.skip(polls as int).drop_first() =~= outcomes.skip(polls + 1));
            done = step.done;
            steps.push(step);
            polls = polls + 1;
        }
        steps
    }

    /// The broker list that the consumer was made with.
    pub fn broker_config(&self) -> (r: &MessageServerConfig)
        ensures
            *r == self.brokers(),
    {
        &self.broker_config
    }

    /// The topic configuration that the consumer was made with.
    pub fn topic_config(&self) -> (r: &TopicConfig)
        ensures
            *r == self.topic(),
    {
        &self.topic_config
    }

    /// The verbosity that lines are formatted with.
    pub fn verbose(&self) -> (r: i32)
        ensures
            r == self@.verbose,
    {
        self.verbose
    }
}

} // verus!
