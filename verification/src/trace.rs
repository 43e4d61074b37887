//! What a fetch loop emits, polls and commits over a whole sequence of poll
//! outcomes.

use crate::base::ReadPosition;
use crate::consumer::{emit_count, run, EffectView, FetchState, StepView};
use crate::format::{lemma_line_shape, lines_of, NEWLINE};
use crate::message::{PollOutcomeView, Record};
use vstd::prelude::*;

verus! {

/// The lines of all steps, in the order in which they are written.
pub open spec fn emitted_lines(steps: Seq<StepView>) -> Seq<Seq<u8>>
    decreases steps.len(),
{
    if steps.len() == 0 {
        Seq::empty()
    } else {
        steps[0].lines + emitted_lines(steps.drop_first())
    }
}

/// The messages that a sequence of polls makes available, poll after poll,
/// each batch in arrival order.
pub open spec fn script_records(script: Seq<PollOutcomeView>) -> Seq<Record>
    decreases script.len(),
{
    if script.len() == 0 {
        Seq::empty()
    } else {
        script[0].records() + script_records(script.drop_first())
    }
}

/// The messages that a fetch loop lets through: the available ones up to
/// what is left of the cap.
pub open spec fn run_records(state: FetchState, script: Seq<PollOutcomeView>) -> Seq<Record> {
    script_records(script).take(
        emit_count(state.limit(), script_records(script).len()) as int,
    )
}

/// Within each partition of each topic, a later message has a higher
/// offset.
pub open spec fn offsets_increase(records: Seq<Record>) -> bool {
    forall|i: int, j: int|
        #![trigger records[i], records[j]]
        0 <= i < j < records.len() && records[i].topic == records[j].topic && records[i].partition
            == records[j].partition ==> records[i].offset < records[j].offset
}

proof fn lemma_script_records_take(script: Seq<PollOutcomeView>, n: int)
    requires
        0 <= n < script.len(),
    ensures
        script_records(script.take(n + 1)) == script[0].records() + script_records(
            script.drop_first().take(n),
        ),
{
    assert(script.take(n + 1).drop_first() =~= script.drop_first().take(n));
}

/// A fetch loop emits the lines of the available messages, in arrival
/// order, up to its cap and no further; each line is the line of its
/// message under the loop's verbosity.
pub proof fn lemma_run_emits(state: FetchState, script: Seq<PollOutcomeView>)
    ensures
        emitted_lines(run(state, script)) == lines_of(run_records(state, script), state.verbose),
        emitted_lines(run(state, script)).len() == emit_count(
            state.limit(),
            script_records(script).len(),
        ),
        forall|i: int|
            0 <= i < run_records(state, script).len() ==> (#[trigger] emitted_lines(
                run(state, script),
            )[i]) == run_records(state, script)[i].line(state.verbose),
    decreases script.len(),
{
    let steps = run(state, script);
    if script.len() > 0 {
        if state.step(script[0]).done {
            // nothing follows the first step
            assert(emitted_lines(steps.drop_first()) =~= Seq::<Seq<u8>>::empty());
        } else {
            // the first step took its whole batch; the rest is the run from there
            let next = state.after(script[0]);
            lemma_run_emits(next, script.drop_first());
            assert(steps.drop_first() =~= run(next, script.drop_first()));
        }
    }
}

/// Every line that a fetch loop emits has the shape that the loop's
/// verbosity asks for: with a verbosity other than zero it starts with the
/// prefix of its message, `<topic>:<partition>@<offset>:`, and with
/// verbosity zero it is the payload of its message and a newline.
pub proof fn lemma_emitted_lines_shape(state: FetchState, script: Seq<PollOutcomeView>)
    ensures
        emitted_lines(run(state, script)).len() == run_records(state, script).len(),
        state.verbose != 0 ==> forall|i: int|
            0 <= i < run_records(state, script).len() ==> run_records(
                state,
                script,
            )[i].prefix().is_prefix_of(#[trigger] emitted_lines(run(state, script))[i]),
        state.verbose == 0 ==> forall|i: int|
            0 <= i < run_records(state, script).len() ==> (#[trigger] emitted_lines(
                run(state, script),
            )[i]) == run_records(state, script)[i].value.push(NEWLINE),
{
    lemma_run_emits(state, script);
    assert forall|i: int| 0 <= i < run_records(state, script).len() implies {
        &&& state.verbose != 0 ==> run_records(state, script)[i].prefix().is_prefix_of(
            #[trigger] emitted_lines(run(state, script))[i],
        )
        &&& state.verbose == 0 ==> emitted_lines(run(state, script))[i] == run_records(
            state,
            script,
        )[i].value.push(NEWLINE)
    } by {
        lemma_line_shape(run_records(state, script)[i], state.verbose);
    }
}

/// A fetch loop with a cap of `cap` is done exactly at the poll that
/// brings the number of available messages up to the cap, and polls no more
/// after it; until then it takes every poll outcome there is.
pub proof fn lemma_run_polls(state: FetchState, script: Seq<PollOutcomeView>, cap: nat)
    requires
        state.remaining == Some(cap),
    ensures
        run(state, script).len() <= script.len(),
        forall|j: int|
            0 <= j < run(state, script).len() ==> ((#[trigger] run(state, script)[j]).done <==> cap
                <= script_records(script.take(j + 1)).len()),
        forall|j: int|
            0 <= j < run(state, script).len() - 1 ==> !(#[trigger] run(state, script)[j]).done,
        run(state, script).len() < script.len() ==> run(state, script).len() > 0 && run(
            state,
            script,
        ).last().done,
    decreases script.len(),
{
    let steps = run(state, script);
    if script.len() > 0 {
        let here = script[0].records();
        assert(script_records(script.take(1)) =~= here) by {
            lemma_script_records_take(script, 0);
        }
        if !state.step(script[0]).done {
            // the first batch fell short of the cap; what is left of the cap
            // is the cap of the run from there
            let left = (cap - here.len()) as nat;
            lemma_run_polls(state.after(script[0]), script.drop_first(), left);
            assert forall|j: int| 0 <= j < steps.len() implies ((#[trigger] steps[j]).done <==> cap
                <= script_records(script.take(j + 1)).len()) by {
                if j > 0 {
                    lemma_script_records_take(script, j);
                }
            }
        }
    }
}

/// With a cap and at least so many messages available, exactly the first
/// `cap` messages are emitted, one line each, and the loop stops with the
/// poll that reaches the cap: no poll is made after it, and every poll
/// before it was made short of the cap.
pub proof fn lemma_capped_run(position: ReadPosition, verbose: i32, script: Seq<PollOutcomeView>)
    requires
        position.raw_limit() >= 0,
        script_records(script).len() >= position.raw_limit(),
    ensures
        ({
            let steps = run(FetchState::start(position, verbose), script);
            let cap = position.raw_limit() as int;
            &&& emitted_lines(steps) == lines_of(script_records(script).take(cap), verbose)
            &&& emitted_lines(steps).len() == cap
            &&& steps.len() <= script.len()
            &&& script.len() > 0 ==> steps.len() > 0 && steps.last().done && cap <= script_records(
                script.take(steps.len() as int),
            ).len()
            &&& forall|j: int|
                0 <= j < steps.len() - 1 ==> !(#[trigger] steps[j]).done && script_records(
                    script.take(j + 1),
                ).len() < cap
        }),
{
    let state = FetchState::start(position, verbose);
    let steps = run(state, script);
    let cap = position.raw_limit() as nat;
    lemma_run_emits(state, script);
    lemma_run_polls(state, script, cap);
    if script.len() > 0 && steps.len() == script.len() {
        assert(script.take(steps.len() as int) =~= script);
    }
}

/// Without a cap every poll outcome is taken and every available message
/// is emitted exactly once, in arrival order; offsets that increase within
/// each partition as the messages arrive increase as they are emitted.
pub proof fn lemma_uncapped_run(position: ReadPosition, verbose: i32, script: Seq<PollOutcomeView>)
    requires
        position.raw_limit() < 0,
    ensures
        ({
            let steps = run(FetchState::start(position, verbose), script);
            &&& steps.len() == script.len()
            &&& forall|j: int| 0 <= j < steps.len() ==> !(#[trigger] steps[j]).done
            &&& emitted_lines(steps) == lines_of(script_records(script), verbose)
            &&& run_records(FetchState::start(position, verbose), script) == script_records(script)
            &&& offsets_increase(script_records(script)) ==> offsets_increase(
                run_records(FetchState::start(position, verbose), script),
            )
        }),
{
    let state = FetchState::start(position, verbose);
    lemma_run_emits(state, script);
    lemma_uncapped_polls(state, script);
}

proof fn lemma_uncapped_polls(state: FetchState, script: Seq<PollOutcomeView>)
    requires
        state.remaining is None,
    ensures
        run(state, script).len() == script.len(),
        forall|j: int| 0 <= j < script.len() ==> !(#[trigger] run(state, script)[j]).done,
    decreases script.len(),
{
    if script.len() > 0 {
        lemma_uncapped_polls(state.after(script[0]), script.drop_first());
    }
}

/// The emitted messages open the available ones, so they keep the order of
/// their offsets.
pub proof fn lemma_run_keeps_offset_order(state: FetchState, script: Seq<PollOutcomeView>)
    requires
        offsets_increase(script_records(script)),
    ensures
        offsets_increase(run_records(state, script)),
{
}

/// A limit means the same whatever the read position: with the same limit
/// `Head`, `Tail` and `Follow` without commit run alike, and `All` runs as
/// they do under any negative limit.
pub proof fn lemma_limit_means_the_same(limit: i32, verbose: i32, script: Seq<PollOutcomeView>)
    ensures
        run(FetchState::start(ReadPosition::Head { limit }, verbose), script) == run(
            FetchState::start(ReadPosition::Tail { limit }, verbose),
            script,
        ),
        run(FetchState::start(ReadPosition::Tail { limit }, verbose), script) == run(
            FetchState::start(ReadPosition::Follow { limit, commit: false }, verbose),
            script,
        ),
        limit < 0 ==> run(FetchState::start(ReadPosition::All, verbose), script) == run(
            FetchState::start(ReadPosition::Head { limit }, verbose),
            script,
        ),
{
}

/// A cap of zero emits nothing and ends the loop with its first poll.
pub proof fn lemma_zero_cap_run(position: ReadPosition, verbose: i32, script: Seq<PollOutcomeView>)
    requires
        position.raw_limit() == 0,
    ensures
        ({
            let steps = run(FetchState::start(position, verbose), script);
            &&& emitted_lines(steps).len() == 0
            &&& steps.len() <= 1
            &&& script.len() > 0 ==> steps.len() == 1 && steps[0].done && steps[0].lines.len() == 0
                && !steps[0].commit
        }),
{
    let state = FetchState::start(position, verbose);
    lemma_run_emits(state, script);
}

/// Among the things to do for one poll outcome the commit comes after the
/// lines: where there is a commit, the read position commits, the poll
/// brought a batch, every message of the batch has been written before the
/// commit, in arrival order, and nothing but the commit follows.
pub proof fn lemma_commit_comes_after_the_batch(state: FetchState, outcome: PollOutcomeView)
    ensures
        forall|i: int|
            0 <= i < state.step(outcome).effects().len() && (#[trigger] state.step(
                outcome,
            ).effects()[i]) is Commit ==> {
                &&& state.commit
                &&& outcome is Batch
                &&& i == outcome.records().len()
                &&& i == state.step(outcome).effects().len() - 1
                &&& forall|k: int|
                    0 <= k < i ==> (#[trigger] state.step(outcome).effects()[k])
                        == EffectView::Write(outcome.records()[k].line(state.verbose))
            },
{
}

/// A commit is asked for only by a read position that commits, only after
/// a batch, and only in a step that has emitted every message of that batch
/// and is not done: the lines of a step come before its commit, so no
/// commit precedes a message of its batch.
pub proof fn lemma_commit_follows_batch(state: FetchState, script: Seq<PollOutcomeView>)
    ensures
        forall|j: int|
            0 <= j < run(state, script).len() && (#[trigger] run(state, script)[j]).commit ==> {
                &&& state.commit
                &&& j < script.len()
                &&& script[j] is Batch
                &&& !run(state, script)[j].poll_failed
                &&& !run(state, script)[j].done
                &&& run(state, script)[j].lines == lines_of(script[j].records(), state.verbose)
            },
    decreases script.len(),
{
    let steps = run(state, script);
    if script.len() > 0 && !state.step(script[0]).done {
        // a step after the first is a step of the run from there, which
        // meets the rest of the script
        let tail = run(state.after(script[0]), script.drop_first());
        lemma_commit_follows_batch(state.after(script[0]), script.drop_first());
        assert forall|j: int| 0 < j < steps.len() && (#[trigger] steps[j]).commit implies {
            &&& state.commit
            &&& j < script.len()
            &&& script[j] is Batch
            &&& !steps[j].poll_failed
            &&& !steps[j].done
            &&& steps[j].lines == lines_of(script[j].records(), state.verbose)
        } by {
            assert(steps[j] == tail[j - 1]);
            assert(script.drop_first()[j - 1] == script[j]);
        }
    }
}

/// A read position that does not commit never asks for a commit.
pub proof fn lemma_no_commit_unless_asked(state: FetchState, script: Seq<PollOutcomeView>)
    requires
        !state.commit,
    ensures
        forall|j: int| 0 <= j < run(state, script).len() ==> !(#[trigger] run(state, script)[j]).commit,
{
    lemma_commit_follows_batch(state, script);
}

} // verus!
