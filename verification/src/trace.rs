//! What holds of every run of a scenario: the invariant of the runner's
//! states, and the laws of whole sequences of events.

use crate::dataset::{
    lemma_post_total, lemma_posts_of_len, post_total, posts_of, seed_batch, users_of,
};
use crate::error::BenchError;
use crate::oracle::{expected_rows, verdict};
use crate::runner::{start, step_model, ActionView, EventView, RunnerView, Stage};
use crate::scenario::Scenario;
use vstd::prelude::*;

verus! {

/// Whether a stage belongs to seeding: everything before the first timed sample.
pub open spec fn is_seeding(stage: Stage) -> bool {
    stage is Reset || stage is SeedUsers || stage is SeedPosts
}

impl RunnerView {
    /// The invariant of a runner's states.
    ///
    /// No sample is recorded before seeding is over, never more samples than
    /// wanted, and exactly as many as wanted once the scenario is done. While
    /// an insert is pending, the count it must report is the size of the batch
    /// that was handed out. A scenario that failed on a seed mismatch has no
    /// sample.
    pub open spec fn wf(self) -> bool {
        let batch = seed_batch(self.scenario.shape, self.scenario.num_rows as nat);
        &&& self.scenario.wf()
        &&& self.samples.len() <= self.wanted
        &&& match self.stage {
            Stage::Reset => {
                &&& self.users == users_of(batch)
                &&& self.posts == posts_of(batch)
                &&& self.samples.len() == 0
            },
            Stage::SeedUsers { requested } => {
                &&& requested == self.scenario.num_rows
                &&& requested > 0
                &&& self.posts == posts_of(batch)
                &&& self.samples.len() == 0
            },
            Stage::SeedPosts { requested } => {
                &&& requested == post_total(self.scenario.shape, self.scenario.num_rows as nat)
                &&& requested > 0
                &&& self.samples.len() == 0
            },
            Stage::Time => self.samples.len() < self.wanted,
            Stage::Done => self.samples.len() == self.wanted,
            Stage::Failed(error) => error is SeedMismatch ==> self.samples.len() == 0,
        }
    }
}

/// The state after a sequence of events, taken in order.
pub open spec fn run(r: RunnerView, events: Seq<EventView>) -> RunnerView
    decreases events.len(),
{
    if events.len() == 0 {
        r
    } else {
        step_model(run(r, events.drop_last()), events.last()).0
    }
}

/// The action that answers the event at position `i` of a run.
pub open spec fn action_at(r: RunnerView, events: Seq<EventView>, i: int) -> ActionView {
    step_model(run(r, events.take(i)), events[i]).1
}

/// A scenario starts in a state that meets the invariant.
pub proof fn lemma_start_wf(scenario: Scenario, wanted: nat)
    requires
        scenario.wf(),
    ensures
        start(scenario, wanted).wf(),
{
}

/// Every transition keeps the invariant.
pub proof fn lemma_step_wf(r: RunnerView, event: EventView)
    requires
        r.wf(),
    ensures
        step_model(r, event).0.wf(),
{
    let batch = seed_batch(r.scenario.shape, r.scenario.num_rows as nat);
    lemma_posts_of_len(batch);
    lemma_post_total(r.scenario.shape, r.scenario.num_rows as nat);
}

/// Every run from a state that meets the invariant ends in one that meets it.
pub proof fn lemma_run_wf(r: RunnerView, events: Seq<EventView>)
    requires
        r.wf(),
    ensures
        run(r, events).wf(),
    decreases events.len(),
{
    if events.len() > 0 {
        lemma_run_wf(r, events.drop_last());
        lemma_step_wf(run(r, events.drop_last()), events.last());
    }
}

/// No run changes the scenario or the number of samples wanted.
pub proof fn lemma_run_keeps_scenario(r: RunnerView, events: Seq<EventView>)
    ensures
        run(r, events).scenario == r.scenario,
        run(r, events).wanted == r.wanted,
    decreases events.len(),
{
    if events.len() > 0 {
        lemma_run_keeps_scenario(r, events.drop_last());
    }
}

/// A finished or failed scenario is never left again, whatever is reported,
/// and a failed one answers every event with the error it failed on.
pub proof fn lemma_end_is_final(r: RunnerView, event: EventView)
    requires
        r.stage is Done || r.stage is Failed,
    ensures
        step_model(r, event).0 == r,
        r.stage is Done ==> step_model(r, event).1 == ActionView::Finish,
        r.stage matches Stage::Failed(error) ==> step_model(r, event).1 == ActionView::Abort(
            error,
        ),
{
}

/// The query is asked for only on entering the timed stage.
pub proof fn lemma_query_means_timing(r: RunnerView, event: EventView)
    ensures
        step_model(r, event).1 is RunQuery ==> step_model(r, event).0.stage is Time,
        step_model(r, event).1 is RunQuery ==> step_model(r, event).1 == ActionView::RunQuery(
            r.scenario.shape,
        ),
{
}

/// Seeding is never returned to: once the first sample is awaited, or the
/// scenario has ended, no transition leads back to a seeding stage.
pub proof fn lemma_seeding_is_not_reentered(r: RunnerView, event: EventView)
    requires
        !is_seeding(r.stage),
    ensures
        !is_seeding(step_model(r, event).0.stage),
{
}

/// An insert that reports another count than was requested stops the scenario
/// at once: the next state is the failure, the action is to abort, and no
/// sample has been recorded.
pub proof fn lemma_seed_mismatch_stops(r: RunnerView, requested: usize, inserted: usize)
    requires
        r.wf(),
        r.stage == (Stage::SeedUsers { requested }) || r.stage == (Stage::SeedPosts { requested }),
        inserted != requested,
    ensures
        step_model(r, EventView::Inserted(inserted)).0.stage == Stage::Failed(
            BenchError::SeedMismatch { requested, inserted },
        ),
        step_model(r, EventView::Inserted(inserted)).1 == ActionView::Abort(
            BenchError::SeedMismatch { requested, inserted },
        ),
        step_model(r, EventView::Inserted(inserted)).0.samples.len() == 0,
{
}

/// A sample's time is recorded only if the sample passed validation; every
/// other transition leaves the recorded samples as they were.
pub proof fn lemma_samples_are_validated(r: RunnerView, event: EventView)
    ensures
        step_model(r, event).0.samples != r.samples ==> ({
            &&& r.stage is Time
            &&& event matches EventView::Sample { result, elapsed_nanos }
            &&& verdict(
                r.scenario.shape,
                r.scenario.num_rows,
                result.shape(),
                result.len() as usize,
            ) is Ok
            &&& step_model(r, event).0.samples == r.samples.push(elapsed_nanos)
        }),
{
}

/// The state after the first `i + 1` events is one step from the state after the first `i`.
pub proof fn lemma_run_unfold(r: RunnerView, events: Seq<EventView>, i: int)
    requires
        0 <= i < events.len(),
    ensures
        run(r, events.take(i + 1)) == step_model(run(r, events.take(i)), events[i]).0,
{
    assert(events.take(i + 1).drop_last() =~= events.take(i));
}

/// If a run is still seeding after `k` events, it was seeding after every
/// shorter prefix.
pub proof fn lemma_seeding_prefix(r: RunnerView, events: Seq<EventView>, i: int, k: int)
    requires
        0 <= i <= k <= events.len(),
        is_seeding(run(r, events.take(k)).stage),
    ensures
        is_seeding(run(r, events.take(i)).stage),
    decreases k - i,
{
    if i < k {
        lemma_seeding_prefix(r, events, i + 1, k);
        lemma_run_unfold(r, events, i);
        if !is_seeding(run(r, events.take(i)).stage) {
            lemma_seeding_is_not_reentered(run(r, events.take(i)), events[i]);
        }
    }
}

/// Once a run has failed, every longer prefix ends in the same state.
pub proof fn lemma_failure_persists(r: RunnerView, events: Seq<EventView>, k: int, j: int)
    requires
        0 <= k <= j <= events.len(),
        run(r, events.take(k)).stage is Failed,
    ensures
        run(r, events.take(j)) == run(r, events.take(k)),
    decreases j - k,
{
    if k < j {
        lemma_failure_persists(r, events, k, j - 1);
        lemma_run_unfold(r, events, j - 1);
        lemma_end_is_final(run(r, events.take(j - 1)), events[j - 1]);
    }
}

/// A scenario whose insert reports another count than requested never enters
/// the timed loop.
///
/// Take any sequence of events reported to a scenario from its start, and let
/// the event at position `k` be an insert count that differs from the count
/// the runner was waiting for. Then no action of the whole run asks for the
/// query, the run ends failed on that seed mismatch, and no sample is recorded.
pub proof fn lemma_seed_mismatch_is_fatal(
    scenario: Scenario,
    wanted: nat,
    events: Seq<EventView>,
    k: int,
    requested: usize,
    inserted: usize,
)
    requires
        scenario.wf(),
        0 <= k < events.len(),
        run(start(scenario, wanted), events.take(k)).stage == (Stage::SeedUsers { requested })
            || run(start(scenario, wanted), events.take(k)).stage == (Stage::SeedPosts {
            requested,
        }),
        events[k] == EventView::Inserted(inserted),
        inserted != requested,
    ensures
        forall|i: int|
            0 <= i < events.len() ==> !(#[trigger] action_at(
                start(scenario, wanted),
                events,
                i,
            ) is RunQuery),
        run(start(scenario, wanted), events).stage == Stage::Failed(
            BenchError::SeedMismatch { requested, inserted },
        ),
        run(start(scenario, wanted), events).samples.len() == 0,
{
    let r0 = start(scenario, wanted);
    let at_k = run(r0, events.take(k));
    let failed = run(r0, events.take(k + 1));
    lemma_start_wf(scenario, wanted);
    lemma_run_wf(r0, events.take(k));
    lemma_run_unfold(r0, events, k);
    lemma_seed_mismatch_stops(at_k, requested, inserted);
    assert(events.take(events.len() as int) =~= events);
    lemma_failure_persists(r0, events, k + 1, events.len() as int);
    assert forall|i: int| 0 <= i < events.len() implies !(#[trigger] action_at(r0, events, i)
        is RunQuery) by {
        let before = run(r0, events.take(i));
        if i < k {
            lemma_seeding_prefix(r0, events, i + 1, k);
            lemma_run_unfold(r0, events, i);
            lemma_query_means_timing(before, events[i]);
        } else if i > k {
            lemma_failure_persists(r0, events, k + 1, i);
            lemma_end_is_final(before, events[i]);
        }
    }
}

/// Whether an event is what a sound storage reports for the pending action:
/// the reset done, the insert of as many rows as were handed over, the query
/// answered with rows of the scenario's shape in the predicted number.
pub open spec fn answers(r: RunnerView, event: EventView) -> bool {
    match r.stage {
        Stage::Reset => event == EventView::ResetDone,
        Stage::SeedUsers { requested } => event == EventView::Inserted(requested),
        Stage::SeedPosts { requested } => event == EventView::Inserted(requested),
        Stage::Time => event matches EventView::Sample { result, .. } && result.shape()
            == r.scenario.shape && result.len() == expected_rows(
            r.scenario.shape,
            r.scenario.num_rows as nat,
        ),
        _ => true,
    }
}

/// Whether every event of a run is what a sound storage reports.
pub open spec fn faithful(r: RunnerView, events: Seq<EventView>) -> bool {
    forall|i: int| 0 <= i < events.len() ==> answers(#[trigger] run(r, events.take(i)), events[i])
}

/// An upper bound on the events a scenario still needs before it is done.
pub open spec fn remaining(r: RunnerView) -> nat {
    match r.stage {
        Stage::Reset => 3 + r.wanted,
        Stage::SeedUsers { .. } => 2 + r.wanted,
        Stage::SeedPosts { .. } => 1 + r.wanted,
        Stage::Time => (r.wanted - r.samples.len()) as nat,
        _ => 0,
    }
}

/// With a sound storage a scenario never fails, and each event brings it
/// nearer to its end.
pub proof fn lemma_faithful_step(r: RunnerView, event: EventView)
    requires
        r.wf(),
        answers(r, event),
        !(r.stage is Failed),
    ensures
        !(step_model(r, event).0.stage is Failed),
        r.stage is Done || remaining(step_model(r, event).0) < remaining(r),
{
    lemma_step_wf(r, event);
}

/// After the first `j` events of a faithful run the scenario has not failed,
/// and it is done or has used up `j` of the events it needed at most.
proof fn lemma_faithful_prefix(scenario: Scenario, wanted: nat, events: Seq<EventView>, j: int)
    requires
        scenario.wf(),
        faithful(start(scenario, wanted), events),
        0 <= j <= events.len(),
    ensures
        run(start(scenario, wanted), events.take(j)).wf(),
        !(run(start(scenario, wanted), events.take(j)).stage is Failed),
        run(start(scenario, wanted), events.take(j)).stage is Done || remaining(
            run(start(scenario, wanted), events.take(j)),
        ) + j <= 3 + wanted,
    decreases j,
{
    let r0 = start(scenario, wanted);
    lemma_start_wf(scenario, wanted);
    lemma_run_wf(r0, events.take(j));
    if j == 0 {
        assert(events.take(0) =~= Seq::empty());
    } else {
        lemma_faithful_prefix(scenario, wanted, events, j - 1);
        let before = run(r0, events.take(j - 1));
        lemma_run_unfold(r0, events, j - 1);
        lemma_faithful_step(before, events[j - 1]);
        if before.stage is Done {
            lemma_end_is_final(before, events[j - 1]);
        }
    }
}

/// With a sound storage every scenario completes.
///
/// If each event of a run from the start is what a sound storage reports,
/// the run never fails; and once it is three events longer than the number of
/// samples wanted, the scenario is done with exactly that many samples.
pub proof fn lemma_faithful_run_completes(scenario: Scenario, wanted: nat, events: Seq<EventView>)
    requires
        scenario.wf(),
        faithful(start(scenario, wanted), events),
    ensures
        !(run(start(scenario, wanted), events).stage is Failed),
        events.len() >= 3 + wanted ==> run(start(scenario, wanted), events).stage is Done,
        events.len() >= 3 + wanted ==> run(start(scenario, wanted), events).samples.len()
            == wanted,
{
    lemma_faithful_prefix(scenario, wanted, events, events.len() as int);
    lemma_run_keeps_scenario(start(scenario, wanted), events);
    assert(events.take(events.len() as int) =~= events);
}

/// A scenario without rows inserts nothing: the reset is followed at once by
/// the first timed query, and a result without rows passes validation.
pub proof fn lemma_empty_scenario(scenario: Scenario, wanted: nat)
    requires
        scenario.num_rows == 0,
        wanted > 0,
    ensures
        step_model(start(scenario, wanted), EventView::ResetDone).0.stage == Stage::Time,
        step_model(start(scenario, wanted), EventView::ResetDone).1 == ActionView::RunQuery(
            scenario.shape,
        ),
        verdict(scenario.shape, 0, scenario.shape, 0) is Ok,
{
    let batch = seed_batch(scenario.shape, 0);
    assert(batch =~= Seq::empty());
    assert(posts_of(batch) =~= Seq::empty());
}

/// What is handed to storage is the scenario's seed batch, and nothing is
/// handed over before the reset is done.
///
/// The users are handed over only in answer to the completed reset, and they
/// are the users of the seed batch. The posts are handed over only once the
/// insert of the users has reported the full count, and they are the posts of
/// the seed batch. So each run of a scenario inserts the same rows into
/// freshly emptied tables.
pub proof fn lemma_seed_follows_reset(r: RunnerView, event: EventView)
    requires
        r.wf(),
    ensures
        step_model(r, event).1 matches ActionView::InsertUsers(users) ==> r.stage is Reset && event
            == EventView::ResetDone && users == users_of(
            seed_batch(r.scenario.shape, r.scenario.num_rows as nat),
        ),
        step_model(r, event).1 matches ActionView::InsertPosts(posts) ==> r.stage
            == (Stage::SeedUsers { requested: r.scenario.num_rows }) && event
            == EventView::Inserted(r.scenario.num_rows) && posts == posts_of(
            seed_batch(r.scenario.shape, r.scenario.num_rows as nat),
        ),
{
}

} // verus!
