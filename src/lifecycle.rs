//! Laws of a function task over whole runs.
//!
//! A run is the sequence of models a task passes through together with the
//! events that moved it; see [`is_run`].
use vstd::prelude::*;
use crate::container::FIRST_RUN_EXIT_CODE;
use crate::outcome::{FailureReason, Outcome};
use crate::task::{
    consistent, holds_container, initial, next, rank, transition, Signal, Step, TaskState,
};

verus! {

/// `states` is a run of a task driven by `events`: it starts consistent and
/// each event moves the task from one state to the next.
pub open spec fn is_run(states: Seq<TaskState>, events: Seq<Signal>) -> bool {
    &&& states.len() == events.len() + 1
    &&& consistent(states[0])
    &&& forall|i: int| 0 <= i < events.len() ==> #[trigger] transition(states[i], events[i], states[i + 1])
}

/// Every move keeps the model consistent, takes a later step, keeps a decided
/// outcome and creates a container only from [`Step::CreateContainer`].
pub proof fn lemma_transition(s: TaskState, e: Signal, t: TaskState)
    requires
        consistent(s),
        transition(s, e, t),
    ensures
        consistent(t),
        rank(t.step) > rank(s.step),
        s.outcome is Some ==> t.outcome == s.outcome,
        s.function_id is Some ==> t.function_id == s.function_id,
        t.tolerate_first_run_exit == s.tolerate_first_run_exit,
        holds_container(s.step) && s.step != Step::RemoveContainer ==> holds_container(t.step),
        holds_staged(s.step) && s.step != Step::RemoveStaged ==> holds_staged(t.step),
{
}

/// Steps during which a staged copy of the build output may exist.
pub open spec fn holds_staged(s: Step) -> bool {
    s == Step::CopyArtifact || s == Step::ReadArtifact || s == Step::WriteArtifact || s == Step::RemoveStaged
}

proof fn lemma_move(states: Seq<TaskState>, events: Seq<Signal>, i: int)
    requires
        is_run(states, events),
        0 <= i < events.len(),
    ensures
        transition(states[i], events[i], states[i + 1]),
{
}

proof fn lemma_run_prefix(states: Seq<TaskState>, events: Seq<Signal>, j: int)
    requires
        is_run(states, events),
        0 <= j < states.len(),
    ensures
        consistent(states[j]),
        rank(states[j].step) >= rank(states[0].step) + j,
    decreases j,
{
    if j > 0 {
        lemma_run_prefix(states, events, j - 1);
        lemma_move(states, events, j - 1);
        lemma_transition(states[j - 1], events[j - 1], states[j]);
    }
}

/// Along a run the steps strictly advance: no step is taken twice.
pub proof fn lemma_steps_advance(states: Seq<TaskState>, events: Seq<Signal>, i: int, j: int)
    requires
        is_run(states, events),
        0 <= i < j < states.len(),
    ensures
        rank(states[i].step) < rank(states[j].step),
    decreases j - i,
{
    lemma_run_prefix(states, events, j - 1);
    lemma_move(states, events, j - 1);
    lemma_transition(states[j - 1], events[j - 1], states[j]);
    if i < j - 1 {
        lemma_steps_advance(states, events, i, j - 1);
    }
}

/// No effect is performed twice in a run: in particular a function gets at
/// most one deployment row per build, and its container is started, run and
/// removed at most once.
pub proof fn lemma_each_step_once(states: Seq<TaskState>, events: Seq<Signal>, a: int, b: int)
    requires
        is_run(states, events),
        0 <= a < states.len(),
        0 <= b < states.len(),
        states[a].step == states[b].step,
    ensures
        a == b,
{
    if a < b {
        lemma_steps_advance(states, events, a, b);
    } else if b < a {
        lemma_steps_advance(states, events, b, a);
    }
}

/// A task takes at most thirteen states: every run ends.
pub proof fn lemma_run_is_short(states: Seq<TaskState>, events: Seq<Signal>)
    requires
        is_run(states, events),
    ensures
        states.len() <= 13,
{
    lemma_run_prefix(states, events, states.len() - 1);
}

/// Once decided, an outcome stays as it is for the rest of the run.
pub proof fn lemma_outcome_kept(states: Seq<TaskState>, events: Seq<Signal>, i: int, j: int)
    requires
        is_run(states, events),
        0 <= i <= j < states.len(),
        states[i].outcome is Some,
    ensures
        states[j].outcome == states[i].outcome,
    decreases j - i,
{
    if i < j {
        lemma_outcome_kept(states, events, i, j - 1);
        lemma_run_prefix(states, events, j - 1);
        lemma_move(states, events, j - 1);
        lemma_transition(states[j - 1], events[j - 1], states[j]);
    }
}

proof fn lemma_reaches_removal(states: Seq<TaskState>, events: Seq<Signal>, k: int)
    requires
        is_run(states, events),
        0 <= k < states.len(),
        holds_container(states[k].step),
        states.last().step == Step::Finished,
    ensures
        exists|m: int| k <= m < states.len() && states[m].step == Step::RemoveContainer,
    decreases states.len() - k,
{
    if states[k].step != Step::RemoveContainer {
        assert(k < events.len());
        lemma_run_prefix(states, events, k);
        lemma_move(states, events, k);
        lemma_transition(states[k], events[k], states[k + 1]);
        lemma_reaches_removal(states, events, k + 1);
    }
}

/// A finished run removes a container exactly when it created one, and
/// removes it once: whatever the outcome, no container outlives its task.
pub proof fn lemma_container_removed_once(states: Seq<TaskState>, events: Seq<Signal>)
    requires
        is_run(states, events),
        states.last().step == Step::Finished,
    ensures
        (exists|k: int| 0 <= k < states.len() && states[k].step == Step::RemoveContainer) <==> (exists|
            k: int,
        | 0 <= k < states.len() && (#[trigger] states[k]).container is Some),
        forall|a: int, b: int|
            0 <= a < states.len() && 0 <= b < states.len() && states[a].step == Step::RemoveContainer
                && states[b].step == Step::RemoveContainer ==> a == b,
{
    if exists|k: int| 0 <= k < states.len() && (#[trigger] states[k]).container is Some {
        let k = choose|k: int| 0 <= k < states.len() && (#[trigger] states[k]).container is Some;
        lemma_run_prefix(states, events, k);
        lemma_reaches_removal(states, events, k);
    }
    if exists|k: int| 0 <= k < states.len() && states[k].step == Step::RemoveContainer {
        let k = choose|k: int| 0 <= k < states.len() && states[k].step == Step::RemoveContainer;
        lemma_run_prefix(states, events, k);
        assert(states[k].container is Some);
    }
    assert forall|a: int, b: int|
        0 <= a < states.len() && 0 <= b < states.len() && states[a].step == Step::RemoveContainer
            && states[b].step == Step::RemoveContainer implies a == b by {
        lemma_each_step_once(states, events, a, b);
    }
}

proof fn lemma_reaches_unstaging(states: Seq<TaskState>, events: Seq<Signal>, k: int)
    requires
        is_run(states, events),
        0 <= k < states.len(),
        holds_staged(states[k].step),
        states.last().step == Step::Finished,
    ensures
        exists|m: int| k <= m < states.len() && states[m].step == Step::RemoveStaged,
    decreases states.len() - k,
{
    if states[k].step != Step::RemoveStaged {
        lemma_run_prefix(states, events, k);
        lemma_move(states, events, k);
        lemma_transition(states[k], events[k], states[k + 1]);
        lemma_reaches_unstaging(states, events, k + 1);
    }
}

/// A finished run that copied the build output removes the staged copy,
/// once, whatever happened to the artifact after the copy.
pub proof fn lemma_staged_copy_removed(states: Seq<TaskState>, events: Seq<Signal>, k: int)
    requires
        is_run(states, events),
        states.last().step == Step::Finished,
        0 <= k < states.len(),
        states[k].step == Step::CopyArtifact,
    ensures
        exists|m: int| k < m < states.len() && states[m].step == Step::RemoveStaged,
        forall|a: int, b: int|
            0 <= a < states.len() && 0 <= b < states.len() && states[a].step == Step::RemoveStaged
                && states[b].step == Step::RemoveStaged ==> a == b,
{
    lemma_reaches_unstaging(states, events, k);
    assert forall|a: int, b: int|
        0 <= a < states.len() && 0 <= b < states.len() && states[a].step == Step::RemoveStaged
            && states[b].step == Step::RemoveStaged implies a == b by {
        lemma_each_step_once(states, events, a, b);
    }
}

proof fn lemma_function_id_kept(states: Seq<TaskState>, events: Seq<Signal>, i: int, j: int)
    requires
        is_run(states, events),
        0 <= i <= j < states.len(),
        states[i].function_id is Some,
    ensures
        states[j].function_id == states[i].function_id,
    decreases j - i,
{
    if i < j {
        lemma_function_id_kept(states, events, i, j - 1);
        lemma_run_prefix(states, events, j - 1);
        lemma_move(states, events, j - 1);
        lemma_transition(states[j - 1], events[j - 1], states[j]);
    }
}

/// A finished run of a new task writes a deployment row exactly when it
/// found the function's identifier, and then exactly once, with or without
/// a build row to refer to.
pub proof fn lemma_deployment_attempted_once(states: Seq<TaskState>, events: Seq<Signal>)
    requires
        is_run(states, events),
        states[0].function_id is None,
        states.last().step == Step::Finished,
    ensures
        (exists|k: int| 0 <= k < states.len() && states[k].step == Step::RecordDeployment) <==> (exists|
            k: int,
        | 0 <= k < states.len() && (#[trigger] states[k]).function_id is Some),
        forall|a: int, b: int|
            0 <= a < states.len() && 0 <= b < states.len() && states[a].step == Step::RecordDeployment
                && states[b].step == Step::RecordDeployment ==> a == b,
{
    let last = states.len() - 1;
    if exists|k: int| 0 <= k < states.len() && (#[trigger] states[k]).function_id is Some {
        let k = choose|k: int| 0 <= k < states.len() && (#[trigger] states[k]).function_id is Some;
        lemma_function_id_kept(states, events, k, last);
        assert(last > 0);
        lemma_run_prefix(states, events, last - 1);
        lemma_move(states, events, last - 1);
        assert(states[last - 1].step == Step::RecordDeployment);
    }
    if exists|k: int| 0 <= k < states.len() && states[k].step == Step::RecordDeployment {
        let k = choose|k: int| 0 <= k < states.len() && states[k].step == Step::RecordDeployment;
        lemma_run_prefix(states, events, k);
        assert(states[k].function_id is Some);
    }
    assert forall|a: int, b: int|
        0 <= a < states.len() && 0 <= b < states.len() && states[a].step == Step::RecordDeployment
            && states[b].step == Step::RecordDeployment implies a == b by {
        lemma_each_step_once(states, events, a, b);
    }
}

/// When the build exited successfully but its output is absent, the
/// function fails with [`FailureReason::OutputMissing`] for the rest of the
/// run, and so never succeeds.
pub proof fn lemma_missing_output_fails(states: Seq<TaskState>, events: Seq<Signal>, i: int)
    requires
        is_run(states, events),
        0 <= i < events.len(),
        states[i].step == Step::CheckOutput,
        !(events[i] is Done),
    ensures
        states[i].outcome is None,
        forall|j: int|
            i < j < states.len() ==> (#[trigger] states[j]).outcome == Some(
                Outcome::Failed(FailureReason::OutputMissing),
            ),
{
    lemma_run_prefix(states, events, i);
    lemma_move(states, events, i);
    assert forall|j: int| i < j < states.len() implies (#[trigger] states[j]).outcome == Some(
        Outcome::Failed(FailureReason::OutputMissing),
    ) by {
        lemma_outcome_kept(states, events, i + 1, j);
    }
}

/// A timeout during the container run makes the function time out, for the
/// rest of its run.
pub proof fn lemma_timeout_is_final(states: Seq<TaskState>, events: Seq<Signal>, i: int)
    requires
        is_run(states, events),
        0 <= i < events.len(),
        rank(states[i].step) <= rank(Step::RunCommand),
        events[i] is TimedOut,
    ensures
        forall|j: int| i < j < states.len() ==> (#[trigger] states[j]).outcome == Some(Outcome::TimedOut),
{
    lemma_run_prefix(states, events, i);
    lemma_move(states, events, i);
    assert forall|j: int| i < j < states.len() implies (#[trigger] states[j]).outcome == Some(
        Outcome::TimedOut,
    ) by {
        lemma_outcome_kept(states, events, i + 1, j);
    }
}

/// A function whose template names no builder image never reaches a
/// container step, and fails with [`FailureReason::UnsupportedTemplate`].
pub proof fn lemma_unsupported_template_creates_nothing(
    states: Seq<TaskState>,
    events: Seq<Signal>,
    tolerate: bool,
)
    requires
        is_run(states, events),
        states[0] == initial(None, tolerate),
    ensures
        forall|j: int|
            0 <= j < states.len() ==> rank((#[trigger] states[j]).step) > rank(Step::RemoveContainer)
                && states[j].outcome == Some(Outcome::Failed(FailureReason::UnsupportedTemplate)),
{
    assert forall|j: int| 0 <= j < states.len() implies rank((#[trigger] states[j]).step) > rank(
        Step::RemoveContainer,
    ) && states[j].outcome == Some(Outcome::Failed(FailureReason::UnsupportedTemplate)) by {
        lemma_run_prefix(states, events, j);
        lemma_outcome_kept(states, events, 0, j);
    }
}

/// With the first-run exit code tolerated, a build that exits with it goes
/// on as a successful build: the container is removed and the output is
/// checked next.
pub proof fn lemma_first_run_exit_succeeds(s: TaskState, e: Signal)
    requires
        consistent(s),
        s.step == Step::RunCommand,
        s.tolerate_first_run_exit,
    ensures
        ({
            let t = next(s, Signal::CommandExited(Some(FIRST_RUN_EXIT_CODE)));
            &&& t.step == Step::RemoveContainer
            &&& t.outcome is None
            &&& next(t, e).step == Step::CheckOutput
        }),
{
}

} // verus!
