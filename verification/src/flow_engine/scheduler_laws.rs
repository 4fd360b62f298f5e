//! What holds of every scheduling, whatever the store reports.

use vstd::prelude::*;

use crate::flow_engine::pacing::{delay_with, jitter_allowed, wait_allowed};
use crate::flow_engine::scheduler::{
    jitter_may_be, scheduler_start, scheduler_step, step_at, step_error_text,
    SchedulerActionView, SchedulerEventView, SchedulerOutcome, SchedulerPhase, SchedulingView,
};
use crate::models::db::{ExecutionView, StepView};

verus! {

/// The actions that a scheduling in state `s` asks for, one after each of
/// `events`. `jitters[i]` is the jitter drawn when `events[i]` arrives.
pub open spec fn scheduler_run(
    s: SchedulingView,
    events: Seq<SchedulerEventView>,
    jitters: Seq<int>,
) -> Seq<SchedulerActionView>
    decreases events.len(),
{
    if events.len() == 0 {
        Seq::empty()
    } else {
        let (next, action) = scheduler_step(s, events[0], jitters[0]);
        seq![action] + scheduler_run(next, events.drop_first(), jitters.drop_first())
    }
}

/// Whether `action` does anything for a step: waits for it, notes it, has it
/// processed, or notes its error.
pub open spec fn fires_step(action: SchedulerActionView) -> bool {
    action is Sleep || action is SetCurrentStep || action is RunStep || action is RecordError
}

/// What `step_at` finds is a step of the wanted order with none of that
/// order before it; where it finds nothing, no step has the order.
pub proof fn lemma_step_at(steps: Seq<StepView>, order: int, from: int)
    requires
        0 <= from,
    ensures
        match step_at(steps, order, from) {
            Some(i) => from <= i < steps.len() && steps[i].order == order && forall|j: int|
                from <= j < i ==> (#[trigger] steps[j]).order != order,
            None => forall|j: int| from <= j < steps.len() ==> (#[trigger] steps[j]).order != order,
        },
    decreases steps.len() - from,
{
    if from < steps.len() && steps[from].order != order {
        lemma_step_at(steps, order, from + 1);
    }
}

/// The wait before a step is its delay plus a jitter within the step's
/// percentage of the delay, and zero where that sum is negative.
pub proof fn lemma_wait_is_delay_with_jitter(
    s: SchedulingView,
    steps: Seq<StepView>,
    jitter: int,
)
    requires
        s.phase == SchedulerPhase::LoadingSteps,
        jitter_may_be(s, SchedulerEventView::Steps(steps), jitter),
    ensures
        match step_at(steps, s.order, 0) {
            Some(i) => scheduler_step(s, SchedulerEventView::Steps(steps), jitter).1
                == (SchedulerActionView::Sleep { millis: delay_with(steps[i].delay_ms, jitter) })
                && wait_allowed(
                steps[i].delay_ms,
                steps[i].jitter_pct,
                delay_with(steps[i].delay_ms, jitter),
            ) && steps[i].order == s.order,
            None => !(scheduler_step(s, SchedulerEventView::Steps(steps), jitter).1 is Sleep),
        },
{
    lemma_step_at(steps, s.order, 0);
    if let Some(i) = step_at(steps, s.order, 0) {
        assert(jitter_allowed(steps[i].delay_ms, steps[i].jitter_pct, jitter));
    }
}

/// Once a scheduling has ended, nothing more is done for any step.
pub proof fn lemma_finished_stays_finished(
    s: SchedulingView,
    events: Seq<SchedulerEventView>,
    jitters: Seq<int>,
)
    requires
        s.phase == SchedulerPhase::Finished || s.phase == SchedulerPhase::Completing,
    ensures
        forall|k: int|
            0 <= k < scheduler_run(s, events, jitters).len() ==> (#[trigger] scheduler_run(
                s,
                events,
                jitters,
            )[k]) is Finish,
    decreases events.len(),
{
    if events.len() > 0 {
        let (next, action) = scheduler_step(s, events[0], jitters[0]);
        let rest = scheduler_run(next, events.drop_first(), jitters.drop_first());
        lemma_finished_stays_finished(next, events.drop_first(), jitters.drop_first());
        assert forall|k: int| 0 <= k < (seq![action] + rest).len() implies (#[trigger] (seq![
            action,
        ] + rest)[k]) is Finish by {
            if k > 0 {
                assert((seq![action] + rest)[k] == rest[k - 1]);
            }
        }
    }
}

/// An execution whose flow has no step of the wanted order is completed, and
/// no step fires for it afterwards, whatever is reported.
pub proof fn lemma_missing_step_completes(
    s: SchedulingView,
    steps: Seq<StepView>,
    events: Seq<SchedulerEventView>,
    jitters: Seq<int>,
)
    requires
        s.phase == SchedulerPhase::LoadingSteps,
        forall|j: int| 0 <= j < steps.len() ==> (#[trigger] steps[j]).order != s.order,
        events.len() > 0,
        events[0] == SchedulerEventView::Steps(steps),
    ensures
        scheduler_run(s, events, jitters)[0] == (SchedulerActionView::MarkCompleted {
            execution_id: s.execution_id,
        }),
        forall|k: int|
            0 <= k < scheduler_run(s, events, jitters).len() ==> !fires_step(
                #[trigger] scheduler_run(s, events, jitters)[k],
            ),
        events.len() > 1 ==> scheduler_run(s, events, jitters)[1] == (SchedulerActionView::Finish {
            outcome: SchedulerOutcome::Completed,
        }),
{
    lemma_step_at(steps, s.order, 0);
    let (next, action) = scheduler_step(s, events[0], jitters[0]);
    let rest = scheduler_run(next, events.drop_first(), jitters.drop_first());
    lemma_finished_stays_finished(next, events.drop_first(), jitters.drop_first());
    assert forall|k: int| 0 <= k < (seq![action] + rest).len() implies !fires_step(
        #[trigger] (seq![action] + rest)[k],
    ) by {
        if k > 0 {
            assert((seq![action] + rest)[k] == rest[k - 1]);
        }
    }
    if events.len() > 1 {
        let later = events.drop_first();
        assert((seq![action] + rest)[1] == rest[0]);
        assert(later.len() > 0);
    }
}

/// An execution that is missing, or that is not running any more, is left
/// alone: the scheduling ends and no step fires, whatever is reported.
pub proof fn lemma_terminal_execution_is_left_alone(
    s: SchedulingView,
    execution: Option<ExecutionView>,
    events: Seq<SchedulerEventView>,
    jitters: Seq<int>,
)
    requires
        s.phase == SchedulerPhase::LoadingExecution,
        execution matches Some(found) ==> !found.is_running(),
        events.len() > 0,
        events[0] == SchedulerEventView::Execution(execution),
    ensures
        forall|k: int|
            0 <= k < scheduler_run(s, events, jitters).len() ==> (#[trigger] scheduler_run(
                s,
                events,
                jitters,
            )[k]) is Finish,
{
    let (next, action) = scheduler_step(s, events[0], jitters[0]);
    let rest = scheduler_run(next, events.drop_first(), jitters.drop_first());
    lemma_finished_stays_finished(next, events.drop_first(), jitters.drop_first());
    assert forall|k: int| 0 <= k < (seq![action] + rest).len() implies (#[trigger] (seq![action]
        + rest)[k]) is Finish by {
        if k > 0 {
            assert((seq![action] + rest)[k] == rest[k - 1]);
        }
    }
}

/// A running execution is taken up at the step it was about to dispatch: the
/// scheduling that starts at its current step waits for the step of that
/// order, notes that order on the execution, and has that step processed.
pub proof fn lemma_resumes_at_current_step(
    execution: ExecutionView,
    steps: Seq<StepView>,
    at: int,
    jitter: int,
)
    requires
        execution.is_running(),
        0 <= at < steps.len(),
        steps[at].order == execution.current_step,
        forall|j: int| 0 <= j < at ==> (#[trigger] steps[j]).order != execution.current_step,
    ensures
        ({
            let (start, first) = scheduler_start(execution.id, execution.current_step);
            let events = seq![
                SchedulerEventView::Execution(Some(execution)),
                SchedulerEventView::Steps(steps),
                SchedulerEventView::Done,
                SchedulerEventView::Done,
            ];
            let actions = scheduler_run(start, events, seq![0, jitter, 0, 0]);
            &&& first == SchedulerActionView::LoadExecution { execution_id: execution.id }
            &&& actions.len() == 4
            &&& actions[0] == SchedulerActionView::LoadSteps { flow_id: execution.flow_id }
            &&& actions[1] == SchedulerActionView::Sleep {
                millis: delay_with(steps[at].delay_ms, jitter),
            }
            &&& actions[2] == SchedulerActionView::SetCurrentStep {
                execution_id: execution.id,
                step_order: execution.current_step,
            }
            &&& actions[3] == SchedulerActionView::RunStep {
                execution_id: execution.id,
                step_id: steps[at].id,
                step_order: execution.current_step,
            }
        }),
{
    lemma_step_at(steps, execution.current_step, 0);
    let (start, first) = scheduler_start(execution.id, execution.current_step);
    let e0 = SchedulerEventView::Execution(Some(execution));
    let e1 = SchedulerEventView::Steps(steps);
    let e2 = SchedulerEventView::Done;
    let events = seq![e0, e1, e2, e2];
    let jitters = seq![0, jitter, 0, 0];
    let (s1, a0) = scheduler_step(start, e0, 0);
    let (s2, a1) = scheduler_step(s1, e1, jitter);
    let (s3, a2) = scheduler_step(s2, e2, 0);
    let (s4, a3) = scheduler_step(s3, e2, 0);
    let ev1 = events.drop_first();
    let ev2 = ev1.drop_first();
    let ev3 = ev2.drop_first();
    let ev4 = ev3.drop_first();
    let j1 = jitters.drop_first();
    let j2 = j1.drop_first();
    let j3 = j2.drop_first();
    let j4 = j3.drop_first();
    assert(ev4.len() == 0);
    assert(scheduler_run(s4, ev4, j4) =~= Seq::empty());
    assert(scheduler_run(s3, ev3, j3) =~= seq![a3]);
    assert(scheduler_run(s2, ev2, j2) =~= seq![a2, a3]);
    assert(scheduler_run(s1, ev1, j1) =~= seq![a1, a2, a3]);
    assert(scheduler_run(start, events, jitters) =~= seq![a0, a1, a2, a3]);
}

/// The orders of the steps that `actions` have processed, in sequence.
pub open spec fn processed_orders(actions: Seq<SchedulerActionView>) -> Seq<int>
    decreases actions.len(),
{
    if actions.len() == 0 {
        Seq::empty()
    } else {
        match actions[0] {
            SchedulerActionView::RunStep { step_order, .. } => seq![step_order]
                + processed_orders(actions.drop_first()),
            _ => processed_orders(actions.drop_first()),
        }
    }
}

/// The least order that a scheduling in state `s` can still have processed.
pub open spec fn least_order_ahead(s: SchedulingView) -> int {
    match (s.phase, s.step) {
        (SchedulerPhase::Sleeping, Some(step)) => step.order,
        (SchedulerPhase::SavingProgress, Some(step)) => step.order,
        (SchedulerPhase::Processing, Some(step)) => step.order + 1,
        (SchedulerPhase::RecordingError, Some(step)) => step.order + 1,
        (SchedulerPhase::Advancing, Some(step)) => step.order + 1,
        _ => s.order,
    }
}

proof fn lemma_processed_orders_cons(action: SchedulerActionView, rest: Seq<SchedulerActionView>)
    ensures
        processed_orders(seq![action] + rest) == match action {
            SchedulerActionView::RunStep { step_order, .. } => seq![step_order] + processed_orders(
                rest,
            ),
            _ => processed_orders(rest),
        },
{
    assert((seq![action] + rest).drop_first() =~= rest);
}

/// The steps of an execution are processed in strictly ascending order, and
/// none below the order the scheduling stands at, whatever the store reports
/// and whatever the flow's steps are from hop to hop.
pub proof fn lemma_steps_run_in_ascending_order(
    s: SchedulingView,
    events: Seq<SchedulerEventView>,
    jitters: Seq<int>,
)
    ensures
        forall|k: int|
            0 <= k < processed_orders(scheduler_run(s, events, jitters)).len()
                ==> least_order_ahead(s) <= #[trigger] processed_orders(
                scheduler_run(s, events, jitters),
            )[k],
        forall|i: int, k: int|
            0 <= i < k < processed_orders(scheduler_run(s, events, jitters)).len()
                ==> #[trigger] processed_orders(scheduler_run(s, events, jitters))[i]
                < #[trigger] processed_orders(scheduler_run(s, events, jitters))[k],
    decreases events.len(),
{
    if events.len() > 0 {
        let (next, action) = scheduler_step(s, events[0], jitters[0]);
        let rest = scheduler_run(next, events.drop_first(), jitters.drop_first());
        lemma_steps_run_in_ascending_order(next, events.drop_first(), jitters.drop_first());
        lemma_processed_orders_cons(action, rest);
        if let SchedulerEventView::Steps(steps) = events[0] {
            lemma_step_at(steps, s.order, 0);
        }
        let later = processed_orders(rest);
        let all = processed_orders(scheduler_run(s, events, jitters));
        assert(least_order_ahead(s) <= least_order_ahead(next) || next.phase
            == SchedulerPhase::Finished || next.phase == SchedulerPhase::Completing);
        if next.phase == SchedulerPhase::Finished || next.phase == SchedulerPhase::Completing {
            lemma_finished_stays_finished(next, events.drop_first(), jitters.drop_first());
            lemma_no_step_processed(rest);
        }
        match action {
            SchedulerActionView::RunStep { step_order, .. } => {
                assert(all =~= seq![step_order] + later);
                assert(step_order < least_order_ahead(next));
                assert forall|k: int| 0 <= k < all.len() implies least_order_ahead(s) <= all[k] by {
                    if k > 0 {
                        assert(all[k] == later[k - 1]);
                    }
                }
                assert forall|i: int, k: int| 0 <= i < k < all.len() implies all[i] < all[k] by {
                    assert(all[k] == later[k - 1]);
                    if i > 0 {
                        assert(all[i] == later[i - 1]);
                    }
                }
            },
            _ => {
                assert(all =~= later);
            },
        }
    }
}

proof fn lemma_no_step_processed(actions: Seq<SchedulerActionView>)
    requires
        forall|k: int| 0 <= k < actions.len() ==> (#[trigger] actions[k]) is Finish,
    ensures
        processed_orders(actions).len() == 0,
    decreases actions.len(),
{
    if actions.len() > 0 {
        assert(actions[0] is Finish);
        assert forall|k: int| 0 <= k < actions.drop_first().len() implies (
        #[trigger] actions.drop_first()[k]) is Finish by {
            assert(actions.drop_first()[k] == actions[k + 1]);
        }
        lemma_no_step_processed(actions.drop_first());
    }
}

/// Once a step has been processed, the order after it is noted on the
/// execution before the scheduler turns to that order: straight away where
/// the step went well, after the note of its error where it failed. Whatever
/// the store answers to either note, the next hop is for that order.
pub proof fn lemma_current_step_is_advanced(
    s: SchedulingView,
    step: StepView,
    processed: SchedulerEventView,
    second: SchedulerEventView,
    third: SchedulerEventView,
    jitter: int,
)
    requires
        s.phase == SchedulerPhase::Processing,
        s.step == Some(step),
        step.order < i32::MAX,
    ensures
        ({
            let advance = SchedulerActionView::SetCurrentStep {
                execution_id: s.execution_id,
                step_order: step.order + 1,
            };
            let load = SchedulerActionView::LoadExecution { execution_id: s.execution_id };
            let (s1, a1) = scheduler_step(s, processed, jitter);
            let (s2, a2) = scheduler_step(s1, second, jitter);
            let (s3, a3) = scheduler_step(s2, third, jitter);
            match processed {
                SchedulerEventView::Processed { error: Some(message) } => {
                    &&& a1 == SchedulerActionView::RecordError {
                        execution_id: s.execution_id,
                        error: step_error_text(step.order, message),
                    }
                    &&& a2 == advance
                    &&& a3 == load
                    &&& s3.phase == SchedulerPhase::LoadingExecution
                    &&& s3.order == step.order + 1
                },
                _ => {
                    &&& a1 == advance
                    &&& a2 == load
                    &&& s2.phase == SchedulerPhase::LoadingExecution
                    &&& s2.order == step.order + 1
                },
            }
        }),
{
}

/// Whether every order among the steps that `e` brings is one that an
/// execution's current step can hold.
pub open spec fn event_fits(e: SchedulerEventView) -> bool {
    match e {
        SchedulerEventView::Steps(steps) => forall|i: int|
            0 <= i < steps.len() ==> (#[trigger] steps[i]).order <= i32::MAX,
        _ => true,
    }
}

/// The same of every one of `events`.
pub open spec fn orders_fit(events: Seq<SchedulerEventView>) -> bool {
    forall|k: int| 0 <= k < events.len() ==> event_fits(#[trigger] events[k])
}

/// Whether, along a run, every wait is for the step whose order was noted
/// last, if any was noted. `noted` is the order noted last before the run.
pub open spec fn waits_follow_notes(
    s: SchedulingView,
    events: Seq<SchedulerEventView>,
    jitters: Seq<int>,
    noted: Option<int>,
) -> bool
    decreases events.len(),
{
    if events.len() == 0 {
        true
    } else {
        let (next, action) = scheduler_step(s, events[0], jitters[0]);
        let noted_next = match action {
            SchedulerActionView::SetCurrentStep { step_order, .. } => Some(step_order),
            _ => noted,
        };
        &&& action is Sleep ==> noted is None || (next.step matches Some(step) && noted == Some(
            step.order,
        ))
        &&& waits_follow_notes(next, events.drop_first(), jitters.drop_first(), noted_next)
    }
}

/// What links a state to the order noted last, along any run.
spec fn note_is_current(s: SchedulingView, noted: Option<int>) -> bool {
    match s.phase {
        SchedulerPhase::LoadingExecution | SchedulerPhase::LoadingSteps => noted is None || noted
            == Some(s.order) || s.order > i32::MAX,
        SchedulerPhase::Advancing => s.step matches Some(step) ==> noted == Some(step.order + 1)
            || step.order + 1 > i32::MAX,
        _ => true,
    }
}

proof fn lemma_waits_follow_notes(
    s: SchedulingView,
    events: Seq<SchedulerEventView>,
    jitters: Seq<int>,
    noted: Option<int>,
)
    requires
        note_is_current(s, noted),
        orders_fit(events),
    ensures
        waits_follow_notes(s, events, jitters, noted),
    decreases events.len(),
{
    if events.len() > 0 {
        let (next, action) = scheduler_step(s, events[0], jitters[0]);
        let noted_next = match action {
            SchedulerActionView::SetCurrentStep { step_order, .. } => Some(step_order),
            _ => noted,
        };
        let later = events.drop_first();
        assert forall|k: int| 0 <= k < later.len() implies event_fits(#[trigger] later[k]) by {
            assert(later[k] == events[k + 1]);
        }
        assert(event_fits(events[0]));
        if let SchedulerEventView::Steps(steps) = events[0] {
            lemma_step_at(steps, s.order, 0);
            if let Some(i) = step_at(steps, s.order, 0) {
                assert(steps[i].order <= i32::MAX);
            }
        }
        lemma_waits_follow_notes(next, later, jitters.drop_first(), noted_next);
    }
}

/// While the scheduler waits before a step, the current step noted on the
/// execution is that step's order: every wait but the first of a scheduling
/// follows the note of the very order that is waited for. An execution that
/// is taken up again during a wait therefore resumes at the step it was
/// waiting for, and repeats none that has been processed.
pub proof fn lemma_waits_follow_the_noted_step(
    execution_id: Seq<char>,
    step_order: int,
    events: Seq<SchedulerEventView>,
    jitters: Seq<int>,
)
    requires
        orders_fit(events),
    ensures
        waits_follow_notes(scheduler_start(execution_id, step_order).0, events, jitters, None),
{
    lemma_waits_follow_notes(scheduler_start(execution_id, step_order).0, events, jitters, None);
}

} // verus!
