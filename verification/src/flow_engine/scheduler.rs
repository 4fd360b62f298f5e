//! The scheduler: one hop per step. A hop loads the execution afresh, finds
//! the step of the wanted order, waits, notes the step on the execution, has
//! the step processed, notes the order that comes next, and goes on to it.
//!
//! The caller starts it with `schedule_step`, performs the action it is
//! handed, and reports what happened with `Scheduling::advance`, until the
//! action is `Finish`.

use vstd::prelude::*;
use vstd::string::StringExecFns;

use crate::flow_engine::pacing::{delay_with, draw_jitter, final_delay, jitter_allowed};
use crate::models::db::{Execution, ExecutionView, Step, StepView};
use crate::text::{decimal, push_decimal};

verus! {

/// How the scheduling of an execution ended.
#[derive(Debug, Clone, Copy, PartialEq, Eq, Structural)]
pub enum SchedulerOutcome {
    /// The execution is not in the store.
    ExecutionNotFound,
    /// The execution is not running any more. It is left as it is.
    NotRunning,
    /// The flow has no step of the wanted order: the execution is completed.
    Completed,
    /// The store failed, or reported something that was not asked for.
    StoreFailed,
    /// The scheduling had ended before.
    AlreadyFinished,
}

/// Where a hop stands: what it has asked for and waits to hear of.
#[derive(Debug, Clone, Copy, PartialEq, Eq, Structural)]
pub enum SchedulerPhase {
    /// Asked for the execution.
    LoadingExecution,
    /// Asked for the steps of the execution's flow.
    LoadingSteps,
    /// Asked for the execution to be marked completed.
    Completing,
    /// Asked to be woken after the step's wait.
    Sleeping,
    /// Asked for the step's order to be noted on the execution.
    SavingProgress,
    /// Asked for the step to be processed.
    Processing,
    /// Asked for the step's error to be noted on the execution.
    RecordingError,
    /// The step is done; asked for the order after it to be noted on the
    /// execution.
    Advancing,
    /// Over.
    Finished,
}

/// The scheduling of an execution under way.
#[derive(Debug, PartialEq, Eq)]
pub struct Scheduling {
    pub execution_id: String,
    /// The order of the step that this hop is for.
    pub order: i64,
    pub phase: SchedulerPhase,
    /// The step of that order, once it was found.
    pub step: Option<Step>,
}

/// The mathematical value of a `Scheduling`.
pub struct SchedulingView {
    pub execution_id: Seq<char>,
    pub order: int,
    pub phase: SchedulerPhase,
    pub step: Option<StepView>,
}

impl View for Scheduling {
    type V = SchedulingView;

    open spec fn view(&self) -> SchedulingView {
        SchedulingView {
            execution_id: self.execution_id@,
            order: self.order as int,
            phase: self.phase,
            step: self.step.deep_view(),
        }
    }
}

/// What the caller reports to the scheduler.
#[derive(Debug, PartialEq, Eq)]
pub enum SchedulerEvent {
    /// The execution as the store holds it now, if it does.
    Execution(Option<Execution>),
    /// The steps of the flow.
    Steps(Vec<Step>),
    /// The step was processed, with this error if it failed.
    Processed { error: Option<String> },
    /// The action was carried out.
    Done,
    /// The action failed.
    Failed,
}

/// The mathematical value of a `SchedulerEvent`.
pub enum SchedulerEventView {
    Execution(Option<ExecutionView>),
    Steps(Seq<StepView>),
    Processed { error: Option<Seq<char>> },
    Done,
    Failed,
}

impl View for SchedulerEvent {
    type V = SchedulerEventView;

    open spec fn view(&self) -> SchedulerEventView {
        match self {
            SchedulerEvent::Execution(execution) => SchedulerEventView::Execution(
                execution.deep_view(),
            ),
            SchedulerEvent::Steps(steps) => SchedulerEventView::Steps(steps.deep_view()),
            SchedulerEvent::Processed { error } => SchedulerEventView::Processed {
                error: error.deep_view(),
            },
            SchedulerEvent::Done => SchedulerEventView::Done,
            SchedulerEvent::Failed => SchedulerEventView::Failed,
        }
    }
}

/// What the scheduler asks its caller to do next.
#[derive(Debug, PartialEq, Eq)]
pub enum SchedulerAction {
    /// Load the execution.
    LoadExecution { execution_id: String },
    /// Load the steps of the flow.
    LoadSteps { flow_id: String },
    /// Set the execution's status to completed, and the time it completed and
    /// was updated to now.
    MarkCompleted { execution_id: String },
    /// Wake the scheduler after this many milliseconds.
    Sleep { millis: u64 },
    /// Set the execution's current step to `step_order`, and the time it was
    /// updated to now.
    SetCurrentStep { execution_id: String, step_order: i32 },
    /// Process the step and report how it went.
    RunStep { execution_id: String, step_id: String, step_order: i32 },
    /// Set the execution's error to `error`, and the time it was updated to
    /// now.
    RecordError { execution_id: String, error: String },
    /// Nothing more. The scheduling is over.
    Finish { outcome: SchedulerOutcome },
}

/// The mathematical value of a `SchedulerAction`.
pub enum SchedulerActionView {
    LoadExecution { execution_id: Seq<char> },
    LoadSteps { flow_id: Seq<char> },
    MarkCompleted { execution_id: Seq<char> },
    Sleep { millis: int },
    SetCurrentStep { execution_id: Seq<char>, step_order: int },
    RunStep { execution_id: Seq<char>, step_id: Seq<char>, step_order: int },
    RecordError { execution_id: Seq<char>, error: Seq<char> },
    Finish { outcome: SchedulerOutcome },
}

impl View for SchedulerAction {
    type V = SchedulerActionView;

    open spec fn view(&self) -> SchedulerActionView {
        match self {
            SchedulerAction::LoadExecution {
                execution_id,
            } => SchedulerActionView::LoadExecution { execution_id: execution_id@ },
            SchedulerAction::LoadSteps { flow_id } => SchedulerActionView::LoadSteps {
                flow_id: flow_id@,
            },
            SchedulerAction::MarkCompleted {
                execution_id,
            } => SchedulerActionView::MarkCompleted { execution_id: execution_id@ },
            SchedulerAction::Sleep { millis } => SchedulerActionView::Sleep {
                millis: *millis as int,
            },
            SchedulerAction::SetCurrentStep {
                execution_id,
                step_order,
            } => SchedulerActionView::SetCurrentStep {
                execution_id: execution_id@,
                step_order: *step_order as int,
            },
            SchedulerAction::RunStep {
                execution_id,
                step_id,
                step_order,
            } => SchedulerActionView::RunStep {
                execution_id: execution_id@,
                step_id: step_id@,
                step_order: *step_order as int,
            },
            SchedulerAction::RecordError {
                execution_id,
                error,
            } => SchedulerActionView::RecordError { execution_id: execution_id@, error: error@ },
            SchedulerAction::Finish { outcome } => SchedulerActionView::Finish {
                outcome: *outcome,
            },
        }
    }
}

/// The index of the first of `steps` from `from` on whose order is `order`.
pub open spec fn step_at(steps: Seq<StepView>, order: int, from: int) -> Option<int>
    decreases steps.len() - from,
{
    if from < 0 || from >= steps.len() {
        None
    } else if steps[from].order == order {
        Some(from)
    } else {
        step_at(steps, order, from + 1)
    }
}

/// What is noted on an execution when the step of order `order` failed with
/// `message`.
pub open spec fn step_error_text(order: int, message: Seq<char>) -> Seq<char> {
    "Step "@ + decimal(order) + " error: "@ + message
}

/// What is noted on an execution when the step of order `order` failed with
/// `message`.
pub fn step_error_message(order: i32, message: &str) -> (words: String)
    ensures
        words@ == step_error_text(order as int, message@),
{
    let mut words = "Step ".to_owned();
    push_decimal(&mut words, order as i128);
    words.append(" error: ");
    words.append(message);
    words
}

/// The scheduling ends with `outcome`.
pub open spec fn end(s: SchedulingView, outcome: SchedulerOutcome) -> (
    SchedulingView,
    SchedulerActionView,
) {
    (
        SchedulingView { phase: SchedulerPhase::Finished, ..s },
        SchedulerActionView::Finish { outcome },
    )
}

/// The hop for `step` is over: the next hop is for the order after it.
pub open spec fn next_hop(s: SchedulingView, step: StepView) -> (
    SchedulingView,
    SchedulerActionView,
) {
    (
        SchedulingView {
            phase: SchedulerPhase::LoadingExecution,
            order: step.order + 1,
            step: None,
            ..s
        },
        SchedulerActionView::LoadExecution { execution_id: s.execution_id },
    )
}

/// The step was processed. The order after it is noted on the execution
/// before anything else is done for that order, so that the execution is
/// never taken up again at a step that has been processed. The last order
/// that there is has none after it: nothing is noted, and the next hop finds
/// no step and completes the execution.
pub open spec fn step_done(s: SchedulingView, step: StepView) -> (
    SchedulingView,
    SchedulerActionView,
) {
    if step.order < i32::MAX {
        (
            SchedulingView { phase: SchedulerPhase::Advancing, ..s },
            SchedulerActionView::SetCurrentStep {
                execution_id: s.execution_id,
                step_order: step.order + 1,
            },
        )
    } else {
        next_hop(s, step)
    }
}

/// What a hop that has found its step does on an event.
pub open spec fn paced_step(s: SchedulingView, step: StepView, e: SchedulerEventView) -> (
    SchedulingView,
    SchedulerActionView,
) {
    match s.phase {
        SchedulerPhase::Sleeping => (
            SchedulingView { phase: SchedulerPhase::SavingProgress, ..s },
            SchedulerActionView::SetCurrentStep {
                execution_id: s.execution_id,
                step_order: step.order,
            },
        ),
        SchedulerPhase::SavingProgress => (
            SchedulingView { phase: SchedulerPhase::Processing, ..s },
            SchedulerActionView::RunStep {
                execution_id: s.execution_id,
                step_id: step.id,
                step_order: step.order,
            },
        ),
        SchedulerPhase::Processing => match e {
            SchedulerEventView::Processed { error: Some(message) } => (
                SchedulingView { phase: SchedulerPhase::RecordingError, ..s },
                SchedulerActionView::RecordError {
                    execution_id: s.execution_id,
                    error: step_error_text(step.order, message),
                },
            ),
            _ => step_done(s, step),
        },
        SchedulerPhase::RecordingError => step_done(s, step),
        _ => next_hop(s, step),
    }
}

/// What the scheduler in state `s` does when it hears of `e`: the state it
/// moves to and the action it asks for. `jitter` is what is added to the
/// delay of the step where the event brings the steps.
///
/// An execution that is missing or not running ends the scheduling and is
/// left alone. A flow without a step of the wanted order completes the
/// execution. Otherwise the scheduler waits for the step's delay and jitter,
/// never less than zero, notes the step's order on the execution, has the
/// step processed, notes its error if it failed, notes the order after the
/// step's, and turns to that order, whether the step failed or not. A note
/// that the store fails to take does not stop it.
pub open spec fn scheduler_step(s: SchedulingView, e: SchedulerEventView, jitter: int) -> (
    SchedulingView,
    SchedulerActionView,
) {
    match s.phase {
        SchedulerPhase::Finished => end(s, SchedulerOutcome::AlreadyFinished),
        SchedulerPhase::LoadingExecution => match e {
            SchedulerEventView::Execution(Some(execution)) => if execution.is_running() {
                (
                    SchedulingView { phase: SchedulerPhase::LoadingSteps, ..s },
                    SchedulerActionView::LoadSteps { flow_id: execution.flow_id },
                )
            } else {
                end(s, SchedulerOutcome::NotRunning)
            },
            SchedulerEventView::Execution(None) => end(s, SchedulerOutcome::ExecutionNotFound),
            _ => end(s, SchedulerOutcome::StoreFailed),
        },
        SchedulerPhase::LoadingSteps => match e {
            SchedulerEventView::Steps(steps) => match step_at(steps, s.order, 0) {
                Some(i) => (
                    SchedulingView {
                        phase: SchedulerPhase::Sleeping,
                        step: Some(steps[i]),
                        ..s
                    },
                    SchedulerActionView::Sleep { millis: delay_with(steps[i].delay_ms, jitter) },
                ),
                None => (
                    SchedulingView { phase: SchedulerPhase::Completing, ..s },
                    SchedulerActionView::MarkCompleted { execution_id: s.execution_id },
                ),
            },
            _ => end(s, SchedulerOutcome::StoreFailed),
        },
        SchedulerPhase::Completing => end(s, SchedulerOutcome::Completed),
        _ => match s.step {
            Some(step) => paced_step(s, step, e),
            None => end(s, SchedulerOutcome::StoreFailed),
        },
    }
}

/// The jitters that may be drawn when `e` arrives in state `s`: those that
/// the step allows where `e` brings the step of the wanted order, and zero
/// otherwise.
pub open spec fn jitter_may_be(s: SchedulingView, e: SchedulerEventView, jitter: int) -> bool {
    if s.phase == SchedulerPhase::LoadingSteps {
        match e {
            SchedulerEventView::Steps(steps) => match step_at(steps, s.order, 0) {
                Some(i) => jitter_allowed(steps[i].delay_ms, steps[i].jitter_pct, jitter),
                None => jitter == 0,
            },
            _ => jitter == 0,
        }
    } else {
        jitter == 0
    }
}

/// The state and the first action of the scheduling of an execution from the
/// step of order `step_order` on.
pub open spec fn scheduler_start(execution_id: Seq<char>, step_order: int) -> (
    SchedulingView,
    SchedulerActionView,
) {
    (
        SchedulingView {
            execution_id,
            order: step_order,
            phase: SchedulerPhase::LoadingExecution,
            step: None,
        },
        SchedulerActionView::LoadExecution { execution_id },
    )
}

/// Starts the scheduling of an execution at the step of order `step_order`.
pub fn schedule_step(execution_id: String, step_order: i32) -> (start: (
    Scheduling,
    SchedulerAction,
))
    ensures
        (start.0@, start.1@) == scheduler_start(execution_id@, step_order as int),
{
    let action = SchedulerAction::LoadExecution { execution_id: execution_id.clone() };
    (
        Scheduling {
            execution_id,
            order: step_order as i64,
            phase: SchedulerPhase::LoadingExecution,
            step: None,
        },
        action,
    )
}

/// The first of `steps` whose order is `order`.
pub fn find_step(steps: &Vec<Step>, order: i64) -> (found: Option<usize>)
    ensures
        match found {
            Some(i) => step_at(steps.deep_view(), order as int, 0) == Some(i as int) && i
                < steps.len(),
            None => step_at(steps.deep_view(), order as int, 0) is None,
        },
{
    let ghost views = steps.deep_view();
    let mut i: usize = 0;
    while i < steps.len()
        invariant
            i <= steps.len(),
            views == steps.deep_view(),
            step_at(views, order as int, 0) == step_at(views, order as int, i as int),
        decreases steps.len() - i,
    {
        assert(views[i as int] == steps[i as int]@);
        if steps[i].order as i64 == order {
            return Some(i);
        }
        i += 1;
    }
    None
}

impl Scheduling {
    fn ended(self, outcome: SchedulerOutcome) -> (next: (Scheduling, SchedulerAction))
        ensures
            (next.0@, next.1@) == end(self@, outcome),
    {
        (
            Scheduling { phase: SchedulerPhase::Finished, ..self },
            SchedulerAction::Finish { outcome },
        )
    }

    fn paced(
        execution_id: String,
        order: i64,
        phase: SchedulerPhase,
        step: Step,
        event: SchedulerEvent,
    ) -> (next: (Scheduling, SchedulerAction))
        ensures
            (next.0@, next.1@) == paced_step(
                SchedulingView {
                    execution_id: execution_id@,
                    order: order as int,
                    phase,
                    step: Some(step@),
                },
                step@,
                event@,
            ),
    {
        match phase {
            SchedulerPhase::Sleeping => {
                let action = SchedulerAction::SetCurrentStep {
                    execution_id: execution_id.clone(),
                    step_order: step.order,
                };
                (
                    Scheduling {
                        execution_id,
                        order,
                        phase: SchedulerPhase::SavingProgress,
                        step: Some(step),
                    },
                    action,
                )
            },
            SchedulerPhase::SavingProgress => {
                let action = SchedulerAction::RunStep {
                    execution_id: execution_id.clone(),
                    step_id: step.id.clone(),
                    step_order: step.order,
                };
                (
                    Scheduling {
                        execution_id,
                        order,
                        phase: SchedulerPhase::Processing,
                        step: Some(step),
                    },
                    action,
                )
            },
            SchedulerPhase::Processing => match event {
                SchedulerEvent::Processed { error: Some(message) } => {
                    let action = SchedulerAction::RecordError {
                        execution_id: execution_id.clone(),
                        error: step_error_message(step.order, message.as_str()),
                    };
                    (
                        Scheduling {
                            execution_id,
                            order,
                            phase: SchedulerPhase::RecordingError,
                            step: Some(step),
                        },
                        action,
                    )
                },
                _ => Self::done_with(execution_id, order, phase, step),
            },
            SchedulerPhase::RecordingError => Self::done_with(execution_id, order, phase, step),
            _ => Self::hop_after(execution_id, step.order),
        }
    }

    fn done_with(execution_id: String, order: i64, phase: SchedulerPhase, step: Step) -> (next: (
        Scheduling,
        SchedulerAction,
    ))
        ensures
            (next.0@, next.1@) == step_done(
                SchedulingView {
                    execution_id: execution_id@,
                    order: order as int,
                    phase,
                    step: Some(step@),
                },
                step@,
            ),
    {
        if step.order < i32::MAX {
            let action = SchedulerAction::SetCurrentStep {
                execution_id: execution_id.clone(),
                step_order: step.order + 1,
            };
            (
                Scheduling {
                    execution_id,
                    order,
                    phase: SchedulerPhase::Advancing,
                    step: Some(step),
                },
                action,
            )
        } else {
            Self::hop_after(execution_id, step.order)
        }
    }

    fn hop_after(execution_id: String, order: i32) -> (next: (Scheduling, SchedulerAction))
        ensures
            next.0@ == (SchedulingView {
                execution_id: execution_id@,
                order: order + 1,
                phase: SchedulerPhase::LoadingExecution,
                step: None,
            }),
            next.1@ == (SchedulerActionView::LoadExecution { execution_id: execution_id@ }),
    {
        let action = SchedulerAction::LoadExecution { execution_id: execution_id.clone() };
        (
            Scheduling {
                execution_id,
                order: order as i64 + 1,
                phase: SchedulerPhase::LoadingExecution,
                step: None,
            },
            action,
        )
    }

    fn advance_inner(self, event: SchedulerEvent, given: Option<i64>) -> (next: (
        Scheduling,
        SchedulerAction,
    ))
        ensures
            exists|jitter: int|
                (match given {
                    Some(j) => jitter == j,
                    None => jitter_may_be(self@, event@, jitter),
                }) && #[trigger] scheduler_step(self@, event@, jitter) == (next.0@, next.1@),
    {
        let ghost before = self@;
        let ghost heard = event@;
        let ghost fixed: int = match given {
            Some(j) => j as int,
            None => 0,
        };
        match self.phase {
            SchedulerPhase::Finished => {
                let next = self.ended(SchedulerOutcome::AlreadyFinished);
                assert(scheduler_step(before, heard, fixed) == (next.0@, next.1@));
                next
            },
            SchedulerPhase::LoadingExecution => {
                let next = match event {
                    SchedulerEvent::Execution(Some(execution)) => {
                        if execution.is_running() {
                            (
                                Scheduling { phase: SchedulerPhase::LoadingSteps, ..self },
                                SchedulerAction::LoadSteps { flow_id: execution.flow_id },
                            )
                        } else {
                            self.ended(SchedulerOutcome::NotRunning)
                        }
                    },
                    SchedulerEvent::Execution(None) => self.ended(
                        SchedulerOutcome::ExecutionNotFound,
                    ),
                    _ => self.ended(SchedulerOutcome::StoreFailed),
                };
                assert(scheduler_step(before, heard, fixed) == (next.0@, next.1@));
                next
            },
            SchedulerPhase::LoadingSteps => match event {
                SchedulerEvent::Steps(steps) => match find_step(&steps, self.order) {
                    Some(i) => {
                        let step = steps[i].clone();
                        assert(steps.deep_view()[i as int] == step@);
                        let jitter = match given {
                            Some(j) => j,
                            None => draw_jitter(step.delay_ms, step.jitter_pct),
                        };
                        let millis = final_delay(step.delay_ms, jitter);
                        let next = (
                            Scheduling {
                                phase: SchedulerPhase::Sleeping,
                                step: Some(step),
                                ..self
                            },
                            SchedulerAction::Sleep { millis },
                        );
                        assert(scheduler_step(before, heard, jitter as int) == (next.0@, next.1@));
                        next
                    },
                    None => {
                        let action = SchedulerAction::MarkCompleted {
                            execution_id: self.execution_id.clone(),
                        };
                        let next = (
                            Scheduling { phase: SchedulerPhase::Completing, ..self },
                            action,
                        );
                        assert(scheduler_step(before, heard, fixed) == (next.0@, next.1@));
                        next
                    },
                },
                _ => {
                    let next = self.ended(SchedulerOutcome::StoreFailed);
                    assert(scheduler_step(before, heard, fixed) == (next.0@, next.1@));
                    next
                },
            },
            SchedulerPhase::Completing => {
                let next = self.ended(SchedulerOutcome::Completed);
                assert(scheduler_step(before, heard, fixed) == (next.0@, next.1@));
                next
            },
            _ => {
                let Scheduling { execution_id, order, phase, step } = self;
                let next = match step {
                    Some(step) => Self::paced(execution_id, order, phase, step, event),
                    None => {
                        let state = Scheduling { execution_id, order, phase, step: None };
                        state.ended(SchedulerOutcome::StoreFailed)
                    },
                };
                assert(scheduler_step(before, heard, fixed) == (next.0@, next.1@));
                next
            },
        }
    }

    /// Moves the scheduling on by one event, with `jitter` added to the delay
    /// of the step where the event brings the steps.
    pub fn advance_with(self, event: SchedulerEvent, jitter: i64) -> (next: (
        Scheduling,
        SchedulerAction,
    ))
        ensures
            (next.0@, next.1@) == scheduler_step(self@, event@, jitter as int),
    {
        self.advance_inner(event, Some(jitter))
    }

    /// Moves the scheduling on by one event. Where the event brings the step
    /// of the wanted order, the wait is the step's delay with a jitter drawn
    /// at random from those the step allows.
    pub fn advance(self, event: SchedulerEvent) -> (next: (Scheduling, SchedulerAction))
        ensures
            exists|jitter: int|
                jitter_may_be(self@, event@, jitter) && #[trigger] scheduler_step(
                    self@,
                    event@,
                    jitter,
                ) == (next.0@, next.1@),
    {
        self.advance_inner(event, None)
    }
}

} // verus!
