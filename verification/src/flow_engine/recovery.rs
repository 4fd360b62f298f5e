//! After a restart: which executions are taken up again, and where.

use vstd::prelude::*;

use crate::models::db::{Execution, ExecutionView};

verus! {

/// A call of the scheduler that is due.
#[derive(Debug, PartialEq, Eq)]
pub struct ScheduleRequest {
    pub execution_id: String,
    pub step_order: i32,
}

/// The mathematical value of a `ScheduleRequest`.
pub struct ScheduleRequestView {
    pub execution_id: Seq<char>,
    pub step_order: int,
}

impl View for ScheduleRequest {
    type V = ScheduleRequestView;

    open spec fn view(&self) -> ScheduleRequestView {
        ScheduleRequestView {
            execution_id: self.execution_id@,
            step_order: self.step_order as int,
        }
    }
}

impl DeepView for ScheduleRequest {
    type V = ScheduleRequestView;

    open spec fn deep_view(&self) -> ScheduleRequestView {
        self@
    }
}

/// The call that takes `execution` up again: at the step it was about to
/// dispatch.
pub open spec fn resumption(execution: ExecutionView) -> ScheduleRequestView {
    ScheduleRequestView { execution_id: execution.id, step_order: execution.current_step }
}

/// The calls that take up again those of `executions` that are running, in
/// their order.
pub open spec fn recovery_plan(executions: Seq<ExecutionView>) -> Seq<ScheduleRequestView>
    decreases executions.len(),
{
    if executions.len() == 0 {
        Seq::empty()
    } else if executions.last().is_running() {
        recovery_plan(executions.drop_last()).push(resumption(executions.last()))
    } else {
        recovery_plan(executions.drop_last())
    }
}

/// The calls of the scheduler that are due after a restart, given the
/// executions that the store holds as running: one for each, at its current
/// step. An execution that is not running gets none.
pub fn recover_running_executions(executions: &[Execution]) -> (plan: Vec<ScheduleRequest>)
    ensures
        plan.deep_view() == recovery_plan(executions.deep_view()),
{
    let ghost views = executions.deep_view();
    let mut plan: Vec<ScheduleRequest> = Vec::new();
    let mut i: usize = 0;
    assert(views.take(0) =~= Seq::<ExecutionView>::empty());
    assert(plan.deep_view() =~= Seq::<ScheduleRequestView>::empty());
    while i < executions.len()
        invariant
            i <= executions.len(),
            views == executions.deep_view(),
            plan.deep_view() == recovery_plan(views.take(i as int)),
        decreases executions.len() - i,
    {
        let execution = &executions[i];
        let ghost before = plan.deep_view();
        assert(views.take(i + 1).drop_last() =~= views.take(i as int));
        assert(views.take(i + 1).last() == execution@);
        if execution.is_running() {
            plan.push(
                ScheduleRequest {
                    execution_id: execution.id.clone(),
                    step_order: execution.current_step,
                },
            );
            assert(plan.deep_view() =~= before.push(resumption(execution@)));
        }
        i += 1;
    }
    assert(views.take(i as int) =~= views);
    plan
}

/// Whether `request` takes up again a running execution among `executions`.
pub open spec fn resumes_one_of(executions: Seq<ExecutionView>, request: ScheduleRequestView) -> bool {
    exists|i: int|
        0 <= i < executions.len() && (#[trigger] executions[i]).is_running() && request
            == resumption(executions[i])
}

/// Every running execution is taken up again at its current step, and
/// nothing else is: each call of the plan resumes a running execution of the
/// list.
pub proof fn lemma_recovery_resumes_running(executions: Seq<ExecutionView>)
    ensures
        forall|i: int|
            0 <= i < executions.len() && (#[trigger] executions[i]).is_running()
                ==> recovery_plan(executions).contains(resumption(executions[i])),
        forall|k: int|
            0 <= k < recovery_plan(executions).len() ==> resumes_one_of(
                executions,
                #[trigger] recovery_plan(executions)[k],
            ),
        recovery_plan(executions).len() <= executions.len(),
    decreases executions.len(),
{
    if executions.len() > 0 {
        let front = executions.drop_last();
        let last = executions.last();
        lemma_recovery_resumes_running(front);
        let plan = recovery_plan(executions);
        let shorter = recovery_plan(front);
        assert forall|i: int|
            0 <= i < executions.len() && (#[trigger] executions[i]).is_running() implies plan.contains(
            resumption(executions[i]),
        ) by {
            if i < front.len() {
                assert(front[i] == executions[i]);
                assert(shorter.contains(resumption(front[i])));
                let k = choose|k: int| 0 <= k < shorter.len() && shorter[k] == resumption(front[i]);
                assert(plan[k] == resumption(executions[i]));
            } else {
                assert(plan[plan.len() - 1] == resumption(last));
            }
        }
        assert forall|k: int| 0 <= k < plan.len() implies resumes_one_of(
            executions,
            #[trigger] plan[k],
        ) by {
            if k < shorter.len() {
                assert(resumes_one_of(front, shorter[k]));
                let i = choose|i: int|
                    0 <= i < front.len() && (#[trigger] front[i]).is_running() && shorter[k]
                        == resumption(front[i]);
                assert(executions[i] == front[i]);
            } else {
                assert(executions[executions.len() - 1] == last);
            }
        }
    }
}

} // verus!
