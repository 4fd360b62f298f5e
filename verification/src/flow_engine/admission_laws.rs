//! What holds of every admission, whatever the store and the lock service
//! report.

use vstd::prelude::*;

use crate::flow_engine::admission::{
    admission_start, admission_step, lock_key_of, reject, AdmissionActionView,
    AdmissionEventView, AdmissionOutcome, AdmissionPhase, AdmissionView, Rejection,
};
use crate::matcher::{
    candidates_of, lemma_first_contains, lemma_first_exact, matched, normalized,
};
use crate::models::db::TriggerView;
use crate::text::trimmed;

verus! {

/// The actions that an admission in state `s` asks for, one after each of
/// `events`. `ids[i]` is the identity on offer when `events[i]` arrives.
pub open spec fn admission_run(
    s: AdmissionView,
    events: Seq<AdmissionEventView>,
    ids: Seq<Seq<char>>,
) -> Seq<AdmissionActionView>
    decreases events.len(),
{
    if events.len() == 0 {
        Seq::empty()
    } else {
        let (next, action) = admission_step(s, events[0], ids[0]);
        seq![action] + admission_run(next, events.drop_first(), ids.drop_first())
    }
}

/// How often each kind of action that matters occurs among some actions.
pub struct Tally {
    /// Inserts of a running execution.
    pub running: nat,
    /// Inserts of a failed execution.
    pub failed: nat,
    /// Starts of the scheduler.
    pub scheduled: nat,
    /// Ends that report a rule that turned the admission down.
    pub rejected: nat,
}

impl Tally {
    /// The tally with `action` counted in.
    pub open spec fn with(self, action: AdmissionActionView) -> Tally {
        match action {
            AdmissionActionView::InsertRunning { .. } => Tally {
                running: self.running + 1,
                ..self
            },
            AdmissionActionView::InsertFailed { .. } => Tally { failed: self.failed + 1, ..self },
            AdmissionActionView::Schedule { .. } => Tally {
                scheduled: self.scheduled + 1,
                ..self
            },
            AdmissionActionView::Finish { outcome: AdmissionOutcome::Rejected(_) } => Tally {
                rejected: self.rejected + 1,
                ..self
            },
            _ => self,
        }
    }
}

/// The tally of `actions`.
pub open spec fn tally(actions: Seq<AdmissionActionView>) -> Tally
    decreases actions.len(),
{
    if actions.len() == 0 {
        Tally { running: 0, failed: 0, scheduled: 0, rejected: 0 }
    } else {
        tally(actions.drop_first()).with(actions[0])
    }
}

proof fn lemma_tally_cons(action: AdmissionActionView, rest: Seq<AdmissionActionView>)
    ensures
        tally(seq![action] + rest) == tally(rest).with(action),
{
    assert((seq![action] + rest).drop_first() =~= rest);
}

/// What the rest of an admission can still do, by where it stands.
spec fn outlook(phase: AdmissionPhase, t: Tally) -> bool {
    match phase {
        AdmissionPhase::FetchingTriggers
        | AdmissionPhase::Locking
        | AdmissionPhase::ReadingLastStart
        | AdmissionPhase::CountingExecutions
        | AdmissionPhase::CountingExcluded => {
            &&& t.running + t.failed <= 1
            &&& t.scheduled > 0 ==> t.running == 1
            &&& t.rejected > 0 ==> t.failed == 1
            &&& t.scheduled + t.rejected <= 1
        },
        AdmissionPhase::InsertingRunning | AdmissionPhase::UnlockingAdmitted => {
            &&& t.running == 0
            &&& t.failed == 0
            &&& t.rejected == 0
            &&& t.scheduled <= 1
        },
        AdmissionPhase::InsertingFailed(_) | AdmissionPhase::Unlocking(_) => {
            &&& t.running == 0
            &&& t.failed == 0
            &&& t.scheduled == 0
            &&& t.rejected <= 1
        },
        AdmissionPhase::Finished => {
            &&& t.running == 0
            &&& t.failed == 0
            &&& t.scheduled == 0
            &&& t.rejected == 0
        },
    }
}

proof fn lemma_outlook(s: AdmissionView, events: Seq<AdmissionEventView>, ids: Seq<Seq<char>>)
    ensures
        outlook(s.phase, tally(admission_run(s, events, ids))),
        s.phase matches AdmissionPhase::Unlocking(outcome) && !(outcome
            is Rejected) ==> tally(admission_run(s, events, ids)).rejected == 0,
    decreases events.len(),
{
    if events.len() > 0 {
        let (next, action) = admission_step(s, events[0], ids[0]);
        let rest = admission_run(next, events.drop_first(), ids.drop_first());
        lemma_outlook(next, events.drop_first(), ids.drop_first());
        lemma_tally_cons(action, rest);
    }
}

/// An event whose text is empty once trimmed creates no execution and starts
/// no step, whatever is reported afterwards: the admission ends at once, and
/// nothing that follows inserts a row or starts the scheduler.
pub proof fn lemma_blank_event_creates_nothing(
    bot_id: Seq<char>,
    session_id: Seq<char>,
    from_me: bool,
    sender: Seq<char>,
    content: Seq<char>,
    events: Seq<AdmissionEventView>,
    ids: Seq<Seq<char>>,
)
    requires
        trimmed(content).len() == 0,
    ensures
        ({
            let (start, first) = admission_start(bot_id, session_id, from_me, sender, content);
            let seen = tally(seq![first] + admission_run(start, events, ids));
            &&& first == AdmissionActionView::Finish { outcome: AdmissionOutcome::EmptyContent }
            &&& seen.running == 0
            &&& seen.failed == 0
            &&& seen.scheduled == 0
        }),
{
    let (start, first) = admission_start(bot_id, session_id, from_me, sender, content);
    lemma_outlook(start, events, ids);
    lemma_tally_cons(first, admission_run(start, events, ids));
}

/// An admission inserts at most one row. One that starts the scheduler has
/// inserted one running execution and no failed one. One that ends turned
/// down by a rule has inserted one failed execution and no running one.
pub proof fn lemma_one_row_per_admission(
    bot_id: Seq<char>,
    session_id: Seq<char>,
    from_me: bool,
    sender: Seq<char>,
    content: Seq<char>,
    events: Seq<AdmissionEventView>,
    ids: Seq<Seq<char>>,
)
    ensures
        ({
            let (start, first) = admission_start(bot_id, session_id, from_me, sender, content);
            let seen = tally(seq![first] + admission_run(start, events, ids));
            &&& seen.running + seen.failed <= 1
            &&& seen.scheduled > 0 ==> seen.running == 1 && seen.failed == 0
            &&& seen.rejected > 0 ==> seen.failed == 1 && seen.running == 0
        }),
{
    let (start, first) = admission_start(bot_id, session_id, from_me, sender, content);
    lemma_outlook(start, events, ids);
    lemma_tally_cons(first, admission_run(start, events, ids));
}

/// An admission that is refused the lock records nothing: no row is inserted
/// and no step starts.
pub proof fn lemma_refused_lock_records_nothing(
    s: AdmissionView,
    events: Seq<AdmissionEventView>,
    ids: Seq<Seq<char>>,
)
    requires
        s.phase == AdmissionPhase::Locking,
        events.len() > 0,
        events[0] != AdmissionEventView::Lock(true),
    ensures
        ({
            let seen = tally(admission_run(s, events, ids));
            &&& seen.running == 0
            &&& seen.failed == 0
            &&& seen.scheduled == 0
        }),
{
    let (next, action) = admission_step(s, events[0], ids[0]);
    lemma_outlook(next, events.drop_first(), ids.drop_first());
    lemma_tally_cons(action, admission_run(next, events.drop_first(), ids.drop_first()));
}

/// Where an execution of a flow that shuts the matched flow out is found on
/// the session, the admission is turned down as mutually exclusive.
pub proof fn lemma_excluding_execution_rejects(
    s: AdmissionView,
    trigger: TriggerView,
    count: i64,
    fresh_id: Seq<char>,
)
    requires
        s.phase == AdmissionPhase::CountingExcluded,
        s.trigger == Some(trigger),
        count > 0,
    ensures
        admission_step(s, AdmissionEventView::Count(count), fresh_id) == reject(
            s,
            trigger,
            Rejection::Exclusive,
        ),
{
}

/// Whether, along a run, the store reports at least one execution every time
/// it is asked for those of the flows that shut the matched flow out.
pub open spec fn finds_excluding_execution(
    s: AdmissionView,
    events: Seq<AdmissionEventView>,
    ids: Seq<Seq<char>>,
) -> bool
    decreases events.len(),
{
    if events.len() == 0 {
        true
    } else {
        &&& s.phase == AdmissionPhase::CountingExcluded ==> (events[0] matches AdmissionEventView::Count(
            count,
        ) ==> count > 0)
        &&& finds_excluding_execution(
            admission_step(s, events[0], ids[0]).0,
            events.drop_first(),
            ids.drop_first(),
        )
    }
}

/// A flow that names flows that shut it out is never admitted on a session
/// on which one of those has an execution: from the moment its trigger has
/// fired, no running execution is inserted and no step starts, whatever else
/// is reported.
pub proof fn lemma_excluded_flow_never_starts(
    s: AdmissionView,
    events: Seq<AdmissionEventView>,
    ids: Seq<Seq<char>>,
)
    requires
        s.phase != AdmissionPhase::FetchingTriggers,
        s.phase != AdmissionPhase::InsertingRunning,
        s.phase != AdmissionPhase::UnlockingAdmitted,
        s.trigger matches Some(trigger) && trigger.excluded().len() > 0,
        finds_excluding_execution(s, events, ids),
    ensures
        tally(admission_run(s, events, ids)).running == 0,
        tally(admission_run(s, events, ids)).scheduled == 0,
    decreases events.len(),
{
    if events.len() > 0 {
        let (next, action) = admission_step(s, events[0], ids[0]);
        let rest = admission_run(next, events.drop_first(), ids.drop_first());
        lemma_tally_cons(action, rest);
        if next.phase == AdmissionPhase::Finished {
            lemma_outlook(next, events.drop_first(), ids.drop_first());
        } else {
            lemma_excluded_flow_never_starts(next, events.drop_first(), ids.drop_first());
        }
    }
}

/// The trigger that an event fires is one of the triggers it was held
/// against.
pub proof fn lemma_matched_is_one_of(content: Seq<char>, triggers: Seq<TriggerView>)
    ensures
        matched(content, triggers) matches Some(found) ==> exists|i: int|
            0 <= i < triggers.len() && found.trigger == #[trigger] triggers[i],
{
    lemma_first_exact(normalized(content), candidates_of(triggers), 0);
    lemma_first_contains(normalized(content), candidates_of(triggers), 0);
}

/// The same from the event on: where every trigger that may fire belongs to
/// a flow that names flows that shut it out, and one of those is found on the
/// session whenever the store is asked, the event starts no execution.
pub proof fn lemma_excluded_flows_start_nothing(
    bot_id: Seq<char>,
    session_id: Seq<char>,
    from_me: bool,
    sender: Seq<char>,
    content: Seq<char>,
    triggers: Seq<TriggerView>,
    events: Seq<AdmissionEventView>,
    ids: Seq<Seq<char>>,
)
    requires
        forall|i: int| 0 <= i < triggers.len() ==> (#[trigger] triggers[i]).excluded().len() > 0,
        events.len() > 0,
        events[0] == AdmissionEventView::Triggers(triggers),
        finds_excluding_execution(
            admission_start(bot_id, session_id, from_me, sender, content).0,
            events,
            ids,
        ),
    ensures
        ({
            let (start, first) = admission_start(bot_id, session_id, from_me, sender, content);
            let seen = tally(seq![first] + admission_run(start, events, ids));
            seen.running == 0 && seen.scheduled == 0
        }),
{
    let (start, first) = admission_start(bot_id, session_id, from_me, sender, content);
    let (next, action) = admission_step(start, events[0], ids[0]);
    let rest = admission_run(next, events.drop_first(), ids.drop_first());
    lemma_matched_is_one_of(content, triggers);
    lemma_tally_cons(action, rest);
    lemma_tally_cons(first, admission_run(start, events, ids));
    if next.phase == AdmissionPhase::Finished {
        lemma_outlook(next, events.drop_first(), ids.drop_first());
    } else {
        lemma_excluded_flow_never_starts(next, events.drop_first(), ids.drop_first());
    }
}

/// Whether an admission in this phase holds the lock and has not yet asked
/// for it to be given back.
pub open spec fn holds_lock(phase: AdmissionPhase) -> bool {
    match phase {
        AdmissionPhase::ReadingLastStart
        | AdmissionPhase::CountingExecutions
        | AdmissionPhase::CountingExcluded
        | AdmissionPhase::InsertingRunning
        | AdmissionPhase::InsertingFailed(_) => true,
        _ => false,
    }
}

/// Whether an admission is in a state that `process_incoming_message` and
/// `advance` can lead to: it knows its trigger from the request for the lock
/// on.
pub open spec fn coherent(s: AdmissionView) -> bool {
    s.phase == AdmissionPhase::FetchingTriggers || s.phase == AdmissionPhase::Finished
        || s.trigger is Some
}

/// Coherence holds at the start and is kept by every step.
pub proof fn lemma_coherence(
    bot_id: Seq<char>,
    session_id: Seq<char>,
    from_me: bool,
    sender: Seq<char>,
    content: Seq<char>,
    s: AdmissionView,
    e: AdmissionEventView,
    fresh_id: Seq<char>,
)
    ensures
        coherent(admission_start(bot_id, session_id, from_me, sender, content).0),
        coherent(s) ==> coherent(admission_step(s, e, fresh_id).0),
{
}

/// The lock is held only while the rules are tried and the row is written,
/// and it is always given back: an admission that holds the lock does not
/// end, and does not start the scheduler, before it has asked for the release
/// of the very key it locked. The grant of the lock is the only way into
/// holding it.
pub proof fn lemma_lock_is_given_back(s: AdmissionView, e: AdmissionEventView, fresh_id: Seq<char>)
    requires
        coherent(s),
    ensures
        ({
            let (next, action) = admission_step(s, e, fresh_id);
            &&& holds_lock(s.phase) ==> {
                ||| holds_lock(next.phase) && !(action is ReleaseLock) && !(action is Finish)
                    && !(action is Schedule)
                ||| (next.phase is Unlocking || next.phase is UnlockingAdmitted) && action
                    == (AdmissionActionView::ReleaseLock {
                    key: lock_key_of(s.session_id, s.trigger->0.flow_id),
                })
            }
            &&& !holds_lock(s.phase) && holds_lock(next.phase) ==> s.phase
                == AdmissionPhase::Locking && e == AdmissionEventView::Lock(true)
            &&& action is Schedule ==> s.phase == AdmissionPhase::UnlockingAdmitted
            &&& next.session_id == s.session_id
            &&& s.phase != AdmissionPhase::FetchingTriggers ==> next.trigger == s.trigger
        }),
{
}

} // verus!
