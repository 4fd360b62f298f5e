//! Admission: from an event to at most one new execution.
//!
//! Admission is a conversation with the store and the lock service. The
//! caller starts it with `process_incoming_message`, performs the action it
//! is handed, and reports what happened with `Admission::advance`, until the
//! action is `Finish` or `Schedule`.

use vstd::prelude::*;
use vstd::string::StringExecFns;

use crate::matcher::{find_match, matched};
use crate::models::db::{copy_texts, Trigger, TriggerScope, TriggerView};
use crate::text::{decimal, push_decimal, trim_text, trimmed};

verus! {

/// For how many seconds the lock service keeps an admission lock that nobody
/// releases.
pub const LOCK_TTL_SECONDS: u64 = 30;

/// The status of an execution.
#[derive(Debug, Clone, Copy, PartialEq, Eq, Structural)]
pub enum ExecutionStatus {
    RUNNING,
    COMPLETED,
    FAILED,
}

impl ExecutionStatus {
    /// The name of the variant as the store spells it.
    pub open spec fn name(self) -> Seq<char> {
        match self {
            ExecutionStatus::RUNNING => "RUNNING"@,
            ExecutionStatus::COMPLETED => "COMPLETED"@,
            ExecutionStatus::FAILED => "FAILED"@,
        }
    }

    pub fn as_str(&self) -> (s: &'static str)
        ensures
            s@ == self.name(),
    {
        match self {
            ExecutionStatus::RUNNING => "RUNNING",
            ExecutionStatus::COMPLETED => "COMPLETED",
            ExecutionStatus::FAILED => "FAILED",
        }
    }
}

/// Why an admission was turned down.
#[derive(Debug, Clone, Copy, PartialEq, Eq, Structural)]
pub enum Rejection {
    /// The flow last started on this session at `started_at_ms`, less than
    /// `cooldown_ms` before `now_ms`.
    Cooldown { now_ms: i64, started_at_ms: i64, cooldown_ms: i32 },
    /// The flow has started `count` times on this session and may start
    /// `limit` times.
    UsageLimit { count: i64, limit: i32 },
    /// A flow that shuts this one out has started on this session.
    Exclusive,
}

impl Rejection {
    /// The reason as the failed execution records it.
    pub open spec fn text(self) -> Seq<char> {
        match self {
            Rejection::Cooldown { now_ms, started_at_ms, cooldown_ms } => "Cooldown active ("@
                + decimal(now_ms - started_at_ms) + "/"@ + decimal(cooldown_ms as int) + "ms)"@,
            Rejection::UsageLimit { count, limit } => "Usage limit reached ("@ + decimal(
                count as int,
            ) + "/"@ + decimal(limit as int) + ")"@,
            Rejection::Exclusive => "Mutually exclusive flow already executed"@,
        }
    }

    /// The reason as the failed execution records it.
    pub fn message(&self) -> (words: String)
        ensures
            words@ == self.text(),
    {
        match self {
            Rejection::Cooldown { now_ms, started_at_ms, cooldown_ms } => {
                let mut words = "Cooldown active (".to_owned();
                push_decimal(&mut words, *now_ms as i128 - *started_at_ms as i128);
                words.append("/");
                push_decimal(&mut words, *cooldown_ms as i128);
                words.append("ms)");
                words
            },
            Rejection::UsageLimit { count, limit } => {
                let mut words = "Usage limit reached (".to_owned();
                push_decimal(&mut words, *count as i128);
                words.append("/");
                push_decimal(&mut words, *limit as i128);
                words.append(")");
                words
            },
            Rejection::Exclusive => "Mutually exclusive flow already executed".to_owned(),
        }
    }
}

/// The key under which admissions of one flow on one session exclude each
/// other.
pub open spec fn lock_key_of(session_id: Seq<char>, flow_id: Seq<char>) -> Seq<char> {
    "flow:lock:"@ + session_id + ":"@ + flow_id
}

/// The key under which admissions of one flow on one session exclude each
/// other.
pub fn lock_key(session_id: &str, flow_id: &str) -> (key: String)
    ensures
        key@ == lock_key_of(session_id@, flow_id@),
{
    let mut key = "flow:lock:".to_owned();
    key.append(session_id);
    key.append(":");
    key.append(flow_id);
    key
}

/// An execution as it is inserted. It starts at step zero with an empty
/// variable context. The store stamps it with its own clock: when it started
/// and was updated, and, for one that is born failed, when it completed.
#[derive(Debug, PartialEq, Eq)]
pub struct NewExecution {
    pub id: String,
    pub session_id: String,
    pub flow_id: String,
    pub platform_user_id: String,
    pub status: ExecutionStatus,
    pub current_step: i32,
    pub error: Option<String>,
    pub trigger: String,
}

/// The mathematical value of a `NewExecution`.
pub struct NewExecutionView {
    pub id: Seq<char>,
    pub session_id: Seq<char>,
    pub flow_id: Seq<char>,
    pub platform_user_id: Seq<char>,
    pub status: ExecutionStatus,
    pub current_step: int,
    pub error: Option<Seq<char>>,
    pub trigger: Seq<char>,
}

impl View for NewExecution {
    type V = NewExecutionView;

    open spec fn view(&self) -> NewExecutionView {
        NewExecutionView {
            id: self.id@,
            session_id: self.session_id@,
            flow_id: self.flow_id@,
            platform_user_id: self.platform_user_id@,
            status: self.status,
            current_step: self.current_step as int,
            error: self.error.deep_view(),
            trigger: self.trigger@,
        }
    }
}

/// The row of an execution that was admitted: running, for the sender, with
/// the keyword that opened it.
pub open spec fn running_row(
    id: Seq<char>,
    session_id: Seq<char>,
    flow_id: Seq<char>,
    sender: Seq<char>,
    keyword: Seq<char>,
) -> NewExecutionView {
    NewExecutionView {
        id,
        session_id,
        flow_id,
        platform_user_id: sender,
        status: ExecutionStatus::RUNNING,
        current_step: 0,
        error: None,
        trigger: keyword,
    }
}

/// The row that records an admission that was turned down: failed, with the
/// reason as its error.
pub open spec fn failed_row(
    id: Seq<char>,
    session_id: Seq<char>,
    flow_id: Seq<char>,
    sender: Seq<char>,
    keyword: Seq<char>,
    reason: Seq<char>,
) -> NewExecutionView {
    NewExecutionView {
        id,
        session_id,
        flow_id,
        platform_user_id: sender,
        status: ExecutionStatus::FAILED,
        current_step: 0,
        error: Some(reason),
        trigger: keyword,
    }
}

/// `uuid::Uuid::new_v4` and the `Display` of `Uuid`: a random identity in
/// hyphenated form, which is 36 characters long. Believed of uuid, not proved.
/// The call gives up only where the operating system has no randomness.
#[verifier::external_body]
fn fresh_id() -> (id: String)
    ensures
        id@.len() == 36,
{
    uuid::Uuid::new_v4().to_string()
}

/// The row of an admitted execution under the identity `id`.
pub fn running_execution(
    id: String,
    session_id: &str,
    flow_id: &str,
    sender: &str,
    trigger_keyword: &str,
) -> (row: NewExecution)
    ensures
        row@ == running_row(id@, session_id@, flow_id@, sender@, trigger_keyword@),
{
    NewExecution {
        id,
        session_id: session_id.to_owned(),
        flow_id: flow_id.to_owned(),
        platform_user_id: sender.to_owned(),
        status: ExecutionStatus::RUNNING,
        current_step: 0,
        error: None,
        trigger: trigger_keyword.to_owned(),
    }
}

/// The row that records a turned-down admission under the identity `id`.
pub fn failed_execution(
    id: String,
    session_id: &str,
    flow_id: &str,
    sender: &str,
    trigger_keyword: &str,
    error_msg: &str,
) -> (row: NewExecution)
    ensures
        row@ == failed_row(
            id@,
            session_id@,
            flow_id@,
            sender@,
            trigger_keyword@,
            error_msg@,
        ),
{
    NewExecution {
        id,
        session_id: session_id.to_owned(),
        flow_id: flow_id.to_owned(),
        platform_user_id: sender.to_owned(),
        status: ExecutionStatus::FAILED,
        current_step: 0,
        error: Some(error_msg.to_owned()),
        trigger: trigger_keyword.to_owned(),
    }
}

/// The row that records a turned-down admission, under a fresh identity.
pub fn create_failed_execution(
    session_id: &str,
    flow_id: &str,
    sender: &str,
    trigger_keyword: &str,
    error_msg: &str,
) -> (row: NewExecution)
    ensures
        row@ == failed_row(
            row@.id,
            session_id@,
            flow_id@,
            sender@,
            trigger_keyword@,
            error_msg@,
        ),
        row@.id.len() == 36,
{
    failed_execution(fresh_id(), session_id, flow_id, sender, trigger_keyword, error_msg)
}

/// How an admission ended.
#[derive(Debug, Clone, Copy, PartialEq, Eq, Structural)]
pub enum AdmissionOutcome {
    /// The text of the event is empty once trimmed.
    EmptyContent,
    /// No trigger matches the text.
    NoTrigger,
    /// Another admission of the same flow on the same session holds the lock.
    /// Nothing is recorded.
    LockDenied,
    /// A rule turned the admission down. A failed execution records it.
    Rejected(Rejection),
    /// The store failed, or reported something that was not asked for.
    StoreFailed,
    /// The admission had ended before.
    AlreadyFinished,
}

/// Where an admission stands: what it has asked for and waits to hear of.
#[derive(Debug, Clone, Copy, PartialEq, Eq, Structural)]
pub enum AdmissionPhase {
    /// Asked for the triggers that may fire.
    FetchingTriggers,
    /// Asked for the lock.
    Locking,
    /// Holds the lock; asked when the flow last started on the session.
    ReadingLastStart,
    /// Holds the lock; asked how often the flow has started on the session.
    CountingExecutions,
    /// Holds the lock; asked how often a flow that shuts this one out has
    /// started on the session.
    CountingExcluded,
    /// Holds the lock; asked for the running execution to be inserted.
    InsertingRunning,
    /// Holds the lock; asked for the failed execution to be inserted.
    InsertingFailed(Rejection),
    /// Asked for the lock to be released after the execution was inserted.
    UnlockingAdmitted,
    /// Asked for the lock to be released after anything else.
    Unlocking(AdmissionOutcome),
    /// Over.
    Finished,
}

/// An admission under way.
#[derive(Debug, PartialEq, Eq)]
pub struct Admission {
    pub bot_id: String,
    pub session_id: String,
    pub sender: String,
    pub content: String,
    pub from_me: bool,
    pub phase: AdmissionPhase,
    /// The trigger that fired, from the request for the lock on.
    pub trigger: Option<Trigger>,
    /// The identity of the execution that this admission inserts, from the
    /// grant of the lock on.
    pub execution_id: String,
}

/// The mathematical value of an `Admission`.
pub struct AdmissionView {
    pub bot_id: Seq<char>,
    pub session_id: Seq<char>,
    pub sender: Seq<char>,
    pub content: Seq<char>,
    pub from_me: bool,
    pub phase: AdmissionPhase,
    pub trigger: Option<TriggerView>,
    pub execution_id: Seq<char>,
}

impl View for Admission {
    type V = AdmissionView;

    open spec fn view(&self) -> AdmissionView {
        AdmissionView {
            bot_id: self.bot_id@,
            session_id: self.session_id@,
            sender: self.sender@,
            content: self.content@,
            from_me: self.from_me,
            phase: self.phase,
            trigger: self.trigger.deep_view(),
            execution_id: self.execution_id@,
        }
    }
}

/// What the caller reports to an admission.
#[derive(Debug, PartialEq, Eq)]
pub enum AdmissionEvent {
    /// The triggers that the store holds for the event, in its order.
    Triggers(Vec<Trigger>),
    /// Whether the lock was granted.
    Lock(bool),
    /// When the flow last started on the session, if ever, and the time now,
    /// both in milliseconds since the Unix epoch.
    LastStart { started_at: Option<i64>, now: i64 },
    /// The number that was asked for.
    Count(i64),
    /// The action was carried out.
    Done,
    /// The action failed.
    Failed,
}

/// The mathematical value of an `AdmissionEvent`.
pub enum AdmissionEventView {
    Triggers(Seq<TriggerView>),
    Lock(bool),
    LastStart { started_at: Option<i64>, now: i64 },
    Count(i64),
    Done,
    Failed,
}

impl View for AdmissionEvent {
    type V = AdmissionEventView;

    open spec fn view(&self) -> AdmissionEventView {
        match self {
            AdmissionEvent::Triggers(triggers) => AdmissionEventView::Triggers(
                triggers.deep_view(),
            ),
            AdmissionEvent::Lock(granted) => AdmissionEventView::Lock(*granted),
            AdmissionEvent::LastStart { started_at, now } => AdmissionEventView::LastStart {
                started_at: *started_at,
                now: *now,
            },
            AdmissionEvent::Count(n) => AdmissionEventView::Count(*n),
            AdmissionEvent::Done => AdmissionEventView::Done,
            AdmissionEvent::Failed => AdmissionEventView::Failed,
        }
    }
}

/// What an admission asks its caller to do next. The reads and the insert of
/// the running execution, from the grant of the lock on, belong to one
/// transaction of the store, which the insert commits.
#[derive(Debug, PartialEq, Eq)]
pub enum AdmissionAction {
    /// Fetch the active triggers whose scope is one of `scopes` and that are
    /// bound to the session, or to the bot and to no session.
    FetchTriggers { scopes: (TriggerScope, TriggerScope), session_id: String, bot_id: String },
    /// Set `key` in the lock service if it is absent, to expire after
    /// `ttl_seconds`.
    AcquireLock { key: String, ttl_seconds: u64 },
    /// Read when the latest execution of the flow on the session started.
    ReadLastStart { session_id: String, flow_id: String },
    /// Count the executions of the flow on the session, whatever their status.
    CountExecutions { session_id: String, flow_id: String },
    /// Count the executions on the session of any of `flow_ids`.
    CountExcluded { session_id: String, flow_ids: Vec<String> },
    /// Insert `row` and commit.
    InsertRunning { row: NewExecution },
    /// Roll the transaction back, then insert `row` on its own, so that it
    /// stays.
    InsertFailed { row: NewExecution },
    /// Delete `key` from the lock service, rolling back first what is open.
    ReleaseLock { key: String },
    /// Start the scheduler on the execution at this step. The admission is
    /// over, and the execution was admitted.
    Schedule { execution_id: String, step_order: i32 },
    /// Nothing more. The admission is over.
    Finish { outcome: AdmissionOutcome },
}

/// The mathematical value of an `AdmissionAction`.
pub enum AdmissionActionView {
    FetchTriggers { scopes: (TriggerScope, TriggerScope), session_id: Seq<char>, bot_id: Seq<char> },
    AcquireLock { key: Seq<char>, ttl_seconds: u64 },
    ReadLastStart { session_id: Seq<char>, flow_id: Seq<char> },
    CountExecutions { session_id: Seq<char>, flow_id: Seq<char> },
    CountExcluded { session_id: Seq<char>, flow_ids: Seq<Seq<char>> },
    InsertRunning { row: NewExecutionView },
    InsertFailed { row: NewExecutionView },
    ReleaseLock { key: Seq<char> },
    Schedule { execution_id: Seq<char>, step_order: int },
    Finish { outcome: AdmissionOutcome },
}

impl View for AdmissionAction {
    type V = AdmissionActionView;

    open spec fn view(&self) -> AdmissionActionView {
        match self {
            AdmissionAction::FetchTriggers {
                scopes,
                session_id,
                bot_id,
            } => AdmissionActionView::FetchTriggers {
                scopes: *scopes,
                session_id: session_id@,
                bot_id: bot_id@,
            },
            AdmissionAction::AcquireLock { key, ttl_seconds } => AdmissionActionView::AcquireLock {
                key: key@,
                ttl_seconds: *ttl_seconds,
            },
            AdmissionAction::ReadLastStart {
                session_id,
                flow_id,
            } => AdmissionActionView::ReadLastStart { session_id: session_id@, flow_id: flow_id@ },
            AdmissionAction::CountExecutions {
                session_id,
                flow_id,
            } => AdmissionActionView::CountExecutions {
                session_id: session_id@,
                flow_id: flow_id@,
            },
            AdmissionAction::CountExcluded {
                session_id,
                flow_ids,
            } => AdmissionActionView::CountExcluded {
                session_id: session_id@,
                flow_ids: flow_ids.deep_view(),
            },
            AdmissionAction::InsertRunning { row } => AdmissionActionView::InsertRunning {
                row: row@,
            },
            AdmissionAction::InsertFailed { row } => AdmissionActionView::InsertFailed {
                row: row@,
            },
            AdmissionAction::ReleaseLock { key } => AdmissionActionView::ReleaseLock { key: key@ },
            AdmissionAction::Schedule {
                execution_id,
                step_order,
            } => AdmissionActionView::Schedule {
                execution_id: execution_id@,
                step_order: *step_order as int,
            },
            AdmissionAction::Finish { outcome } => AdmissionActionView::Finish {
                outcome: *outcome,
            },
        }
    }
}

/// The scopes of the triggers that an event of this direction may fire.
pub open spec fn scopes_for(from_me: bool) -> (TriggerScope, TriggerScope) {
    if from_me {
        (TriggerScope::OUTGOING, TriggerScope::BOTH)
    } else {
        (TriggerScope::INCOMING, TriggerScope::BOTH)
    }
}

/// The scopes of the triggers that an event of this direction may fire.
pub fn valid_scopes(from_me: bool) -> (scopes: (TriggerScope, TriggerScope))
    ensures
        scopes == scopes_for(from_me),
{
    if from_me {
        (TriggerScope::OUTGOING, TriggerScope::BOTH)
    } else {
        (TriggerScope::INCOMING, TriggerScope::BOTH)
    }
}

/// The admission ends with `outcome`.
pub open spec fn finish(s: AdmissionView, outcome: AdmissionOutcome) -> (
    AdmissionView,
    AdmissionActionView,
) {
    (
        AdmissionView { phase: AdmissionPhase::Finished, ..s },
        AdmissionActionView::Finish { outcome },
    )
}

/// The admission gives the lock back and will then end with `outcome`.
pub open spec fn release(s: AdmissionView, trigger: TriggerView, outcome: AdmissionOutcome) -> (
    AdmissionView,
    AdmissionActionView,
) {
    (
        AdmissionView { phase: AdmissionPhase::Unlocking(outcome), ..s },
        AdmissionActionView::ReleaseLock { key: lock_key_of(s.session_id, trigger.flow_id) },
    )
}

/// The admission is turned down for `reason` and records it.
pub open spec fn reject(s: AdmissionView, trigger: TriggerView, reason: Rejection) -> (
    AdmissionView,
    AdmissionActionView,
) {
    (
        AdmissionView { phase: AdmissionPhase::InsertingFailed(reason), ..s },
        AdmissionActionView::InsertFailed {
            row: failed_row(
                s.execution_id,
                s.session_id,
                trigger.flow_id,
                s.sender,
                trigger.keyword,
                reason.text(),
            ),
        },
    )
}

/// Every rule has passed: the execution is inserted.
pub open spec fn accept(s: AdmissionView, trigger: TriggerView) -> (
    AdmissionView,
    AdmissionActionView,
) {
    (
        AdmissionView { phase: AdmissionPhase::InsertingRunning, ..s },
        AdmissionActionView::InsertRunning {
            row: running_row(
                s.execution_id,
                s.session_id,
                trigger.flow_id,
                s.sender,
                trigger.keyword,
            ),
        },
    )
}

/// The rule on flows that shut this one out, where the flow names any.
pub open spec fn check_exclusion(s: AdmissionView, trigger: TriggerView) -> (
    AdmissionView,
    AdmissionActionView,
) {
    if trigger.excluded().len() > 0 {
        (
            AdmissionView { phase: AdmissionPhase::CountingExcluded, ..s },
            AdmissionActionView::CountExcluded {
                session_id: s.session_id,
                flow_ids: trigger.excluded(),
            },
        )
    } else {
        accept(s, trigger)
    }
}

/// The rule on how often the flow may start, where the flow has a limit;
/// then the rules after it.
pub open spec fn check_usage(s: AdmissionView, trigger: TriggerView) -> (
    AdmissionView,
    AdmissionActionView,
) {
    if trigger.limit() > 0 {
        (
            AdmissionView { phase: AdmissionPhase::CountingExecutions, ..s },
            AdmissionActionView::CountExecutions {
                session_id: s.session_id,
                flow_id: trigger.flow_id,
            },
        )
    } else {
        check_exclusion(s, trigger)
    }
}

/// The rule on the time since the flow last started, where the flow has a
/// cooldown; then the rules after it.
pub open spec fn check_cooldown(s: AdmissionView, trigger: TriggerView) -> (
    AdmissionView,
    AdmissionActionView,
) {
    if trigger.cooldown() > 0 {
        (
            AdmissionView { phase: AdmissionPhase::ReadingLastStart, ..s },
            AdmissionActionView::ReadLastStart {
                session_id: s.session_id,
                flow_id: trigger.flow_id,
            },
        )
    } else {
        check_usage(s, trigger)
    }
}

/// What an admission that holds a trigger does on an event. `fresh_id` is
/// the identity that the execution gets where the event is the grant of the
/// lock.
pub open spec fn locked_step(
    s: AdmissionView,
    trigger: TriggerView,
    e: AdmissionEventView,
    fresh_id: Seq<char>,
) -> (AdmissionView, AdmissionActionView) {
    match s.phase {
        AdmissionPhase::Locking => match e {
            AdmissionEventView::Lock(true) => check_cooldown(
                AdmissionView { execution_id: fresh_id, ..s },
                trigger,
            ),
            _ => finish(s, AdmissionOutcome::LockDenied),
        },
        AdmissionPhase::ReadingLastStart => match e {
            AdmissionEventView::LastStart { started_at: Some(started), now } => if now - started
                < trigger.cooldown() {
                reject(
                    s,
                    trigger,
                    Rejection::Cooldown {
                        now_ms: now,
                        started_at_ms: started,
                        cooldown_ms: trigger.cooldown() as i32,
                    },
                )
            } else {
                check_usage(s, trigger)
            },
            AdmissionEventView::LastStart { started_at: None, now } => check_usage(s, trigger),
            _ => release(s, trigger, AdmissionOutcome::StoreFailed),
        },
        AdmissionPhase::CountingExecutions => match e {
            AdmissionEventView::Count(count) => if count >= trigger.limit() {
                reject(
                    s,
                    trigger,
                    Rejection::UsageLimit { count, limit: trigger.limit() as i32 },
                )
            } else {
                check_exclusion(s, trigger)
            },
            _ => release(s, trigger, AdmissionOutcome::StoreFailed),
        },
        AdmissionPhase::CountingExcluded => match e {
            AdmissionEventView::Count(count) => if count > 0 {
                reject(s, trigger, Rejection::Exclusive)
            } else {
                accept(s, trigger)
            },
            _ => release(s, trigger, AdmissionOutcome::StoreFailed),
        },
        AdmissionPhase::InsertingRunning => match e {
            AdmissionEventView::Done => (
                AdmissionView { phase: AdmissionPhase::UnlockingAdmitted, ..s },
                AdmissionActionView::ReleaseLock {
                    key: lock_key_of(s.session_id, trigger.flow_id),
                },
            ),
            _ => release(s, trigger, AdmissionOutcome::StoreFailed),
        },
        AdmissionPhase::InsertingFailed(reason) => release(
            s,
            trigger,
            AdmissionOutcome::Rejected(reason),
        ),
        AdmissionPhase::UnlockingAdmitted => (
            AdmissionView { phase: AdmissionPhase::Finished, ..s },
            AdmissionActionView::Schedule { execution_id: s.execution_id, step_order: 0 },
        ),
        AdmissionPhase::Unlocking(outcome) => finish(s, outcome),
        AdmissionPhase::FetchingTriggers => finish(s, AdmissionOutcome::StoreFailed),
        AdmissionPhase::Finished => finish(s, AdmissionOutcome::AlreadyFinished),
    }
}

/// What an admission in state `s` does when it hears of `e`: the state it
/// moves to and the action it asks for.
///
/// The first trigger that the event's text fires is locked for. Under the
/// lock the flow's rules are tried in this order, each only where the flow
/// sets it: the cooldown, against the latest start of any execution of the
/// flow on the session; the usage limit, against the count of all of them;
/// the flows that shut this one out. The first rule that fails has a failed
/// execution inserted; where none fails, the running execution is inserted.
/// Either way the lock is then given back. A refused lock records nothing.
pub open spec fn admission_step(s: AdmissionView, e: AdmissionEventView, fresh_id: Seq<char>) -> (
    AdmissionView,
    AdmissionActionView,
) {
    match s.phase {
        AdmissionPhase::Finished => finish(s, AdmissionOutcome::AlreadyFinished),
        AdmissionPhase::FetchingTriggers => match e {
            AdmissionEventView::Triggers(triggers) => match matched(s.content, triggers) {
                Some(found) => (
                    AdmissionView {
                        phase: AdmissionPhase::Locking,
                        trigger: Some(found.trigger),
                        ..s
                    },
                    AdmissionActionView::AcquireLock {
                        key: lock_key_of(s.session_id, found.trigger.flow_id),
                        ttl_seconds: LOCK_TTL_SECONDS,
                    },
                ),
                None => finish(s, AdmissionOutcome::NoTrigger),
            },
            _ => finish(s, AdmissionOutcome::StoreFailed),
        },
        _ => match s.trigger {
            Some(trigger) => locked_step(s, trigger, e, fresh_id),
            None => finish(s, AdmissionOutcome::StoreFailed),
        },
    }
}

/// The state and the first action of the admission of an event.
pub open spec fn admission_start(
    bot_id: Seq<char>,
    session_id: Seq<char>,
    from_me: bool,
    sender: Seq<char>,
    content: Seq<char>,
) -> (AdmissionView, AdmissionActionView) {
    let s = AdmissionView {
        bot_id,
        session_id,
        sender,
        content,
        from_me,
        phase: AdmissionPhase::FetchingTriggers,
        trigger: None,
        execution_id: Seq::empty(),
    };
    if trimmed(content).len() == 0 {
        finish(s, AdmissionOutcome::EmptyContent)
    } else {
        (s, AdmissionActionView::FetchTriggers { scopes: scopes_for(from_me), session_id, bot_id })
    }
}

/// Starts the admission of an event seen on a session of a bot: its text,
/// who sent it, and whether the bot's own account did. `identifier`, the
/// account's address on the platform, plays no part. An event whose text is
/// empty once trimmed ends the admission at once.
pub fn process_incoming_message(
    bot_id: &str,
    session_id: &str,
    identifier: &str,
    from_me: bool,
    sender: &str,
    content: &str,
) -> (start: (Admission, AdmissionAction))
    ensures
        (start.0@, start.1@) == admission_start(
            bot_id@,
            session_id@,
            from_me,
            sender@,
            content@,
        ),
{
    let blank = trim_text(content).is_empty();
    let state = Admission {
        bot_id: bot_id.to_owned(),
        session_id: session_id.to_owned(),
        sender: sender.to_owned(),
        content: content.to_owned(),
        from_me,
        phase: if blank {
            AdmissionPhase::Finished
        } else {
            AdmissionPhase::FetchingTriggers
        },
        trigger: None,
        execution_id: String::new(),
    };
    let action = if blank {
        AdmissionAction::Finish { outcome: AdmissionOutcome::EmptyContent }
    } else {
        AdmissionAction::FetchTriggers {
            scopes: valid_scopes(from_me),
            session_id: session_id.to_owned(),
            bot_id: bot_id.to_owned(),
        }
    };
    (state, action)
}

fn cooldown_of(trigger: &Trigger) -> (ms: i32)
    ensures
        ms == trigger@.cooldown(),
{
    match trigger.cooldown_ms {
        Some(ms) => ms,
        None => 0,
    }
}

fn limit_of(trigger: &Trigger) -> (limit: i32)
    ensures
        limit == trigger@.limit(),
{
    match trigger.usage_limit {
        Some(limit) => limit,
        None => 0,
    }
}

fn excluded_of(trigger: &Trigger) -> (flows: Vec<String>)
    ensures
        flows.deep_view() == trigger@.excluded(),
{
    match &trigger.excludes_flows {
        Some(flows) => copy_texts(flows),
        None => {
            let flows: Vec<String> = Vec::new();
            assert(flows.deep_view() =~= Seq::<Seq<char>>::empty());
            flows
        },
    }
}

impl Admission {
    fn finished(self, outcome: AdmissionOutcome) -> (next: (Admission, AdmissionAction))
        ensures
            (next.0@, next.1@) == finish(self@, outcome),
    {
        (
            Admission { phase: AdmissionPhase::Finished, ..self },
            AdmissionAction::Finish { outcome },
        )
    }

    fn fired(&self) -> (trigger: &Trigger)
        requires
            self.trigger is Some,
        ensures
            self@.trigger == Some(trigger@),
    {
        self.trigger.as_ref().unwrap()
    }

    fn own_lock_key(&self) -> (key: String)
        requires
            self.trigger is Some,
        ensures
            key@ == lock_key_of(self@.session_id, self@.trigger->0.flow_id),
    {
        lock_key(self.session_id.as_str(), self.fired().flow_id.as_str())
    }

    fn released(self, outcome: AdmissionOutcome) -> (next: (Admission, AdmissionAction))
        requires
            self.trigger is Some,
        ensures
            (next.0@, next.1@) == release(self@, self@.trigger->0, outcome),
    {
        let key = self.own_lock_key();
        (
            Admission { phase: AdmissionPhase::Unlocking(outcome), ..self },
            AdmissionAction::ReleaseLock { key },
        )
    }

    fn rejected(self, reason: Rejection) -> (next: (Admission, AdmissionAction))
        requires
            self.trigger is Some,
        ensures
            (next.0@, next.1@) == reject(self@, self@.trigger->0, reason),
    {
        let words = reason.message();
        let trigger = self.fired();
        let row = failed_execution(
            self.execution_id.clone(),
            self.session_id.as_str(),
            trigger.flow_id.as_str(),
            self.sender.as_str(),
            trigger.keyword.as_str(),
            words.as_str(),
        );
        (
            Admission { phase: AdmissionPhase::InsertingFailed(reason), ..self },
            AdmissionAction::InsertFailed { row },
        )
    }

    fn accepted(self) -> (next: (Admission, AdmissionAction))
        requires
            self.trigger is Some,
        ensures
            (next.0@, next.1@) == accept(self@, self@.trigger->0),
    {
        let trigger = self.fired();
        let row = running_execution(
            self.execution_id.clone(),
            self.session_id.as_str(),
            trigger.flow_id.as_str(),
            self.sender.as_str(),
            trigger.keyword.as_str(),
        );
        (
            Admission { phase: AdmissionPhase::InsertingRunning, ..self },
            AdmissionAction::InsertRunning { row },
        )
    }

    fn exclusion_checked(self) -> (next: (Admission, AdmissionAction))
        requires
            self.trigger is Some,
        ensures
            (next.0@, next.1@) == check_exclusion(self@, self@.trigger->0),
    {
        let flow_ids = excluded_of(self.fired());
        if flow_ids.len() > 0 {
            let session_id = self.session_id.clone();
            (
                Admission { phase: AdmissionPhase::CountingExcluded, ..self },
                AdmissionAction::CountExcluded { session_id, flow_ids },
            )
        } else {
            self.accepted()
        }
    }

    fn usage_checked(self) -> (next: (Admission, AdmissionAction))
        requires
            self.trigger is Some,
        ensures
            (next.0@, next.1@) == check_usage(self@, self@.trigger->0),
    {
        if limit_of(self.fired()) > 0 {
            let session_id = self.session_id.clone();
            let flow_id = self.fired().flow_id.clone();
            (
                Admission { phase: AdmissionPhase::CountingExecutions, ..self },
                AdmissionAction::CountExecutions { session_id, flow_id },
            )
        } else {
            self.exclusion_checked()
        }
    }

    fn cooldown_checked(self) -> (next: (Admission, AdmissionAction))
        requires
            self.trigger is Some,
        ensures
            (next.0@, next.1@) == check_cooldown(self@, self@.trigger->0),
    {
        if cooldown_of(self.fired()) > 0 {
            let session_id = self.session_id.clone();
            let flow_id = self.fired().flow_id.clone();
            (
                Admission { phase: AdmissionPhase::ReadingLastStart, ..self },
                AdmissionAction::ReadLastStart { session_id, flow_id },
            )
        } else {
            self.usage_checked()
        }
    }

    fn locked_advance(self, event: AdmissionEvent, fresh_id: String) -> (next: (
        Admission,
        AdmissionAction,
    ))
        requires
            self.trigger is Some,
        ensures
            (next.0@, next.1@) == locked_step(self@, self@.trigger->0, event@, fresh_id@),
    {
        match self.phase {
            AdmissionPhase::Locking => match event {
                AdmissionEvent::Lock(true) => {
                    let state = Admission { execution_id: fresh_id, ..self };
                    state.cooldown_checked()
                },
                _ => self.finished(AdmissionOutcome::LockDenied),
            },
            AdmissionPhase::ReadingLastStart => match event {
                AdmissionEvent::LastStart { started_at: Some(started), now } => {
                    let cooldown = cooldown_of(self.fired());
                    if (now as i128) - (started as i128) < cooldown as i128 {
                        self.rejected(
                            Rejection::Cooldown {
                                now_ms: now,
                                started_at_ms: started,
                                cooldown_ms: cooldown,
                            },
                        )
                    } else {
                        self.usage_checked()
                    }
                },
                AdmissionEvent::LastStart { started_at: None, now } => self.usage_checked(),
                _ => self.released(AdmissionOutcome::StoreFailed),
            },
            AdmissionPhase::CountingExecutions => match event {
                AdmissionEvent::Count(count) => {
                    let limit = limit_of(self.fired());
                    if count >= limit as i64 {
                        self.rejected(Rejection::UsageLimit { count, limit })
                    } else {
                        self.exclusion_checked()
                    }
                },
                _ => self.released(AdmissionOutcome::StoreFailed),
            },
            AdmissionPhase::CountingExcluded => match event {
                AdmissionEvent::Count(count) => {
                    if count > 0 {
                        self.rejected(Rejection::Exclusive)
                    } else {
                        self.accepted()
                    }
                },
                _ => self.released(AdmissionOutcome::StoreFailed),
            },
            AdmissionPhase::InsertingRunning => match event {
                AdmissionEvent::Done => {
                    let key = self.own_lock_key();
                    (
                        Admission { phase: AdmissionPhase::UnlockingAdmitted, ..self },
                        AdmissionAction::ReleaseLock { key },
                    )
                },
                _ => self.released(AdmissionOutcome::StoreFailed),
            },
            AdmissionPhase::InsertingFailed(reason) => self.released(
                AdmissionOutcome::Rejected(reason),
            ),
            AdmissionPhase::UnlockingAdmitted => {
                let execution_id = self.execution_id.clone();
                (
                    Admission { phase: AdmissionPhase::Finished, ..self },
                    AdmissionAction::Schedule { execution_id, step_order: 0 },
                )
            },
            AdmissionPhase::Unlocking(outcome) => self.finished(outcome),
            AdmissionPhase::FetchingTriggers => self.finished(AdmissionOutcome::StoreFailed),
            AdmissionPhase::Finished => self.finished(AdmissionOutcome::AlreadyFinished),
        }
    }

    /// Moves the admission on by one event. `fresh_id` becomes the identity
    /// of the execution where the event is the grant of the lock, and is not
    /// looked at otherwise.
    pub fn advance_with(self, event: AdmissionEvent, fresh_id: String) -> (next: (
        Admission,
        AdmissionAction,
    ))
        ensures
            (next.0@, next.1@) == admission_step(self@, event@, fresh_id@),
    {
        match self.phase {
            AdmissionPhase::Finished => self.finished(AdmissionOutcome::AlreadyFinished),
            AdmissionPhase::FetchingTriggers => match event {
                AdmissionEvent::Triggers(triggers) => {
                    match find_match(self.content.as_str(), triggers.as_slice()) {
                        Some(found) => {
                            let key = lock_key(
                                self.session_id.as_str(),
                                found.trigger.flow_id.as_str(),
                            );
                            (
                                Admission {
                                    phase: AdmissionPhase::Locking,
                                    trigger: Some(found.trigger),
                                    ..self
                                },
                                AdmissionAction::AcquireLock { key, ttl_seconds: LOCK_TTL_SECONDS },
                            )
                        },
                        None => self.finished(AdmissionOutcome::NoTrigger),
                    }
                },
                _ => self.finished(AdmissionOutcome::StoreFailed),
            },
            _ => if self.trigger.is_some() {
                self.locked_advance(event, fresh_id)
            } else {
                self.finished(AdmissionOutcome::StoreFailed)
            },
        }
    }

    /// Moves the admission on by one event. Where the event is the grant of
    /// the lock, the execution gets a fresh random identity.
    pub fn advance(self, event: AdmissionEvent) -> (next: (Admission, AdmissionAction))
        ensures
            exists|fresh_id: Seq<char>|
                fresh_id.len() == (if event@ == AdmissionEventView::Lock(true) {
                    36nat
                } else {
                    0nat
                }) && #[trigger] admission_step(self@, event@, fresh_id) == (next.0@, next.1@),
    {
        let fresh = match &event {
            AdmissionEvent::Lock(true) => fresh_id(),
            _ => String::new(),
        };
        self.advance_with(event, fresh)
    }
}

} // verus!
