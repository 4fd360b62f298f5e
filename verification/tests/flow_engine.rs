use agentic_core::flow_engine::admission::{
    create_failed_execution, failed_execution, lock_key, process_incoming_message,
    running_execution, valid_scopes, Admission, AdmissionAction, AdmissionEvent, AdmissionOutcome,
    AdmissionPhase, ExecutionStatus, NewExecution, Rejection, LOCK_TTL_SECONDS,
};
use agentic_core::flow_engine::pacing::{draw_jitter, final_delay, step_delay, variance_of};
use agentic_core::flow_engine::recovery::{recover_running_executions, ScheduleRequest};
use agentic_core::flow_engine::scheduler::{
    find_step, schedule_step, step_error_message, SchedulerAction, SchedulerEvent,
    SchedulerOutcome, SchedulerPhase, Scheduling,
};
use agentic_core::models::conditionals::OutgoingPayload;
use agentic_core::models::db::{
    Execution, MatchType, Platform, Session, SessionStatus, Step, StepType, Trigger, TriggerScope,
};
use agentic_core::processors::{execute_step, StepOutcome};

fn trigger(keyword: &str, match_type: MatchType) -> Trigger {
    Trigger {
        id: format!("trigger-{}", keyword),
        bot_id: "bot-1".to_string(),
        session_id: None,
        keyword: keyword.to_string(),
        match_type,
        is_active: true,
        flow_id: "flow-1".to_string(),
        created_at: 0,
        updated_at: 0,
        scope: TriggerScope::INCOMING,
        cooldown_ms: None,
        usage_limit: None,
        excludes_flows: None,
    }
}

fn step(order: i32, step_type: StepType, content: Option<&str>, media_url: Option<&str>) -> Step {
    Step {
        id: format!("step-{}", order),
        flow_id: "flow-1".to_string(),
        step_type,
        content: content.map(|s| s.to_string()),
        media_url: media_url.map(|s| s.to_string()),
        metadata: None,
        delay_ms: 0,
        jitter_pct: 0,
        order,
        created_at: 0,
        updated_at: 0,
    }
}

fn paced_step(order: i32, delay_ms: i32, jitter_pct: i32) -> Step {
    let mut s = step(order, StepType::TEXT, Some("hi"), None);
    s.delay_ms = delay_ms;
    s.jitter_pct = jitter_pct;
    s
}

fn execution(id: &str, status: &str, current_step: i32) -> Execution {
    Execution {
        id: id.to_string(),
        session_id: "sess-1".to_string(),
        flow_id: "flow-1".to_string(),
        platform_user_id: "user-1".to_string(),
        status: status.to_string(),
        current_step,
        variable_context: Some("{}".to_string()),
        started_at: 0,
        updated_at: 0,
        completed_at: None,
        error: None,
        trigger: Some("hello".to_string()),
    }
}

fn whatsapp_session() -> Session {
    Session {
        id: "sess-1".to_string(),
        platform: Platform::WHATSAPP,
        identifier: "5215512345678".to_string(),
        bot_id: "bot-1".to_string(),
        name: None,
        status: SessionStatus::CONNECTED,
        auth_data: None,
        created_at: 0,
        updated_at: 0,
    }
}

fn start(content: &str) -> (Admission, AdmissionAction) {
    process_incoming_message("bot-1", "sess-1", "5215512345678", false, "user-1", content)
}

/// An admission that holds the lock for `trigger`, with the action it asked for.
fn locked(trigger: Trigger) -> (Admission, AdmissionAction) {
    let (state, _) = start("hello");
    let (state, action) = state.advance(AdmissionEvent::Triggers(vec![trigger]));
    assert!(matches!(action, AdmissionAction::AcquireLock { .. }));
    state.advance(AdmissionEvent::Lock(true))
}

fn release_key(action: &AdmissionAction) -> String {
    match action {
        AdmissionAction::ReleaseLock { key } => key.clone(),
        other => panic!("expected a release, got {:?}", other),
    }
}

fn failed_row(action: AdmissionAction) -> NewExecution {
    match action {
        AdmissionAction::InsertFailed { row } => row,
        other => panic!("expected a failed row, got {:?}", other),
    }
}

fn running_row(action: AdmissionAction) -> NewExecution {
    match action {
        AdmissionAction::InsertRunning { row } => row,
        other => panic!("expected a running row, got {:?}", other),
    }
}

// ---- pacing ----

#[test]
fn variance_is_the_percentage_of_the_delay_rounded_down() {
    assert_eq!(variance_of(1000, 10), 100);
    assert_eq!(variance_of(1000, 100), 1000);
    assert_eq!(variance_of(999, 10), 99);
    assert_eq!(variance_of(5, 10), 0);
    assert_eq!(variance_of(0, 50), 0);
    assert_eq!(variance_of(1000, 0), 0);
    assert_eq!(variance_of(i32::MAX, 100), i32::MAX as i64);
}

#[test]
fn variance_is_zero_where_the_product_is_not_positive() {
    assert_eq!(variance_of(-1000, 10), 0);
    assert_eq!(variance_of(1000, -10), 0);
    assert_eq!(variance_of(-1000, -10), 100);
    assert_eq!(variance_of(i32::MIN, i32::MIN), (1i64 << 62) / 100);
}

#[test]
fn final_delay_is_the_sum_and_never_negative() {
    assert_eq!(final_delay(1000, 0), 1000);
    assert_eq!(final_delay(1000, 100), 1100);
    assert_eq!(final_delay(1000, -100), 900);
    assert_eq!(final_delay(1000, -1000), 0);
    assert_eq!(final_delay(1000, -1001), 0);
    assert_eq!(final_delay(0, 0), 0);
    assert_eq!(final_delay(-5, 0), 0);
    assert_eq!(final_delay(-5, 7), 2);
}

#[test]
fn final_delay_at_the_limits() {
    assert_eq!(final_delay(i32::MAX, i64::MAX), i32::MAX as u64 + i64::MAX as u64);
    assert_eq!(final_delay(i32::MIN, i64::MIN), 0);
    assert_eq!(final_delay(i32::MAX, i64::MIN), 0);
}

#[test]
fn jitter_stays_within_the_variance() {
    let mut seen_low = false;
    let mut seen_high = false;
    for _ in 0..2000 {
        let jitter = draw_jitter(1000, 10);
        assert!((-100..=100).contains(&jitter), "jitter {}", jitter);
        seen_low |= jitter < 0;
        seen_high |= jitter > 0;
    }
    assert!(seen_low && seen_high);
}

#[test]
fn jitter_is_zero_without_variance() {
    for _ in 0..50 {
        assert_eq!(draw_jitter(1000, 0), 0);
        assert_eq!(draw_jitter(0, 100), 0);
        assert_eq!(draw_jitter(5, 10), 0);
        assert_eq!(draw_jitter(-1000, 10), 0);
    }
}

#[test]
fn step_delay_stays_within_the_percentage() {
    let s = paced_step(0, 2000, 25);
    for _ in 0..1000 {
        let wait = step_delay(&s);
        assert!((1500..=2500).contains(&wait), "wait {}", wait);
    }
    assert_eq!(step_delay(&paced_step(0, 2000, 0)), 2000);
    assert_eq!(step_delay(&paced_step(0, 0, 100)), 0);
    for _ in 0..200 {
        assert!(step_delay(&paced_step(0, 100, 100)) <= 200);
    }
}

// ---- rows, keys, reasons ----

#[test]
fn lock_key_format() {
    assert_eq!(lock_key("sess-1", "flow-1"), "flow:lock:sess-1:flow-1");
    assert_eq!(lock_key("", ""), "flow:lock::");
    assert_eq!(lock_key("a:b", "c"), "flow:lock:a:b:c");
    assert_eq!(LOCK_TTL_SECONDS, 30);
}

#[test]
fn scopes_follow_the_direction() {
    assert_eq!(valid_scopes(true), (TriggerScope::OUTGOING, TriggerScope::BOTH));
    assert_eq!(valid_scopes(false), (TriggerScope::INCOMING, TriggerScope::BOTH));
}

#[test]
fn rejection_messages() {
    let cooldown = Rejection::Cooldown { now_ms: 70_000, started_at_ms: 60_000, cooldown_ms: 60_000 };
    assert_eq!(cooldown.message(), "Cooldown active (10000/60000ms)");
    let usage = Rejection::UsageLimit { count: 3, limit: 3 };
    assert_eq!(usage.message(), "Usage limit reached (3/3)");
    assert_eq!(Rejection::Exclusive.message(), "Mutually exclusive flow already executed");
}

#[test]
fn cooldown_message_with_a_start_in_the_future() {
    let r = Rejection::Cooldown { now_ms: 1_000, started_at_ms: 1_500, cooldown_ms: 100 };
    assert_eq!(r.message(), "Cooldown active (-500/100ms)");
    let far = Rejection::Cooldown { now_ms: i64::MIN, started_at_ms: i64::MAX, cooldown_ms: 1 };
    assert_eq!(far.message(), "Cooldown active (-18446744073709551615/1ms)");
}

#[test]
fn running_execution_row() {
    let row = running_execution("id-1".to_string(), "sess-1", "flow-1", "user-1", "hello");
    assert_eq!(
        row,
        NewExecution {
            id: "id-1".to_string(),
            session_id: "sess-1".to_string(),
            flow_id: "flow-1".to_string(),
            platform_user_id: "user-1".to_string(),
            status: ExecutionStatus::RUNNING,
            current_step: 0,
            error: None,
            trigger: "hello".to_string(),
        }
    );
}

#[test]
fn failed_execution_row() {
    let row = failed_execution("id-2".to_string(), "sess-1", "flow-1", "user-1", "hello", "why");
    assert_eq!(
        row,
        NewExecution {
            id: "id-2".to_string(),
            session_id: "sess-1".to_string(),
            flow_id: "flow-1".to_string(),
            platform_user_id: "user-1".to_string(),
            status: ExecutionStatus::FAILED,
            current_step: 0,
            error: Some("why".to_string()),
            trigger: "hello".to_string(),
        }
    );
}

#[test]
fn created_failed_execution_has_a_fresh_identity() {
    let a = create_failed_execution("sess-1", "flow-1", "user-1", "hello", "why");
    let b = create_failed_execution("sess-1", "flow-1", "user-1", "hello", "why");
    assert_eq!(a.id.chars().count(), 36);
    assert_eq!(b.id.chars().count(), 36);
    assert_ne!(a.id, b.id);
    assert_eq!(a.status, ExecutionStatus::FAILED);
    assert_eq!(a.error, Some("why".to_string()));
    assert_eq!(a.session_id, "sess-1");
    assert!(a.id.chars().all(|c| c == '-' || c.is_ascii_digit() || ('a'..='f').contains(&c)));
}

// ---- admission ----

#[test]
fn empty_content_creates_nothing() {
    for content in ["", "   ", "\n\t "] {
        let (state, action) = start(content);
        assert_eq!(action, AdmissionAction::Finish { outcome: AdmissionOutcome::EmptyContent });
        assert_eq!(state.phase, AdmissionPhase::Finished);
        let (state, action) = state.advance(AdmissionEvent::Triggers(vec![trigger(
            "hello",
            MatchType::EXACT,
        )]));
        assert_eq!(action, AdmissionAction::Finish { outcome: AdmissionOutcome::AlreadyFinished });
        let (_, action) = state.advance(AdmissionEvent::Lock(true));
        assert_eq!(action, AdmissionAction::Finish { outcome: AdmissionOutcome::AlreadyFinished });
    }
}

#[test]
fn admission_asks_for_the_triggers_of_the_direction() {
    let (state, action) = start("Hello");
    assert_eq!(state.phase, AdmissionPhase::FetchingTriggers);
    assert_eq!(
        action,
        AdmissionAction::FetchTriggers {
            scopes: (TriggerScope::INCOMING, TriggerScope::BOTH),
            session_id: "sess-1".to_string(),
            bot_id: "bot-1".to_string(),
        }
    );
    let (_, action) = process_incoming_message("bot-1", "sess-1", "x", true, "me", "Hello");
    assert!(matches!(
        action,
        AdmissionAction::FetchTriggers { scopes: (TriggerScope::OUTGOING, TriggerScope::BOTH), .. }
    ));
}

#[test]
fn no_trigger_ends_the_admission() {
    let (state, _) = start("hello");
    let (state, action) = state.advance(AdmissionEvent::Triggers(Vec::new()));
    assert_eq!(action, AdmissionAction::Finish { outcome: AdmissionOutcome::NoTrigger });
    assert_eq!(state.phase, AdmissionPhase::Finished);

    let (state, _) = start("goodbye");
    let (_, action) =
        state.advance(AdmissionEvent::Triggers(vec![trigger("hello", MatchType::EXACT)]));
    assert_eq!(action, AdmissionAction::Finish { outcome: AdmissionOutcome::NoTrigger });
}

#[test]
fn failed_trigger_fetch_ends_the_admission() {
    let (state, _) = start("hello");
    let (_, action) = state.advance(AdmissionEvent::Failed);
    assert_eq!(action, AdmissionAction::Finish { outcome: AdmissionOutcome::StoreFailed });
}

#[test]
fn exact_trigger_fires() {
    let (state, _) = start("Hello");
    let (state, action) =
        state.advance(AdmissionEvent::Triggers(vec![trigger("hello", MatchType::EXACT)]));
    assert_eq!(
        action,
        AdmissionAction::AcquireLock { key: "flow:lock:sess-1:flow-1".to_string(), ttl_seconds: 30 }
    );
    assert_eq!(state.phase, AdmissionPhase::Locking);

    let (state, action) = state.advance(AdmissionEvent::Lock(true));
    let row = running_row(action);
    assert_eq!(row.id.chars().count(), 36);
    assert_eq!(row.session_id, "sess-1");
    assert_eq!(row.flow_id, "flow-1");
    assert_eq!(row.platform_user_id, "user-1");
    assert_eq!(row.status, ExecutionStatus::RUNNING);
    assert_eq!(row.current_step, 0);
    assert_eq!(row.error, None);
    assert_eq!(row.trigger, "hello");

    let (state, action) = state.advance(AdmissionEvent::Done);
    assert_eq!(release_key(&action), "flow:lock:sess-1:flow-1");
    let (state, action) = state.advance(AdmissionEvent::Done);
    assert_eq!(action, AdmissionAction::Schedule { execution_id: row.id.clone(), step_order: 0 });
    assert_eq!(state.phase, AdmissionPhase::Finished);

    // The scheduler takes over.
    let (hop, action) = schedule_step(row.id.clone(), 0);
    assert_eq!(action, SchedulerAction::LoadExecution { execution_id: row.id.clone() });
    let stored = execution(&row.id, "RUNNING", 0);
    let steps = vec![step(0, StepType::TEXT, Some("hi"), None)];
    let (hop, action) = hop.advance(SchedulerEvent::Execution(Some(stored.clone())));
    assert_eq!(action, SchedulerAction::LoadSteps { flow_id: "flow-1".to_string() });
    let (hop, action) = hop.advance(SchedulerEvent::Steps(steps.clone()));
    assert_eq!(action, SchedulerAction::Sleep { millis: 0 });
    let (hop, action) = hop.advance(SchedulerEvent::Done);
    assert_eq!(
        action,
        SchedulerAction::SetCurrentStep { execution_id: row.id.clone(), step_order: 0 }
    );
    let (hop, action) = hop.advance(SchedulerEvent::Done);
    assert_eq!(
        action,
        SchedulerAction::RunStep {
            execution_id: row.id.clone(),
            step_id: "step-0".to_string(),
            step_order: 0,
        }
    );
    let outcome =
        execute_step(&row.id, 0, Some(&steps[0]), Some(&stored), Some(&whatsapp_session()), 0);
    match outcome {
        Ok(StepOutcome::Send(message)) => {
            assert_eq!(message.execution_id, row.id);
            assert_eq!(message.payload.text, Some("hi".to_string()));
            assert_eq!(message.bot_id, "bot-1");
            assert_eq!(message.target, "5215512345678");
        }
        other => panic!("unexpected outcome {:?}", other),
    }
    let (hop, action) = hop.advance(SchedulerEvent::Processed { error: None });
    assert_eq!(
        action,
        SchedulerAction::SetCurrentStep { execution_id: row.id.clone(), step_order: 1 }
    );
    let (hop, action) = hop.advance(SchedulerEvent::Done);
    assert_eq!(action, SchedulerAction::LoadExecution { execution_id: row.id.clone() });
    assert_eq!(hop.order, 1);
    let (hop, _) = hop.advance(SchedulerEvent::Execution(Some(stored)));
    let (hop, action) = hop.advance(SchedulerEvent::Steps(steps));
    assert_eq!(action, SchedulerAction::MarkCompleted { execution_id: row.id.clone() });
    let (hop, action) = hop.advance(SchedulerEvent::Done);
    assert_eq!(action, SchedulerAction::Finish { outcome: SchedulerOutcome::Completed });
    assert_eq!(hop.phase, SchedulerPhase::Finished);
}

#[test]
fn cooldown_rejection() {
    let mut t = trigger("hello", MatchType::EXACT);
    t.cooldown_ms = Some(60_000);
    let (state, action) = locked(t);
    assert_eq!(
        action,
        AdmissionAction::ReadLastStart {
            session_id: "sess-1".to_string(),
            flow_id: "flow-1".to_string(),
        }
    );
    let now = 1_700_000_000_000;
    let (state, action) = state
        .advance(AdmissionEvent::LastStart { started_at: Some(now - 10_000), now });
    let row = failed_row(action);
    assert_eq!(row.status, ExecutionStatus::FAILED);
    assert_eq!(row.error, Some("Cooldown active (10000/60000ms)".to_string()));
    assert_eq!(row.trigger, "hello");
    assert_eq!(row.platform_user_id, "user-1");
    assert_eq!(row.id.chars().count(), 36);

    let (state, action) = state.advance(AdmissionEvent::Done);
    assert_eq!(release_key(&action), "flow:lock:sess-1:flow-1");
    let (state, action) = state.advance(AdmissionEvent::Done);
    assert_eq!(
        action,
        AdmissionAction::Finish {
            outcome: AdmissionOutcome::Rejected(Rejection::Cooldown {
                now_ms: now,
                started_at_ms: now - 10_000,
                cooldown_ms: 60_000,
            })
        }
    );
    assert_eq!(state.phase, AdmissionPhase::Finished);
}

#[test]
fn cooldown_passes_at_the_boundary_and_without_a_prior_start() {
    let mut t = trigger("hello", MatchType::EXACT);
    t.cooldown_ms = Some(60_000);
    let (state, _) = locked(t.clone());
    let (_, action) =
        state.advance(AdmissionEvent::LastStart { started_at: Some(0), now: 60_000 });
    assert!(matches!(action, AdmissionAction::InsertRunning { .. }));

    let (state, _) = locked(t.clone());
    let (_, action) =
        state.advance(AdmissionEvent::LastStart { started_at: Some(1), now: 60_000 });
    assert_eq!(failed_row(action).error, Some("Cooldown active (59999/60000ms)".to_string()));

    let (state, _) = locked(t);
    let (_, action) = state.advance(AdmissionEvent::LastStart { started_at: None, now: 5 });
    assert!(matches!(action, AdmissionAction::InsertRunning { .. }));
}

#[test]
fn concurrent_single_flight() {
    let (first, _) = start("hello");
    let (second, _) = start("hello");
    let triggers = vec![trigger("hello", MatchType::EXACT)];
    let (first, _) = first.advance(AdmissionEvent::Triggers(triggers.clone()));
    let (second, _) = second.advance(AdmissionEvent::Triggers(triggers));

    let (_, action) = first.advance(AdmissionEvent::Lock(true));
    assert!(matches!(action, AdmissionAction::InsertRunning { .. }));

    let (second, action) = second.advance(AdmissionEvent::Lock(false));
    assert_eq!(action, AdmissionAction::Finish { outcome: AdmissionOutcome::LockDenied });
    assert_eq!(second.phase, AdmissionPhase::Finished);
    let (_, action) = second.advance(AdmissionEvent::Done);
    assert_eq!(action, AdmissionAction::Finish { outcome: AdmissionOutcome::AlreadyFinished });
}

#[test]
fn failed_lock_request_counts_as_denied() {
    let (state, _) = start("hello");
    let (state, _) =
        state.advance(AdmissionEvent::Triggers(vec![trigger("hello", MatchType::EXACT)]));
    let (_, action) = state.advance(AdmissionEvent::Failed);
    assert_eq!(action, AdmissionAction::Finish { outcome: AdmissionOutcome::LockDenied });
}

#[test]
fn usage_limit_rejection() {
    let mut t = trigger("hello", MatchType::EXACT);
    t.usage_limit = Some(3);
    let (state, action) = locked(t.clone());
    assert_eq!(
        action,
        AdmissionAction::CountExecutions {
            session_id: "sess-1".to_string(),
            flow_id: "flow-1".to_string(),
        }
    );
    let (state, action) = state.advance(AdmissionEvent::Count(3));
    assert_eq!(failed_row(action).error, Some("Usage limit reached (3/3)".to_string()));
    let (state, _) = state.advance(AdmissionEvent::Failed);
    let (_, action) = state.advance(AdmissionEvent::Done);
    assert_eq!(
        action,
        AdmissionAction::Finish {
            outcome: AdmissionOutcome::Rejected(Rejection::UsageLimit { count: 3, limit: 3 })
        }
    );

    let (state, _) = locked(t.clone());
    let (_, action) = state.advance(AdmissionEvent::Count(7));
    assert_eq!(failed_row(action).error, Some("Usage limit reached (7/3)".to_string()));

    let (state, _) = locked(t);
    let (_, action) = state.advance(AdmissionEvent::Count(2));
    assert!(matches!(action, AdmissionAction::InsertRunning { .. }));
}

#[test]
fn excluded_flow_is_rejected() {
    let mut t = trigger("hello", MatchType::EXACT);
    t.excludes_flows = Some(vec!["flow-2".to_string()]);
    let (state, action) = locked(t.clone());
    assert_eq!(
        action,
        AdmissionAction::CountExcluded {
            session_id: "sess-1".to_string(),
            flow_ids: vec!["flow-2".to_string()],
        }
    );
    let (state, action) = state.advance(AdmissionEvent::Count(1));
    let row = failed_row(action);
    assert_eq!(row.error, Some("Mutually exclusive flow already executed".to_string()));
    assert_eq!(row.flow_id, "flow-1");
    let (state, action) = state.advance(AdmissionEvent::Done);
    assert_eq!(release_key(&action), "flow:lock:sess-1:flow-1");
    let (_, action) = state.advance(AdmissionEvent::Done);
    assert_eq!(
        action,
        AdmissionAction::Finish { outcome: AdmissionOutcome::Rejected(Rejection::Exclusive) }
    );

    let (state, _) = locked(t);
    let (_, action) = state.advance(AdmissionEvent::Count(0));
    assert!(matches!(action, AdmissionAction::InsertRunning { .. }));
}

#[test]
fn empty_exclusion_list_asks_nothing() {
    let mut t = trigger("hello", MatchType::EXACT);
    t.excludes_flows = Some(Vec::new());
    t.cooldown_ms = Some(0);
    t.usage_limit = Some(0);
    let (_, action) = locked(t);
    assert!(matches!(action, AdmissionAction::InsertRunning { .. }));
}

#[test]
fn rules_are_tried_in_order() {
    let mut t = trigger("hello", MatchType::EXACT);
    t.cooldown_ms = Some(1000);
    t.usage_limit = Some(2);
    t.excludes_flows = Some(vec!["flow-2".to_string(), "flow-3".to_string()]);
    let (state, action) = locked(t);
    assert!(matches!(action, AdmissionAction::ReadLastStart { .. }));
    let (state, action) =
        state.advance(AdmissionEvent::LastStart { started_at: Some(0), now: 5000 });
    assert!(matches!(action, AdmissionAction::CountExecutions { .. }));
    let (state, action) = state.advance(AdmissionEvent::Count(1));
    assert_eq!(
        action,
        AdmissionAction::CountExcluded {
            session_id: "sess-1".to_string(),
            flow_ids: vec!["flow-2".to_string(), "flow-3".to_string()],
        }
    );
    let (state, action) = state.advance(AdmissionEvent::Count(0));
    let row = running_row(action);
    let (state, _) = state.advance(AdmissionEvent::Done);
    let (_, action) = state.advance(AdmissionEvent::Done);
    assert_eq!(action, AdmissionAction::Schedule { execution_id: row.id, step_order: 0 });
}

#[test]
fn store_failure_under_the_lock_releases_it() {
    let mut t = trigger("hello", MatchType::EXACT);
    t.usage_limit = Some(2);
    let (state, _) = locked(t.clone());
    let (state, action) = state.advance(AdmissionEvent::Failed);
    assert_eq!(release_key(&action), "flow:lock:sess-1:flow-1");
    let (_, action) = state.advance(AdmissionEvent::Done);
    assert_eq!(action, AdmissionAction::Finish { outcome: AdmissionOutcome::StoreFailed });

    // A failed insert of the running execution does not schedule anything.
    let (state, _) = locked(trigger("hello", MatchType::EXACT));
    let (state, action) = state.advance(AdmissionEvent::Failed);
    assert_eq!(release_key(&action), "flow:lock:sess-1:flow-1");
    let (_, action) = state.advance(AdmissionEvent::Done);
    assert_eq!(action, AdmissionAction::Finish { outcome: AdmissionOutcome::StoreFailed });

    // An answer that was not asked for counts as a failure.
    let (state, _) = locked(t);
    let (_, action) = state.advance(AdmissionEvent::Lock(true));
    assert!(matches!(action, AdmissionAction::ReleaseLock { .. }));
}

#[test]
fn advance_with_uses_the_identity_it_is_given() {
    let (state, _) = start("hello");
    let (state, _) = state.advance_with(
        AdmissionEvent::Triggers(vec![trigger("hello", MatchType::EXACT)]),
        "unused".to_string(),
    );
    assert_eq!(state.execution_id, "");
    let (state, action) = state.advance_with(AdmissionEvent::Lock(true), "id-42".to_string());
    assert_eq!(state.execution_id, "id-42");
    assert_eq!(running_row(action).id, "id-42");
}

#[test]
fn contains_trigger_opens_the_flow_with_its_keyword() {
    let (state, _) = start("  Any PROMO today? ");
    let mut t = trigger("promo", MatchType::CONTAINS);
    t.flow_id = "flow-9".to_string();
    let (state, action) = state.advance(AdmissionEvent::Triggers(vec![t]));
    assert_eq!(
        action,
        AdmissionAction::AcquireLock { key: "flow:lock:sess-1:flow-9".to_string(), ttl_seconds: 30 }
    );
    let (_, action) = state.advance(AdmissionEvent::Lock(true));
    let row = running_row(action);
    assert_eq!(row.trigger, "promo");
    assert_eq!(row.flow_id, "flow-9");
}

// ---- scheduler ----

#[test]
fn missing_execution_is_dropped() {
    let (hop, _) = schedule_step("exec-1".to_string(), 0);
    let (hop, action) = hop.advance(SchedulerEvent::Execution(None));
    assert_eq!(action, SchedulerAction::Finish { outcome: SchedulerOutcome::ExecutionNotFound });
    let (_, action) = hop.advance(SchedulerEvent::Steps(vec![paced_step(0, 0, 0)]));
    assert_eq!(action, SchedulerAction::Finish { outcome: SchedulerOutcome::AlreadyFinished });
}

#[test]
fn terminal_execution_is_not_dispatched() {
    for status in ["COMPLETED", "FAILED", "PAUSED"] {
        let (hop, _) = schedule_step("exec-1".to_string(), 0);
        let (_, action) =
            hop.advance(SchedulerEvent::Execution(Some(execution("exec-1", status, 0))));
        assert_eq!(action, SchedulerAction::Finish { outcome: SchedulerOutcome::NotRunning });
    }
}

#[test]
fn failed_loads_end_the_hop() {
    let (hop, _) = schedule_step("exec-1".to_string(), 0);
    let (_, action) = hop.advance(SchedulerEvent::Failed);
    assert_eq!(action, SchedulerAction::Finish { outcome: SchedulerOutcome::StoreFailed });

    let (hop, _) = schedule_step("exec-1".to_string(), 0);
    let (hop, _) = hop.advance(SchedulerEvent::Execution(Some(execution("exec-1", "RUNNING", 0))));
    let (_, action) = hop.advance(SchedulerEvent::Failed);
    assert_eq!(action, SchedulerAction::Finish { outcome: SchedulerOutcome::StoreFailed });
}

#[test]
fn gap_in_orders_completes_the_execution() {
    let steps = vec![paced_step(0, 0, 0), paced_step(2, 0, 0)];
    let (hop, _) = schedule_step("exec-1".to_string(), 1);
    let (hop, _) = hop.advance(SchedulerEvent::Execution(Some(execution("exec-1", "RUNNING", 1))));
    let (hop, action) = hop.advance(SchedulerEvent::Steps(steps));
    assert_eq!(action, SchedulerAction::MarkCompleted { execution_id: "exec-1".to_string() });
    assert_eq!(hop.phase, SchedulerPhase::Completing);
    let (hop, action) = hop.advance(SchedulerEvent::Failed);
    assert_eq!(action, SchedulerAction::Finish { outcome: SchedulerOutcome::Completed });
    let (_, action) = hop.advance(SchedulerEvent::Done);
    assert_eq!(action, SchedulerAction::Finish { outcome: SchedulerOutcome::AlreadyFinished });
}

#[test]
fn flow_without_steps_completes_at_once() {
    let (hop, _) = schedule_step("exec-1".to_string(), 0);
    let (hop, _) = hop.advance(SchedulerEvent::Execution(Some(execution("exec-1", "RUNNING", 0))));
    let (_, action) = hop.advance(SchedulerEvent::Steps(Vec::new()));
    assert_eq!(action, SchedulerAction::MarkCompleted { execution_id: "exec-1".to_string() });
}

#[test]
fn sleep_is_delay_plus_given_jitter() {
    let steps = vec![paced_step(0, 1000, 10)];
    for (jitter, expected) in [(0, 1000), (100, 1100), (-100, 900), (-5000, 0)] {
        let (hop, _) = schedule_step("exec-1".to_string(), 0);
        let (hop, _) = hop
            .advance_with(SchedulerEvent::Execution(Some(execution("exec-1", "RUNNING", 0))), 77);
        let (hop, action) = hop.advance_with(SchedulerEvent::Steps(steps.clone()), jitter);
        assert_eq!(action, SchedulerAction::Sleep { millis: expected });
        assert_eq!(hop.phase, SchedulerPhase::Sleeping);
        assert_eq!(hop.step, Some(steps[0].clone()));
    }
}

#[test]
fn sleep_is_drawn_within_the_percentage() {
    let steps = vec![paced_step(0, 1000, 10)];
    let mut distinct = std::collections::BTreeSet::new();
    for _ in 0..500 {
        let (hop, _) = schedule_step("exec-1".to_string(), 0);
        let (hop, _) =
            hop.advance(SchedulerEvent::Execution(Some(execution("exec-1", "RUNNING", 0))));
        let (_, action) = hop.advance(SchedulerEvent::Steps(steps.clone()));
        match action {
            SchedulerAction::Sleep { millis } => {
                assert!((900..=1100).contains(&millis), "millis {}", millis);
                distinct.insert(millis);
            }
            other => panic!("unexpected action {:?}", other),
        }
    }
    assert!(distinct.len() > 1);
}

#[test]
fn step_is_found_by_order_not_by_position() {
    let steps = vec![paced_step(10, 0, 0), paced_step(5, 0, 0), paced_step(7, 0, 0)];
    assert_eq!(find_step(&steps, 5), Some(1));
    assert_eq!(find_step(&steps, 7), Some(2));
    assert_eq!(find_step(&steps, 10), Some(0));
    assert_eq!(find_step(&steps, 6), None);
    assert_eq!(find_step(&steps, i32::MAX as i64 + 1), None);
    assert_eq!(find_step(&Vec::new(), 0), None);
    let twice = vec![paced_step(1, 0, 0), paced_step(1, 500, 0)];
    assert_eq!(find_step(&twice, 1), Some(0));
}

#[test]
fn processor_error_is_recorded_and_the_flow_goes_on() {
    let steps = vec![paced_step(3, 0, 0)];
    let (hop, _) = schedule_step("exec-1".to_string(), 3);
    let (hop, _) = hop.advance(SchedulerEvent::Execution(Some(execution("exec-1", "RUNNING", 3))));
    let (hop, _) = hop.advance(SchedulerEvent::Steps(steps));
    let (hop, _) = hop.advance(SchedulerEvent::Done);
    let (hop, _) = hop.advance(SchedulerEvent::Done);
    let (hop, action) =
        hop.advance(SchedulerEvent::Processed { error: Some("Failed to query Step".to_string()) });
    assert_eq!(
        action,
        SchedulerAction::RecordError {
            execution_id: "exec-1".to_string(),
            error: "Step 3 error: Failed to query Step".to_string(),
        }
    );
    let (hop, action) = hop.advance(SchedulerEvent::Failed);
    assert_eq!(
        action,
        SchedulerAction::SetCurrentStep { execution_id: "exec-1".to_string(), step_order: 4 }
    );
    assert_eq!(hop.phase, SchedulerPhase::Advancing);
    let (hop, action) = hop.advance(SchedulerEvent::Failed);
    assert_eq!(action, SchedulerAction::LoadExecution { execution_id: "exec-1".to_string() });
    assert_eq!(hop.order, 4);
    assert_eq!(hop.step, None);
    assert_eq!(hop.phase, SchedulerPhase::LoadingExecution);
}

#[test]
fn step_error_message_format() {
    assert_eq!(step_error_message(0, "boom"), "Step 0 error: boom");
    assert_eq!(step_error_message(-1, ""), "Step -1 error: ");
    assert_eq!(step_error_message(i32::MAX, "x"), "Step 2147483647 error: x");
}

#[test]
fn failed_progress_note_does_not_stop_the_step() {
    let steps = vec![paced_step(0, 0, 0)];
    let (hop, _) = schedule_step("exec-1".to_string(), 0);
    let (hop, _) = hop.advance(SchedulerEvent::Execution(Some(execution("exec-1", "RUNNING", 0))));
    let (hop, _) = hop.advance(SchedulerEvent::Steps(steps));
    let (hop, action) = hop.advance(SchedulerEvent::Done);
    assert!(matches!(action, SchedulerAction::SetCurrentStep { .. }));
    let (_, action) = hop.advance(SchedulerEvent::Failed);
    assert!(matches!(action, SchedulerAction::RunStep { .. }));
}

#[test]
fn missing_media_step_still_advances() {
    let image = step(0, StepType::IMAGE, Some("caption"), None);
    let stored = execution("exec-1", "RUNNING", 0);
    let outcome =
        execute_step("exec-1", 0, Some(&image), Some(&stored), Some(&whatsapp_session()), 0);
    assert_eq!(outcome, Ok(StepOutcome::NothingToSend));

    let steps = vec![image, step(1, StepType::TEXT, Some("next"), None)];
    let (hop, _) = schedule_step("exec-1".to_string(), 0);
    let (hop, _) = hop.advance(SchedulerEvent::Execution(Some(stored.clone())));
    let (hop, _) = hop.advance(SchedulerEvent::Steps(steps.clone()));
    let (hop, _) = hop.advance(SchedulerEvent::Done);
    let (hop, _) = hop.advance(SchedulerEvent::Done);
    let (hop, _) = hop.advance(SchedulerEvent::Processed { error: None });
    let (hop, _) = hop.advance(SchedulerEvent::Done);
    let (hop, _) = hop.advance(SchedulerEvent::Execution(Some(stored)));
    let (hop, action) = hop.advance(SchedulerEvent::Steps(steps));
    assert_eq!(action, SchedulerAction::Sleep { millis: 0 });
    let (hop, _) = hop.advance(SchedulerEvent::Done);
    let (_, action) = hop.advance(SchedulerEvent::Done);
    assert_eq!(
        action,
        SchedulerAction::RunStep {
            execution_id: "exec-1".to_string(),
            step_id: "step-1".to_string(),
            step_order: 1,
        }
    );
}

#[test]
fn status_flip_stops_the_next_hop() {
    let steps = vec![paced_step(0, 0, 0), paced_step(1, 0, 0)];
    let (hop, _) = schedule_step("exec-1".to_string(), 0);
    let (hop, _) = hop.advance(SchedulerEvent::Execution(Some(execution("exec-1", "RUNNING", 0))));
    let (hop, _) = hop.advance(SchedulerEvent::Steps(steps));
    let (hop, _) = hop.advance(SchedulerEvent::Done);
    let (hop, _) = hop.advance(SchedulerEvent::Done);
    let (hop, _) = hop.advance(SchedulerEvent::Processed { error: None });
    let (hop, action) = hop.advance(SchedulerEvent::Done);
    assert_eq!(action, SchedulerAction::LoadExecution { execution_id: "exec-1".to_string() });
    let (_, action) =
        hop.advance(SchedulerEvent::Execution(Some(execution("exec-1", "FAILED", 1))));
    assert_eq!(action, SchedulerAction::Finish { outcome: SchedulerOutcome::NotRunning });
}

#[test]
fn last_possible_order_does_not_overflow() {
    let steps = vec![paced_step(i32::MAX, 0, 0)];
    let (hop, _) = schedule_step("exec-1".to_string(), i32::MAX);
    let stored = execution("exec-1", "RUNNING", i32::MAX);
    let (hop, _) = hop.advance(SchedulerEvent::Execution(Some(stored.clone())));
    let (hop, _) = hop.advance(SchedulerEvent::Steps(steps.clone()));
    let (hop, _) = hop.advance(SchedulerEvent::Done);
    let (hop, _) = hop.advance(SchedulerEvent::Done);
    // No order comes after the last one, so there is nothing to note.
    let (hop, action) = hop.advance(SchedulerEvent::Processed { error: None });
    assert_eq!(action, SchedulerAction::LoadExecution { execution_id: "exec-1".to_string() });
    assert_eq!(hop.order, i32::MAX as i64 + 1);
    let (hop, _) = hop.advance(SchedulerEvent::Execution(Some(stored)));
    let (_, action) = hop.advance(SchedulerEvent::Steps(steps));
    assert_eq!(action, SchedulerAction::MarkCompleted { execution_id: "exec-1".to_string() });
}

#[test]
fn scheduling_without_its_step_ends() {
    let broken = Scheduling {
        execution_id: "exec-1".to_string(),
        order: 0,
        phase: SchedulerPhase::Processing,
        step: None,
    };
    let (_, action) = broken.advance(SchedulerEvent::Processed { error: None });
    assert_eq!(action, SchedulerAction::Finish { outcome: SchedulerOutcome::StoreFailed });
}

// ---- recovery ----

#[test]
fn crash_recovery() {
    let stored = vec![execution("exec-1", "RUNNING", 2)];
    let plan = recover_running_executions(&stored);
    assert_eq!(
        plan,
        vec![ScheduleRequest { execution_id: "exec-1".to_string(), step_order: 2 }]
    );

    // Step two is dispatched.
    let steps = vec![paced_step(0, 0, 0), paced_step(1, 0, 0), paced_step(2, 0, 0)];
    let (hop, _) = schedule_step(plan[0].execution_id.clone(), plan[0].step_order);
    let (hop, _) = hop.advance(SchedulerEvent::Execution(Some(stored[0].clone())));
    let (hop, _) = hop.advance(SchedulerEvent::Steps(steps));
    let (hop, action) = hop.advance(SchedulerEvent::Done);
    assert_eq!(
        action,
        SchedulerAction::SetCurrentStep { execution_id: "exec-1".to_string(), step_order: 2 }
    );
    let (_, action) = hop.advance(SchedulerEvent::Done);
    assert_eq!(
        action,
        SchedulerAction::RunStep {
            execution_id: "exec-1".to_string(),
            step_id: "step-2".to_string(),
            step_order: 2,
        }
    );

    // Without a step two the execution is completed.
    let fewer = vec![paced_step(0, 0, 0), paced_step(1, 0, 0)];
    let (hop, _) = schedule_step(plan[0].execution_id.clone(), plan[0].step_order);
    let (hop, _) = hop.advance(SchedulerEvent::Execution(Some(stored[0].clone())));
    let (_, action) = hop.advance(SchedulerEvent::Steps(fewer));
    assert_eq!(action, SchedulerAction::MarkCompleted { execution_id: "exec-1".to_string() });
}

#[test]
fn recovery_takes_running_executions_only_and_keeps_their_order() {
    let stored = vec![
        execution("a", "RUNNING", 0),
        execution("b", "COMPLETED", 4),
        execution("c", "RUNNING", 7),
        execution("d", "FAILED", 1),
        execution("e", "RUNNING", -1),
    ];
    let plan = recover_running_executions(&stored);
    assert_eq!(
        plan,
        vec![
            ScheduleRequest { execution_id: "a".to_string(), step_order: 0 },
            ScheduleRequest { execution_id: "c".to_string(), step_order: 7 },
            ScheduleRequest { execution_id: "e".to_string(), step_order: -1 },
        ]
    );
    assert_eq!(recover_running_executions(&[]), Vec::new());
}

#[test]
fn text_payload_is_untouched_by_the_scheduler() {
    let s = step(0, StepType::TEXT, Some("  {{name}} hi  "), None);
    let payload = agentic_core::processors::step_payload(&s, 0);
    assert_eq!(
        payload,
        OutgoingPayload {
            text: Some("  {{name}} hi  ".to_string()),
            image: None,
            audio: None,
            caption: None,
            ptt: None,
        }
    );
}

// ---- what holds of whole runs ----

/// Drives an admission with the given answers and returns every action it
/// asked for, the first included.
fn admission_actions(content: &str, events: Vec<AdmissionEvent>) -> Vec<AdmissionAction> {
    let (mut state, first) = start(content);
    let mut actions = vec![first];
    for event in events {
        let (next, action) = state.advance(event);
        state = next;
        actions.push(action);
    }
    actions
}

fn count_actions(actions: &[AdmissionAction]) -> (usize, usize, usize, usize) {
    let running =
        actions.iter().filter(|a| matches!(a, AdmissionAction::InsertRunning { .. })).count();
    let failed =
        actions.iter().filter(|a| matches!(a, AdmissionAction::InsertFailed { .. })).count();
    let scheduled = actions.iter().filter(|a| matches!(a, AdmissionAction::Schedule { .. })).count();
    let released =
        actions.iter().filter(|a| matches!(a, AdmissionAction::ReleaseLock { .. })).count();
    (running, failed, scheduled, released)
}

#[test]
fn admitted_run_inserts_one_running_row() {
    let mut t = trigger("hello", MatchType::EXACT);
    t.cooldown_ms = Some(1000);
    t.usage_limit = Some(5);
    let actions = admission_actions(
        "hello",
        vec![
            AdmissionEvent::Triggers(vec![t]),
            AdmissionEvent::Lock(true),
            AdmissionEvent::LastStart { started_at: Some(0), now: 10_000 },
            AdmissionEvent::Count(1),
            AdmissionEvent::Done,
            AdmissionEvent::Done,
            AdmissionEvent::Done,
            AdmissionEvent::Count(9),
            AdmissionEvent::Lock(true),
        ],
    );
    assert_eq!(count_actions(&actions), (1, 0, 1, 1));
}

#[test]
fn rejected_run_inserts_one_failed_row() {
    let mut t = trigger("hello", MatchType::EXACT);
    t.usage_limit = Some(1);
    let actions = admission_actions(
        "hello",
        vec![
            AdmissionEvent::Triggers(vec![t]),
            AdmissionEvent::Lock(true),
            AdmissionEvent::Count(1),
            AdmissionEvent::Done,
            AdmissionEvent::Done,
            AdmissionEvent::Done,
            AdmissionEvent::Count(0),
            AdmissionEvent::Lock(true),
        ],
    );
    assert_eq!(count_actions(&actions), (0, 1, 0, 1));
    assert!(actions.iter().any(|a| matches!(
        a,
        AdmissionAction::Finish { outcome: AdmissionOutcome::Rejected(_) }
    )));
}

#[test]
fn runs_that_never_hold_the_lock_insert_and_release_nothing() {
    let t = trigger("hello", MatchType::EXACT);
    let denied = admission_actions(
        "hello",
        vec![AdmissionEvent::Triggers(vec![t]), AdmissionEvent::Lock(false), AdmissionEvent::Done],
    );
    assert_eq!(count_actions(&denied), (0, 0, 0, 0));
    let unmatched = admission_actions(
        "bye",
        vec![
            AdmissionEvent::Triggers(vec![trigger("hello", MatchType::EXACT)]),
            AdmissionEvent::Lock(true),
            AdmissionEvent::Done,
        ],
    );
    assert_eq!(count_actions(&unmatched), (0, 0, 0, 0));
    let blank = admission_actions(
        "  ",
        vec![
            AdmissionEvent::Triggers(vec![trigger("hello", MatchType::EXACT)]),
            AdmissionEvent::Lock(true),
            AdmissionEvent::Done,
        ],
    );
    assert_eq!(count_actions(&blank), (0, 0, 0, 0));
}

#[test]
fn lock_is_released_before_every_end_under_it() {
    let mut t = trigger("hello", MatchType::EXACT);
    t.cooldown_ms = Some(1000);
    t.usage_limit = Some(5);
    t.excludes_flows = Some(vec!["flow-2".to_string()]);
    let scripts: Vec<Vec<AdmissionEvent>> = vec![
        vec![AdmissionEvent::Failed],
        vec![AdmissionEvent::LastStart { started_at: Some(9_999), now: 10_000 }, AdmissionEvent::Done],
        vec![AdmissionEvent::LastStart { started_at: None, now: 0 }, AdmissionEvent::Failed],
        vec![
            AdmissionEvent::LastStart { started_at: None, now: 0 },
            AdmissionEvent::Count(0),
            AdmissionEvent::Count(3),
            AdmissionEvent::Failed,
        ],
        vec![
            AdmissionEvent::LastStart { started_at: None, now: 0 },
            AdmissionEvent::Count(0),
            AdmissionEvent::Count(0),
            AdmissionEvent::Done,
        ],
    ];
    for script in scripts {
        let mut events = vec![AdmissionEvent::Triggers(vec![t.clone()]), AdmissionEvent::Lock(true)];
        events.extend(script);
        events.push(AdmissionEvent::Done);
        let actions = admission_actions("hello", events);
        let end = actions
            .iter()
            .position(|a| {
                matches!(a, AdmissionAction::Finish { .. } | AdmissionAction::Schedule { .. })
            })
            .expect("the run ends");
        assert_eq!(
            actions[end - 1],
            AdmissionAction::ReleaseLock { key: "flow:lock:sess-1:flow-1".to_string() }
        );
        assert_eq!(count_actions(&actions).3, 1);
    }
}

#[test]
fn steps_are_processed_in_ascending_order() {
    let steps = vec![paced_step(4, 0, 0), paced_step(0, 0, 0), paced_step(1, 0, 0), paced_step(2, 0, 0)];
    let stored = execution("exec-1", "RUNNING", 0);
    let (mut hop, mut action) = schedule_step("exec-1".to_string(), 0);
    let mut processed = Vec::new();
    for _ in 0..100 {
        let event = match &action {
            SchedulerAction::LoadExecution { .. } => SchedulerEvent::Execution(Some(stored.clone())),
            SchedulerAction::LoadSteps { .. } => SchedulerEvent::Steps(steps.clone()),
            SchedulerAction::RunStep { step_order, .. } => {
                processed.push(*step_order);
                SchedulerEvent::Processed { error: None }
            }
            SchedulerAction::Finish { .. } => break,
            _ => SchedulerEvent::Done,
        };
        let (next, asked) = hop.advance(event);
        hop = next;
        action = asked;
    }
    assert_eq!(processed, vec![0, 1, 2]);
    assert_eq!(action, SchedulerAction::Finish { outcome: SchedulerOutcome::Completed });
}

#[test]
fn current_step_is_advanced_once_a_step_is_processed() {
    let steps = vec![paced_step(7, 500, 0), paced_step(8, 500, 0)];
    let (hop, _) = schedule_step("exec-1".to_string(), 7);
    let (hop, _) = hop.advance(SchedulerEvent::Execution(Some(execution("exec-1", "RUNNING", 7))));
    let (hop, _) = hop.advance(SchedulerEvent::Steps(steps.clone()));
    let (hop, action) = hop.advance(SchedulerEvent::Done);
    assert_eq!(
        action,
        SchedulerAction::SetCurrentStep { execution_id: "exec-1".to_string(), step_order: 7 }
    );
    let (hop, _) = hop.advance(SchedulerEvent::Done);
    let (hop, action) = hop.advance(SchedulerEvent::Processed { error: None });
    assert_eq!(
        action,
        SchedulerAction::SetCurrentStep { execution_id: "exec-1".to_string(), step_order: 8 }
    );
    assert_eq!(hop.phase, SchedulerPhase::Advancing);
    // Only then does the scheduler turn to the next step and wait for it.
    let (hop, action) = hop.advance(SchedulerEvent::Done);
    assert_eq!(action, SchedulerAction::LoadExecution { execution_id: "exec-1".to_string() });
    let (hop, _) = hop.advance(SchedulerEvent::Execution(Some(execution("exec-1", "RUNNING", 8))));
    let (_, action) = hop.advance(SchedulerEvent::Steps(steps));
    assert_eq!(action, SchedulerAction::Sleep { millis: 500 });
}

#[test]
fn restart_during_a_wait_does_not_repeat_a_step() {
    let steps = vec![paced_step(0, 0, 0), paced_step(1, 3000, 0), paced_step(2, 0, 0)];
    let mut stored = execution("exec-1", "RUNNING", 0);
    let (mut hop, mut action) = schedule_step("exec-1".to_string(), 0);
    let mut processed = Vec::new();
    let mut waits = 0;
    // Run until the scheduler waits for the second time, keeping the store.
    loop {
        let event = match &action {
            SchedulerAction::LoadExecution { .. } => SchedulerEvent::Execution(Some(stored.clone())),
            SchedulerAction::LoadSteps { .. } => SchedulerEvent::Steps(steps.clone()),
            SchedulerAction::SetCurrentStep { step_order, .. } => {
                stored.current_step = *step_order;
                SchedulerEvent::Done
            }
            SchedulerAction::RunStep { step_order, .. } => {
                processed.push(*step_order);
                SchedulerEvent::Processed { error: None }
            }
            SchedulerAction::Sleep { .. } => {
                waits += 1;
                if waits == 2 {
                    break;
                }
                SchedulerEvent::Done
            }
            other => panic!("unexpected action {:?}", other),
        };
        let (next, asked) = hop.advance(event);
        hop = next;
        action = asked;
    }
    assert_eq!(action, SchedulerAction::Sleep { millis: 3000 });
    assert_eq!(processed, vec![0]);
    assert_eq!(stored.current_step, 1);

    // The process dies here. After the restart the execution is taken up at
    // step one, and step zero is not processed again.
    let plan = recover_running_executions(&[stored.clone()]);
    assert_eq!(plan, vec![ScheduleRequest { execution_id: "exec-1".to_string(), step_order: 1 }]);
    let (hop, _) = schedule_step(plan[0].execution_id.clone(), plan[0].step_order);
    let (hop, _) = hop.advance(SchedulerEvent::Execution(Some(stored)));
    let (hop, _) = hop.advance(SchedulerEvent::Steps(steps));
    let (hop, _) = hop.advance(SchedulerEvent::Done);
    let (_, action) = hop.advance(SchedulerEvent::Done);
    assert_eq!(
        action,
        SchedulerAction::RunStep {
            execution_id: "exec-1".to_string(),
            step_id: "step-1".to_string(),
            step_order: 1,
        }
    );
}

#[test]
fn failed_step_advances_the_current_step_too() {
    let steps = vec![paced_step(2, 0, 0)];
    let (hop, _) = schedule_step("exec-1".to_string(), 2);
    let (hop, _) = hop.advance(SchedulerEvent::Execution(Some(execution("exec-1", "RUNNING", 2))));
    let (hop, _) = hop.advance(SchedulerEvent::Steps(steps));
    let (hop, _) = hop.advance(SchedulerEvent::Done);
    let (hop, _) = hop.advance(SchedulerEvent::Done);
    let (hop, action) = hop.advance(SchedulerEvent::Processed { error: Some("boom".to_string()) });
    assert!(matches!(action, SchedulerAction::RecordError { .. }));
    let (_, action) = hop.advance(SchedulerEvent::Done);
    assert_eq!(
        action,
        SchedulerAction::SetCurrentStep { execution_id: "exec-1".to_string(), step_order: 3 }
    );
}
