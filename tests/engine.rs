use pullpiri::engine::{StateMachine, StoredLookup};
use pullpiri::states::{ResourceType, MODEL_STATE_CRASH_LOOP_BACK_OFF, MODEL_STATE_PENDING, MODEL_STATE_RUNNING};
use pullpiri::textmap::TextMap;
use pullpiri::types::{ErrorCode, SerializableHealthStatus, SerializableResourceState, StateChange};

const NOW: u64 = 1_700_000_000;

fn change(kind: i32, name: &str, from: &str, to: &str) -> StateChange {
    StateChange {
        resource_type: kind,
        resource_name: name.to_string(),
        current_state: from.to_string(),
        target_state: to.to_string(),
        transition_id: "t-1".to_string(),
        source: "test".to_string(),
        timestamp_ns: 42,
    }
}

fn model_record(name: &str, state: &str, count: u32, at: u64) -> SerializableResourceState {
    SerializableResourceState {
        resource_type: 3,
        resource_name: name.to_string(),
        current_state: state.to_string(),
        desired_state: None,
        last_transition_unix_timestamp: at,
        transition_count: count,
        metadata: TextMap::new(),
        health_status: SerializableHealthStatus {
            healthy: true,
            status_message: "Healthy".to_string(),
            last_check_unix_timestamp: at,
            consecutive_failures: 0,
        },
    }
}

fn crash_looping_model(timer_age: u64) -> StateMachine {
    let mut sm = StateMachine::new();
    let stale = sm.load_states(
        vec![("Model::x".to_string(), model_record("x", "MODEL_STATE_CRASH_LOOP_BACK_OFF", 4, NOW - timer_age))],
        NOW,
    );
    assert!(stale.is_empty());
    sm.set_backoff_start("Model::x".to_string(), NOW - timer_age);
    sm
}

#[test]
fn backoff_rejects_early_transition() {
    let mut sm = crash_looping_model(5);
    let sc = change(3, "x", "crash-loop-back-off", "running");
    let stored = StoredLookup::Found("MODEL_STATE_CRASH_LOOP_BACK_OFF".to_string());
    let err = sm.plan_state_change(&sc, &stored, NOW).err().expect("must be refused");
    assert_eq!(err.error_code, ErrorCode::PreconditionFailed);
    assert!(err.message.contains("backoff"));
    assert_eq!(err.new_state, MODEL_STATE_CRASH_LOOP_BACK_OFF);
    assert_eq!(sm.get_resource_state("Model::x").unwrap().current_state, MODEL_STATE_CRASH_LOOP_BACK_OFF);
    assert!(sm.drain_actions().is_empty());
}

#[test]
fn backoff_elapsed_allows_restart() {
    let mut sm = crash_looping_model(31);
    let sc = change(3, "x", "MODEL_STATE_CRASH_LOOP_BACK_OFF", "MODEL_STATE_RUNNING");
    let stored = StoredLookup::Found("MODEL_STATE_CRASH_LOOP_BACK_OFF".to_string());
    let pending = sm.plan_state_change(&sc, &stored, NOW).ok().expect("must be taken");
    assert_eq!(pending.storage_key(), "state/Model::x");
    assert_eq!(pending.record().current_state, "MODEL_STATE_RUNNING");
    assert_eq!(pending.record().transition_count, 5);
    let result = sm.complete_state_change(pending, Ok(()), &sc, NOW);
    assert!(result.is_success());
    assert_eq!(result.new_state, MODEL_STATE_RUNNING);
    let cached = sm.get_resource_state("Model::x").unwrap();
    assert_eq!(cached.current_state, MODEL_STATE_RUNNING);
    assert_eq!(cached.transition_count, 5);
    let actions = sm.drain_actions();
    assert_eq!(actions.len(), 1);
    assert_eq!(actions[0].action, "resume_monitoring_reset_counter");
    assert_eq!(actions[0].resource_key, "Model::x");
    assert_eq!(actions[0].context.get("event").unwrap(), "backoff_time_elapsed");
}

#[test]
fn undeclared_transition_is_refused() {
    let mut sm = StateMachine::new();
    let sc = change(3, "x", "running", "pending");
    let stored = StoredLookup::Found("MODEL_STATE_RUNNING".to_string());
    let err = sm.plan_state_change(&sc, &stored, NOW).err().expect("must be refused");
    assert_eq!(err.error_code, ErrorCode::InvalidStateTransition);
    assert_eq!(err.new_state, MODEL_STATE_RUNNING);
    assert!(sm.get_resource_state("Model::x").is_none());
    assert!(sm.drain_actions().is_empty());
}

#[test]
fn failed_guard_is_a_precondition_failure() {
    let mut sm = StateMachine::new();
    let sc = change(2, "p", "initializing", "error");
    let err = sm.plan_state_change(&sc, &StoredLookup::Absent, NOW).err().unwrap();
    assert_eq!(err.error_code, ErrorCode::PreconditionFailed);
    assert!(err.message.contains("critical_models_failed"));
    assert_eq!(sm.health_manager().get_health_status("Package::p").unwrap().consecutive_failures, 1);
}

#[test]
fn new_resource_gets_a_first_record() {
    let mut sm = StateMachine::new();
    let sc = change(1, "s1", "idle", "waiting");
    let pending = sm.plan_state_change(&sc, &StoredLookup::Absent, NOW).ok().unwrap();
    let record = pending.record();
    assert_eq!(record.resource_type, 1);
    assert_eq!(record.resource_name, "s1");
    assert_eq!(record.current_state, "SCENARIO_STATE_WAITING");
    assert_eq!(record.desired_state.as_deref(), Some("SCENARIO_STATE_WAITING"));
    assert_eq!(record.transition_count, 1);
    assert_eq!(record.last_transition_unix_timestamp, NOW);
    let result = sm.complete_state_change(pending, Ok(()), &sc, NOW);
    assert!(result.is_success());
    let actions = sm.drain_actions();
    assert_eq!(actions[0].action, "start_condition_evaluation");
    assert_eq!(actions[0].context.get("from_state").unwrap(), "SCENARIO_STATE_IDLE");
    assert_eq!(actions[0].context.get("to_state").unwrap(), "SCENARIO_STATE_WAITING");
    assert_eq!(actions[0].context.get("timestamp_ns").unwrap(), "42");
}

#[test]
fn failed_write_leaves_cache_alone() {
    let mut sm = StateMachine::new();
    let sc = change(3, "m", "unspecified", "pending");
    let pending = sm.plan_state_change(&sc, &StoredLookup::Absent, NOW).ok().unwrap();
    let result = sm.complete_state_change(pending, Err("disk full".to_string()), &sc, NOW);
    assert!(result.is_failure());
    assert_eq!(result.error_code, ErrorCode::InternalError);
    assert!(!result.success);
    assert!(sm.get_resource_state("Model::m").is_none());
    assert!(sm.drain_actions().is_empty());
    let health = sm.health_manager().get_health_status("Model::m").unwrap();
    assert_eq!(health.consecutive_failures, 1);
    assert!(health.healthy);
}

#[test]
fn entering_crash_loop_starts_the_timer() {
    let mut sm = StateMachine::new();
    let sc = change(3, "m", "running", "crash-loop-back-off");
    // The default guard table refuses this row, so the timer is set only by a commit.
    let err = sm.plan_state_change(&sc, &StoredLookup::Absent, NOW).err().unwrap();
    assert_eq!(err.error_code, ErrorCode::PreconditionFailed);
    assert!(sm.get_backoff_timers().get("Model::m").is_none());
}

#[test]
fn malformed_requests_are_invalid() {
    let mut sm = StateMachine::new();
    let same = change(3, "m", "running", "running");
    assert_eq!(sm.plan_state_change(&same, &StoredLookup::Absent, NOW).err().unwrap().error_code, ErrorCode::InvalidRequest);
    let unnamed = change(3, " ", "running", "failed");
    assert_eq!(sm.plan_state_change(&unnamed, &StoredLookup::Absent, NOW).err().unwrap().error_code, ErrorCode::InvalidRequest);
    let kind = change(42, "m", "running", "failed");
    assert_eq!(sm.plan_state_change(&kind, &StoredLookup::Absent, NOW).err().unwrap().error_code, ErrorCode::InvalidStateTransition);
    let read = StoredLookup::Failed("timeout".to_string());
    let ok = change(3, "m", "running", "failed");
    assert_eq!(sm.plan_state_change(&ok, &read, NOW).err().unwrap().error_code, ErrorCode::InternalError);
}

#[test]
fn three_invalid_transitions_make_a_resource_unhealthy() {
    let mut sm = StateMachine::new();
    let sc = change(3, "x", "running", "pending");
    let stored = StoredLookup::Found("MODEL_STATE_RUNNING".to_string());
    for _ in 0..3 {
        assert!(sm.plan_state_change(&sc, &stored, NOW).is_err());
    }
    let health = sm.health_manager().get_health_status("Model::x").unwrap();
    assert!(!health.healthy);
    assert_eq!(health.consecutive_failures, 3);
    let ok = change(3, "x", "running", "failed");
    let pending = sm.plan_state_change(&ok, &stored, NOW).ok();
    // Running -> Failed is guarded by `unexpected_termination`, which the default table refuses.
    assert!(pending.is_none());
    let good = change(3, "x", "unspecified", "pending");
    let pending = sm.plan_state_change(&good, &StoredLookup::Absent, NOW).ok().unwrap();
    assert!(sm.complete_state_change(pending, Ok(()), &good, NOW).is_success());
    let health = sm.health_manager().get_health_status("Model::x").unwrap();
    assert!(health.healthy);
    assert_eq!(health.consecutive_failures, 0);
    assert_eq!(sm.get_resource_state("Model::x").unwrap().current_state, MODEL_STATE_PENDING);
}

#[test]
fn load_states_returns_unsound_keys() {
    let mut sm = StateMachine::new();
    let bad_state = model_record("y", "MODEL_STATE_NOPE", 1, NOW);
    let future = model_record("z", "MODEL_STATE_RUNNING", 1, NOW + 3601);
    let good = model_record("x", "MODEL_STATE_RUNNING", 1, NOW + 3600);
    let stale = sm.load_states(
        vec![("Model::x".to_string(), good), ("Model::y".to_string(), bad_state), ("Model::z".to_string(), future)],
        NOW,
    );
    assert_eq!(stale, vec!["Model::z".to_string(), "Model::y".to_string()]);
    assert!(sm.get_resource_state("Model::x").is_some());
    assert!(sm.get_resource_state("Model::y").is_none());
}

#[test]
fn restored_crash_loop_timer_keeps_its_age() {
    let mut sm = StateMachine::new();
    sm.load_states(vec![("Model::x".to_string(), model_record("x", "MODEL_STATE_CRASH_LOOP_BACK_OFF", 2, NOW - 10))], NOW);
    assert_eq!(*sm.get_backoff_timers().get("Model::x").unwrap(), NOW - 10);
    let mut sm = StateMachine::new();
    sm.load_states(vec![("Model::x".to_string(), model_record("x", "MODEL_STATE_CRASH_LOOP_BACK_OFF", 2, NOW - 500))], NOW);
    assert_eq!(*sm.get_backoff_timers().get("Model::x").unwrap(), NOW - 31);
}

#[test]
fn warm_cache_keeps_only_active_states() {
    let mut sm = StateMachine::new();
    let n = sm.warm_cache_for_active_resources(vec![
        ("Model::a".to_string(), model_record("a", "MODEL_STATE_RUNNING", 1, NOW)),
        ("Model::b".to_string(), model_record("b", "MODEL_STATE_FAILED", 1, NOW)),
        ("Model::c".to_string(), model_record("c", "MODEL_STATE_PENDING", 1, NOW)),
    ]);
    assert_eq!(n, 2);
    assert!(sm.get_resource_state("Model::a").is_some());
    assert!(sm.get_resource_state("Model::b").is_none());
}

#[test]
fn resource_type_codes() {
    assert_eq!(ResourceType::Model.code(), 3);
    assert_eq!(ResourceType::from_code(2), Some(ResourceType::Package));
    assert_eq!(ResourceType::from_code(9), None);
}

#[test]
fn three_failed_writes_make_a_resource_unhealthy() {
    let mut sm = StateMachine::new();
    let sc = change(3, "w", "unspecified", "pending");
    for _ in 0..3 {
        let pending = sm.plan_state_change(&sc, &StoredLookup::Absent, NOW).ok().unwrap();
        assert!(sm.complete_state_change(pending, Err("down".to_string()), &sc, NOW).is_failure());
    }
    let health = sm.health_manager().get_health_status("Model::w").unwrap();
    assert_eq!(health.consecutive_failures, 3);
    assert!(!health.healthy);
}

#[test]
fn loaded_records_are_cached_as_stored() {
    let mut sm = StateMachine::new();
    let mut rec = model_record("x", "MODEL_STATE_FAILED", 7, NOW - 100);
    rec.desired_state = Some("MODEL_STATE_RUNNING".to_string());
    rec.metadata.insert("owner".to_string(), "ops".to_string());
    sm.load_states(vec![("Model::x".to_string(), rec)], NOW);
    let cached = sm.get_resource_state("Model::x").unwrap();
    assert_eq!(cached.resource_type, ResourceType::Model);
    assert_eq!(cached.resource_name, "x");
    assert_eq!(cached.current_state, 5);
    assert_eq!(cached.desired_state, Some(MODEL_STATE_RUNNING));
    assert_eq!(cached.transition_count, 7);
    assert_eq!(cached.last_transition_time, NOW - 100);
    assert_eq!(cached.metadata.get("owner").unwrap(), "ops");
}

#[test]
fn committed_entry_is_the_written_record() {
    let mut sm = StateMachine::new();
    let mut rec = model_record("x", "MODEL_STATE_FAILED", 2, NOW - 100);
    rec.metadata.insert("owner".to_string(), "ops".to_string());
    sm.load_states(vec![("Model::x".to_string(), rec)], NOW);
    let sc = change(3, "x", "failed", "pending");
    let stored = StoredLookup::Found("MODEL_STATE_FAILED".to_string());
    let pending = sm.plan_state_change(&sc, &stored, NOW).ok().unwrap();
    assert_eq!(pending.record().transition_count, 3);
    assert_eq!(pending.record().metadata.get("owner").unwrap(), "ops");
    assert!(sm.complete_state_change(pending, Ok(()), &sc, NOW).is_success());
    let cached = sm.get_resource_state("Model::x").unwrap();
    assert_eq!(cached.current_state, MODEL_STATE_PENDING);
    assert_eq!(cached.desired_state, Some(MODEL_STATE_PENDING));
    assert_eq!(cached.last_transition_time, NOW);
    assert_eq!(cached.transition_count, 3);
    assert_eq!(cached.metadata.get("owner").unwrap(), "ops");
}

#[test]
fn refusals_are_not_successes() {
    let mut sm = crash_looping_model(5);
    let sc = change(3, "x", "crash-loop-back-off", "running");
    let stored = StoredLookup::Found("MODEL_STATE_CRASH_LOOP_BACK_OFF".to_string());
    assert!(!sm.plan_state_change(&sc, &stored, NOW).err().unwrap().success);
}

#[test]
fn unreadable_record_counts_and_backoff_does_not() {
    let mut sm = StateMachine::new();
    let sc = change(3, "m", "running", "failed");
    let read = StoredLookup::Failed("timeout".to_string());
    assert!(sm.plan_state_change(&sc, &read, NOW).is_err());
    assert_eq!(sm.health_manager().get_health_status("Model::m").unwrap().consecutive_failures, 1);
    let mut sm = crash_looping_model(5);
    let sc = change(3, "x", "crash-loop-back-off", "running");
    let stored = StoredLookup::Found("MODEL_STATE_CRASH_LOOP_BACK_OFF".to_string());
    assert!(sm.plan_state_change(&sc, &stored, NOW).is_err());
    assert!(sm.health_manager().get_health_status("Model::x").is_none());
}
