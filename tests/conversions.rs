use pullpiri::error::PullpiriError;
use pullpiri::events::EventInference;
use pullpiri::states::{ResourceType, MODEL_STATE_CRASH_LOOP_BACK_OFF, PACKAGE_STATE_RUNNING};
use pullpiri::textmap::TextMap;
use pullpiri::transitions::{ModelTransitions, PackageTransitions, ScenarioTransitions};
use pullpiri::types::{HealthStatus, ResourceState, TransitionResult, ErrorCode};
use pullpiri::utility::StateUtilities;
use pullpiri::validation::StateValidator;
use pullpiri::types::StateChange;

#[test]
fn user_state_text_is_normalized() {
    assert_eq!(StateUtilities::state_str_to_enum(" crash-loop-back-off ", 3), MODEL_STATE_CRASH_LOOP_BACK_OFF);
    assert_eq!(StateUtilities::state_str_to_enum("Running", 2), PACKAGE_STATE_RUNNING);
    assert_eq!(StateUtilities::state_str_to_enum("PACKAGE_STATE_RUNNING", 2), PACKAGE_STATE_RUNNING);
    assert_eq!(StateUtilities::state_str_to_enum("bogus", 3), 0);
    assert_eq!(StateUtilities::state_str_to_enum("running", 9), 0);
    assert_eq!(StateUtilities::enum_str_to_int("running", 3), 0);
    assert_eq!(StateUtilities::state_enum_to_str(6, ResourceType::Model), "MODEL_STATE_CRASH_LOOP_BACK_OFF");
    assert_eq!(StateUtilities::state_enum_to_str(99, ResourceType::Model), "UNKNOWN");
    assert_eq!(StateUtilities::generate_resource_key(ResourceType::Model, "x"), "Model::x");
    assert!(StateUtilities::is_active_state(PACKAGE_STATE_RUNNING, 2));
    assert!(!StateUtilities::is_active_state(PACKAGE_STATE_RUNNING, 5));
}

#[test]
fn events_are_inferred_from_pairs() {
    assert_eq!(EventInference::infer_event_from_states(6, 3, ResourceType::Model), "backoff_time_elapsed");
    assert_eq!(EventInference::infer_event_from_states(1, 2, ResourceType::Scenario), "scenario_activation");
    assert_eq!(EventInference::infer_event_from_states(3, 1, ResourceType::Model), "transition_3_1");
    assert_eq!(EventInference::infer_event_from_states(-1, 2, ResourceType::Node), "transition_-1_2");
}

#[test]
fn tables_have_the_declared_rows() {
    assert_eq!(ScenarioTransitions::get_transitions().len(), 4);
    assert_eq!(PackageTransitions::get_transitions().len(), 15);
    let model = ModelTransitions::get_transitions();
    assert_eq!(model.len(), 13);
    assert_eq!(model[9].event, "backoff_time_elapsed");
    assert_eq!(model[9].condition.as_deref(), Some("restart_successful"));
}

#[test]
fn guards_follow_the_default_table() {
    let sc = StateChange {
        resource_type: 2,
        resource_name: "p".into(),
        current_state: "a".into(),
        target_state: "b".into(),
        transition_id: "t".into(),
        source: "s".into(),
        timestamp_ns: 0,
    };
    assert!(!StateValidator::evaluate_condition("critical_models_failed", &sc));
    assert!(StateValidator::evaluate_condition("all_models_normal", &sc));
    assert!(StateValidator::evaluate_condition("never_heard_of_it", &sc));
    assert!(StateValidator::validate_state_change(&sc).is_ok());
    let mut blank = sc.clone();
    blank.source = "\t".into();
    assert_eq!(StateValidator::validate_state_change(&blank).unwrap_err(), "Source cannot be empty");
}

#[test]
fn record_round_trip_keeps_fields() {
    let mut metadata = TextMap::new();
    metadata.insert("k".to_string(), "v".to_string());
    let state = ResourceState {
        resource_type: ResourceType::Package,
        resource_name: "p".into(),
        current_state: 3,
        desired_state: Some(2),
        last_transition_time: 77,
        transition_count: 9,
        metadata,
        health_status: HealthStatus { healthy: false, status_message: "bad".into(), last_check: 70, consecutive_failures: 4 },
    };
    let stored = state.into_serializable();
    assert_eq!(stored.current_state, "PACKAGE_STATE_DEGRADED");
    assert_eq!(stored.desired_state.as_deref(), Some("PACKAGE_STATE_RUNNING"));
    let back = stored.into_runtime();
    assert_eq!(back.resource_type, ResourceType::Package);
    assert_eq!(back.current_state, 3);
    assert_eq!(back.desired_state, Some(2));
    assert_eq!(back.last_transition_time, 77);
    assert_eq!(back.transition_count, 9);
    assert_eq!(back.metadata.get("k").unwrap(), "v");
    assert!(!back.health_status.healthy);
    assert_eq!(back.health_status.consecutive_failures, 4);
}

#[test]
fn transition_results() {
    let ok = TransitionResult::success(3, "t".into(), None).with_action("a".into());
    assert!(ok.is_success());
    assert_eq!(ok.message, "Transition completed successfully");
    assert_eq!(ok.actions_to_execute, vec!["a".to_string()]);
    let bad = TransitionResult::failure(1, "t".into(), ErrorCode::PreconditionFailed, "m".into(), "d".into());
    assert!(bad.is_failure());
    let resp = bad.to_state_change_response();
    assert_eq!(resp.error_code, 3);
    assert_eq!(resp.transition_id, "t");
}

#[test]
fn error_texts() {
    assert_eq!(PullpiriError::timeout(1500).to_string(), "Timeout error: operation timed out after 1500ms");
    assert_eq!(PullpiriError::config("x".into()).to_string(), "Configuration error: x");
    assert_eq!(PullpiriError::internal("y".into()).to_string(), "Internal error: y");
    assert_eq!(PullpiriError::timeout(0).to_string(), "Timeout error: operation timed out after 0ms");
    assert_eq!(
        PullpiriError::timeout(u64::MAX).to_string(),
        "Timeout error: operation timed out after 18446744073709551615ms"
    );
}
