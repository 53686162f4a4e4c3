//! The per-kind transition tables of the state machine.
use vstd::prelude::*;
use crate::states::{
    ResourceType, MODEL_STATE_CONTAINER_CREATING, MODEL_STATE_CRASH_LOOP_BACK_OFF,
    MODEL_STATE_FAILED, MODEL_STATE_PENDING, MODEL_STATE_RUNNING, MODEL_STATE_SUCCEEDED,
    MODEL_STATE_UNKNOWN, MODEL_STATE_UNSPECIFIED, PACKAGE_STATE_DEGRADED, PACKAGE_STATE_ERROR,
    PACKAGE_STATE_INITIALIZING, PACKAGE_STATE_PAUSED, PACKAGE_STATE_RUNNING,
    PACKAGE_STATE_UNSPECIFIED, PACKAGE_STATE_UPDATING, SCENARIO_STATE_ALLOWED,
    SCENARIO_STATE_DENIED, SCENARIO_STATE_IDLE, SCENARIO_STATE_PLAYING, SCENARIO_STATE_WAITING,
};
use crate::text::owned;

verus! {

/// One row of a transition table: in state `from_state`, on `event`, move to
/// `to_state` if the guard `condition` holds, and run `action`.
#[derive(Debug, Clone)]
pub struct StateTransition {
    pub from_state: i32,
    pub event: String,
    pub to_state: i32,
    pub condition: Option<String>,
    pub action: String,
}

/// The mathematical value of a `StateTransition`.
pub struct TransitionRow {
    pub from: i32,
    pub event: Seq<char>,
    pub to: i32,
    pub condition: Option<Seq<char>>,
    pub action: Seq<char>,
}

pub open spec fn opt_text(o: Option<String>) -> Option<Seq<char>> {
    match o {
        Some(s) => Some(s@),
        None => None,
    }
}

impl View for StateTransition {
    type V = TransitionRow;

    open spec fn view(&self) -> TransitionRow {
        TransitionRow {
            from: self.from_state,
            event: self.event@,
            to: self.to_state,
            condition: opt_text(self.condition),
            action: self.action@,
        }
    }
}

pub open spec fn rows_of(s: Seq<StateTransition>) -> Seq<TransitionRow> {
    s.map_values(|t: StateTransition| t@)
}

pub open spec fn row(
    from: i32,
    event: Seq<char>,
    to: i32,
    condition: Option<Seq<char>>,
    action: Seq<char>,
) -> TransitionRow {
    TransitionRow { from, event, to, condition, action }
}

/// The declared transitions of a scenario, in table order.
pub open spec fn scenario_table() -> Seq<TransitionRow> {
    seq![
        row(SCENARIO_STATE_IDLE, "scenario_activation"@, SCENARIO_STATE_WAITING, None, "start_condition_evaluation"@),
        row(SCENARIO_STATE_WAITING, "condition_met"@, SCENARIO_STATE_ALLOWED, None, "start_policy_verification"@),
        row(SCENARIO_STATE_ALLOWED, "policy_verification_success"@, SCENARIO_STATE_PLAYING, None, "execute_action_on_target_package"@),
        row(SCENARIO_STATE_ALLOWED, "policy_verification_failure"@, SCENARIO_STATE_DENIED, None, "log_denial_generate_alert"@),
    ]
}

/// The declared transitions of a package, in table order.
pub open spec fn package_table() -> Seq<TransitionRow> {
    seq![
        row(PACKAGE_STATE_UNSPECIFIED, "launch_request"@, PACKAGE_STATE_INITIALIZING, None, "start_model_creation_allocate_resources"@),
        row(PACKAGE_STATE_INITIALIZING, "initialization_complete"@, PACKAGE_STATE_RUNNING, Some("all_models_normal"@), "update_state_announce_availability"@),
        row(PACKAGE_STATE_INITIALIZING, "partial_initialization_failure"@, PACKAGE_STATE_DEGRADED, Some("critical_models_normal"@), "log_warning_activate_partial_functionality"@),
        row(PACKAGE_STATE_INITIALIZING, "critical_initialization_failure"@, PACKAGE_STATE_ERROR, Some("critical_models_failed"@), "log_error_attempt_recovery"@),
        row(PACKAGE_STATE_RUNNING, "model_issue_detected"@, PACKAGE_STATE_DEGRADED, Some("non_critical_model_issues"@), "log_warning_maintain_partial_functionality"@),
        row(PACKAGE_STATE_RUNNING, "critical_issue_detected"@, PACKAGE_STATE_ERROR, Some("critical_model_issues"@), "log_error_attempt_recovery"@),
        row(PACKAGE_STATE_RUNNING, "pause_request"@, PACKAGE_STATE_PAUSED, None, "pause_models_preserve_state"@),
        row(PACKAGE_STATE_DEGRADED, "model_recovery"@, PACKAGE_STATE_RUNNING, Some("all_models_recovered"@), "update_state_restore_full_functionality"@),
        row(PACKAGE_STATE_DEGRADED, "additional_model_issues"@, PACKAGE_STATE_ERROR, Some("critical_models_affected"@), "log_error_attempt_recovery"@),
        row(PACKAGE_STATE_DEGRADED, "pause_request"@, PACKAGE_STATE_PAUSED, None, "pause_models_preserve_state"@),
        row(PACKAGE_STATE_ERROR, "recovery_successful"@, PACKAGE_STATE_RUNNING, Some("depends_on_recovery_level"@), "update_state_announce_functionality_restoration"@),
        row(PACKAGE_STATE_PAUSED, "resume_request"@, PACKAGE_STATE_RUNNING, Some("depends_on_previous_state"@), "resume_models_restore_state"@),
        row(PACKAGE_STATE_RUNNING, "update_request"@, PACKAGE_STATE_UPDATING, None, "start_update_process"@),
        row(PACKAGE_STATE_UPDATING, "update_successful"@, PACKAGE_STATE_RUNNING, None, "activate_new_version_update_state"@),
        row(PACKAGE_STATE_UPDATING, "update_failed"@, PACKAGE_STATE_ERROR, Some("depends_on_rollback_settings"@), "rollback_or_error_handling"@),
    ]
}

/// The declared transitions of a model, in table order.
pub open spec fn model_table() -> Seq<TransitionRow> {
    seq![
        row(MODEL_STATE_UNSPECIFIED, "creation_request"@, MODEL_STATE_PENDING, None, "start_node_selection_and_allocation"@),
        row(MODEL_STATE_PENDING, "node_allocation_complete"@, MODEL_STATE_CONTAINER_CREATING, Some("sufficient_resources"@), "pull_container_images_mount_volumes"@),
        row(MODEL_STATE_PENDING, "node_allocation_failed"@, MODEL_STATE_FAILED, Some("timeout_or_error"@), "log_error_retry_or_reschedule"@),
        row(MODEL_STATE_CONTAINER_CREATING, "container_creation_complete"@, MODEL_STATE_RUNNING, Some("all_containers_started"@), "update_state_start_readiness_checks"@),
        row(MODEL_STATE_CONTAINER_CREATING, "container_creation_failed"@, MODEL_STATE_FAILED, None, "log_error_retry_or_reschedule"@),
        row(MODEL_STATE_RUNNING, "temporary_task_complete"@, MODEL_STATE_SUCCEEDED, Some("one_time_task"@), "log_completion_clean_up_resources"@),
        row(MODEL_STATE_RUNNING, "container_termination"@, MODEL_STATE_FAILED, Some("unexpected_termination"@), "log_error_evaluate_automatic_restart"@),
        row(MODEL_STATE_RUNNING, "repeated_crash_detection"@, MODEL_STATE_CRASH_LOOP_BACK_OFF, Some("consecutive_restart_failures"@), "set_backoff_timer_collect_logs"@),
        row(MODEL_STATE_RUNNING, "monitoring_failure"@, MODEL_STATE_UNKNOWN, Some("node_communication_issues"@), "attempt_diagnostics_restore_communication"@),
        row(MODEL_STATE_CRASH_LOOP_BACK_OFF, "backoff_time_elapsed"@, MODEL_STATE_RUNNING, Some("restart_successful"@), "resume_monitoring_reset_counter"@),
        row(MODEL_STATE_CRASH_LOOP_BACK_OFF, "maximum_retries_exceeded"@, MODEL_STATE_FAILED, Some("retry_limit_reached"@), "log_error_notify_for_manual_intervention"@),
        row(MODEL_STATE_UNKNOWN, "state_check_recovered"@, MODEL_STATE_RUNNING, Some("depends_on_actual_state"@), "synchronize_state_recover_if_needed"@),
        row(MODEL_STATE_FAILED, "manual_automatic_recovery"@, MODEL_STATE_PENDING, Some("according_to_restart_policy"@), "start_model_recreation"@),
    ]
}
impl StateTransition {
    /// A copy of this row.
    pub fn clone_row(&self) -> (r: StateTransition)
        ensures
            r@ == self@,
    {
        let condition = match &self.condition {
            Some(c) => Some(c.clone()),
            None => None,
        };
        StateTransition {
            from_state: self.from_state,
            event: self.event.clone(),
            to_state: self.to_state,
            condition,
            action: self.action.clone(),
        }
    }
}

/// The declared transitions of kind `t`; kinds without a state machine have none.
pub open spec fn table_of(t: ResourceType) -> Seq<TransitionRow> {
    match t {
        ResourceType::Scenario => scenario_table(),
        ResourceType::Package => package_table(),
        ResourceType::Model => model_table(),
        _ => Seq::empty(),
    }
}

fn entry(from: i32, event: &str, to: i32, condition: Option<String>, action: &str) -> (r: StateTransition)
    ensures
        r@ == row(from, event@, to, opt_text(condition), action@),
{
    StateTransition { from_state: from, event: owned(event), to_state: to, condition, action: owned(action) }
}

pub struct ScenarioTransitions;

impl ScenarioTransitions {
    /// The scenario transition table.
    pub fn get_transitions() -> (r: Vec<StateTransition>)
        ensures
            rows_of(r@) == scenario_table(),
    {
        let mut v: Vec<StateTransition> = Vec::new();
        v.push(entry(SCENARIO_STATE_IDLE, "scenario_activation", SCENARIO_STATE_WAITING, None, "start_condition_evaluation"));
        v.push(entry(SCENARIO_STATE_WAITING, "condition_met", SCENARIO_STATE_ALLOWED, None, "start_policy_verification"));
        v.push(entry(SCENARIO_STATE_ALLOWED, "policy_verification_success", SCENARIO_STATE_PLAYING, None, "execute_action_on_target_package"));
        v.push(entry(SCENARIO_STATE_ALLOWED, "policy_verification_failure", SCENARIO_STATE_DENIED, None, "log_denial_generate_alert"));
        assert(rows_of(v@) =~= scenario_table());
        v
    }
}

pub struct PackageTransitions;

impl PackageTransitions {
    /// The package transition table.
    pub fn get_transitions() -> (r: Vec<StateTransition>)
        ensures
            rows_of(r@) == package_table(),
    {
        let mut v: Vec<StateTransition> = Vec::new();
        v.push(entry(PACKAGE_STATE_UNSPECIFIED, "launch_request", PACKAGE_STATE_INITIALIZING, None, "start_model_creation_allocate_resources"));
        v.push(entry(PACKAGE_STATE_INITIALIZING, "initialization_complete", PACKAGE_STATE_RUNNING, Some(owned("all_models_normal")), "update_state_announce_availability"));
        v.push(entry(PACKAGE_STATE_INITIALIZING, "partial_initialization_failure", PACKAGE_STATE_DEGRADED, Some(owned("critical_models_normal")), "log_warning_activate_partial_functionality"));
        v.push(entry(PACKAGE_STATE_INITIALIZING, "critical_initialization_failure", PACKAGE_STATE_ERROR, Some(owned("critical_models_failed")), "log_error_attempt_recovery"));
        v.push(entry(PACKAGE_STATE_RUNNING, "model_issue_detected", PACKAGE_STATE_DEGRADED, Some(owned("non_critical_model_issues")), "log_warning_maintain_partial_functionality"));
        v.push(entry(PACKAGE_STATE_RUNNING, "critical_issue_detected", PACKAGE_STATE_ERROR, Some(owned("critical_model_issues")), "log_error_attempt_recovery"));
        v.push(entry(PACKAGE_STATE_RUNNING, "pause_request", PACKAGE_STATE_PAUSED, None, "pause_models_preserve_state"));
        v.push(entry(PACKAGE_STATE_DEGRADED, "model_recovery", PACKAGE_STATE_RUNNING, Some(owned("all_models_recovered")), "update_state_restore_full_functionality"));
        v.push(entry(PACKAGE_STATE_DEGRADED, "additional_model_issues", PACKAGE_STATE_ERROR, Some(owned("critical_models_affected")), "log_error_attempt_recovery"));
        v.push(entry(PACKAGE_STATE_DEGRADED, "pause_request", PACKAGE_STATE_PAUSED, None, "pause_models_preserve_state"));
        v.push(entry(PACKAGE_STATE_ERROR, "recovery_successful", PACKAGE_STATE_RUNNING, Some(owned("depends_on_recovery_level")), "update_state_announce_functionality_restoration"));
        v.push(entry(PACKAGE_STATE_PAUSED, "resume_request", PACKAGE_STATE_RUNNING, Some(owned("depends_on_previous_state")), "resume_models_restore_state"));
        v.push(entry(PACKAGE_STATE_RUNNING, "update_request", PACKAGE_STATE_UPDATING, None, "start_update_process"));
        v.push(entry(PACKAGE_STATE_UPDATING, "update_successful", PACKAGE_STATE_RUNNING, None, "activate_new_version_update_state"));
        v.push(entry(PACKAGE_STATE_UPDATING, "update_failed", PACKAGE_STATE_ERROR, Some(owned("depends_on_rollback_settings")), "rollback_or_error_handling"));
        assert(rows_of(v@) =~= package_table());
        v
    }
}

pub struct ModelTransitions;

impl ModelTransitions {
    /// The model transition table.
    pub fn get_transitions() -> (r: Vec<StateTransition>)
        ensures
            rows_of(r@) == model_table(),
    {
        let mut v: Vec<StateTransition> = Vec::new();
        v.push(entry(MODEL_STATE_UNSPECIFIED, "creation_request", MODEL_STATE_PENDING, None, "start_node_selection_and_allocation"));
        v.push(entry(MODEL_STATE_PENDING, "node_allocation_complete", MODEL_STATE_CONTAINER_CREATING, Some(owned("sufficient_resources")), "pull_container_images_mount_volumes"));
        v.push(entry(MODEL_STATE_PENDING, "node_allocation_failed", MODEL_STATE_FAILED, Some(owned("timeout_or_error")), "log_error_retry_or_reschedule"));
        v.push(entry(MODEL_STATE_CONTAINER_CREATING, "container_creation_complete", MODEL_STATE_RUNNING, Some(owned("all_containers_started")), "update_state_start_readiness_checks"));
        v.push(entry(MODEL_STATE_CONTAINER_CREATING, "container_creation_failed", MODEL_STATE_FAILED, None, "log_error_retry_or_reschedule"));
        v.push(entry(MODEL_STATE_RUNNING, "temporary_task_complete", MODEL_STATE_SUCCEEDED, Some(owned("one_time_task")), "log_completion_clean_up_resources"));
        v.push(entry(MODEL_STATE_RUNNING, "container_termination", MODEL_STATE_FAILED, Some(owned("unexpected_termination")), "log_error_evaluate_automatic_restart"));
        v.push(entry(MODEL_STATE_RUNNING, "repeated_crash_detection", MODEL_STATE_CRASH_LOOP_BACK_OFF, Some(owned("consecutive_restart_failures")), "set_backoff_timer_collect_logs"));
        v.push(entry(MODEL_STATE_RUNNING, "monitoring_failure", MODEL_STATE_UNKNOWN, Some(owned("node_communication_issues")), "attempt_diagnostics_restore_communication"));
        v.push(entry(MODEL_STATE_CRASH_LOOP_BACK_OFF, "backoff_time_elapsed", MODEL_STATE_RUNNING, Some(owned("restart_successful")), "resume_monitoring_reset_counter"));
        v.push(entry(MODEL_STATE_CRASH_LOOP_BACK_OFF, "maximum_retries_exceeded", MODEL_STATE_FAILED, Some(owned("retry_limit_reached")), "log_error_notify_for_manual_intervention"));
        v.push(entry(MODEL_STATE_UNKNOWN, "state_check_recovered", MODEL_STATE_RUNNING, Some(owned("depends_on_actual_state")), "synchronize_state_recover_if_needed"));
        v.push(entry(MODEL_STATE_FAILED, "manual_automatic_recovery", MODEL_STATE_PENDING, Some(owned("according_to_restart_policy")), "start_model_recreation"));
        assert(rows_of(v@) =~= model_table());
        v
    }
}
} // verus!
