//! Inference of the event that a requested state change stands for.
use vstd::prelude::*;
use crate::states::{
    ResourceType, MODEL_STATE_CONTAINER_CREATING, MODEL_STATE_CRASH_LOOP_BACK_OFF,
    MODEL_STATE_FAILED, MODEL_STATE_PENDING, MODEL_STATE_RUNNING, MODEL_STATE_SUCCEEDED,
    MODEL_STATE_UNKNOWN, MODEL_STATE_UNSPECIFIED, PACKAGE_STATE_DEGRADED, PACKAGE_STATE_ERROR,
    PACKAGE_STATE_INITIALIZING, PACKAGE_STATE_PAUSED, PACKAGE_STATE_RUNNING,
    PACKAGE_STATE_UNSPECIFIED, PACKAGE_STATE_UPDATING, SCENARIO_STATE_ALLOWED,
    SCENARIO_STATE_DENIED, SCENARIO_STATE_IDLE, SCENARIO_STATE_PLAYING, SCENARIO_STATE_WAITING,
};
use crate::text::{owned, int_text, decimal_text};
use crate::transitions::table_of;

verus! {

/// The event named by the scenario pair `from -> to`, if the pair is declared.
pub open spec fn scenario_event(from: int, to: int) -> Option<Seq<char>> {
    if from == SCENARIO_STATE_IDLE && to == SCENARIO_STATE_WAITING { Some("scenario_activation"@) }
    else if from == SCENARIO_STATE_WAITING && to == SCENARIO_STATE_ALLOWED { Some("condition_met"@) }
    else if from == SCENARIO_STATE_ALLOWED && to == SCENARIO_STATE_PLAYING { Some("policy_verification_success"@) }
    else if from == SCENARIO_STATE_ALLOWED && to == SCENARIO_STATE_DENIED { Some("policy_verification_failure"@) }
    else { None }
}

/// The event named by the package pair `from -> to`, if the pair is declared.
pub open spec fn package_event(from: int, to: int) -> Option<Seq<char>> {
    if from == PACKAGE_STATE_UNSPECIFIED && to == PACKAGE_STATE_INITIALIZING { Some("launch_request"@) }
    else if from == PACKAGE_STATE_INITIALIZING && to == PACKAGE_STATE_RUNNING { Some("initialization_complete"@) }
    else if from == PACKAGE_STATE_INITIALIZING && to == PACKAGE_STATE_DEGRADED { Some("partial_initialization_failure"@) }
    else if from == PACKAGE_STATE_INITIALIZING && to == PACKAGE_STATE_ERROR { Some("critical_initialization_failure"@) }
    else if from == PACKAGE_STATE_RUNNING && to == PACKAGE_STATE_DEGRADED { Some("model_issue_detected"@) }
    else if from == PACKAGE_STATE_RUNNING && to == PACKAGE_STATE_ERROR { Some("critical_issue_detected"@) }
    else if from == PACKAGE_STATE_RUNNING && to == PACKAGE_STATE_PAUSED { Some("pause_request"@) }
    else if from == PACKAGE_STATE_DEGRADED && to == PACKAGE_STATE_RUNNING { Some("model_recovery"@) }
    else if from == PACKAGE_STATE_DEGRADED && to == PACKAGE_STATE_ERROR { Some("additional_model_issues"@) }
    else if from == PACKAGE_STATE_DEGRADED && to == PACKAGE_STATE_PAUSED { Some("pause_request"@) }
    else if from == PACKAGE_STATE_ERROR && to == PACKAGE_STATE_RUNNING { Some("recovery_successful"@) }
    else if from == PACKAGE_STATE_PAUSED && to == PACKAGE_STATE_RUNNING { Some("resume_request"@) }
    else if from == PACKAGE_STATE_RUNNING && to == PACKAGE_STATE_UPDATING { Some("update_request"@) }
    else if from == PACKAGE_STATE_UPDATING && to == PACKAGE_STATE_RUNNING { Some("update_successful"@) }
    else if from == PACKAGE_STATE_UPDATING && to == PACKAGE_STATE_ERROR { Some("update_failed"@) }
    else { None }
}

/// The event named by the model pair `from -> to`, if the pair is declared.
pub open spec fn model_event(from: int, to: int) -> Option<Seq<char>> {
    if from == MODEL_STATE_UNSPECIFIED && to == MODEL_STATE_PENDING { Some("creation_request"@) }
    else if from == MODEL_STATE_PENDING && to == MODEL_STATE_CONTAINER_CREATING { Some("node_allocation_complete"@) }
    else if from == MODEL_STATE_PENDING && to == MODEL_STATE_FAILED { Some("node_allocation_failed"@) }
    else if from == MODEL_STATE_CONTAINER_CREATING && to == MODEL_STATE_RUNNING { Some("container_creation_complete"@) }
    else if from == MODEL_STATE_CONTAINER_CREATING && to == MODEL_STATE_FAILED { Some("container_creation_failed"@) }
    else if from == MODEL_STATE_RUNNING && to == MODEL_STATE_SUCCEEDED { Some("temporary_task_complete"@) }
    else if from == MODEL_STATE_RUNNING && to == MODEL_STATE_FAILED { Some("container_termination"@) }
    else if from == MODEL_STATE_RUNNING && to == MODEL_STATE_CRASH_LOOP_BACK_OFF { Some("repeated_crash_detection"@) }
    else if from == MODEL_STATE_RUNNING && to == MODEL_STATE_UNKNOWN { Some("monitoring_failure"@) }
    else if from == MODEL_STATE_CRASH_LOOP_BACK_OFF && to == MODEL_STATE_RUNNING { Some("backoff_time_elapsed"@) }
    else if from == MODEL_STATE_CRASH_LOOP_BACK_OFF && to == MODEL_STATE_FAILED { Some("maximum_retries_exceeded"@) }
    else if from == MODEL_STATE_UNKNOWN && to == MODEL_STATE_RUNNING { Some("state_check_recovered"@) }
    else if from == MODEL_STATE_FAILED && to == MODEL_STATE_PENDING { Some("manual_automatic_recovery"@) }
    else { None }
}
/// The event that names an undeclared pair: `transition_<from>_<to>`.
pub open spec fn fallback_event_text(from: int, to: int) -> Seq<char> {
    "transition_"@ + decimal_text(from) + "_"@ + decimal_text(to)
}

/// The event inferred for `from -> to` under kind `t`.
pub open spec fn inferred_event(t: ResourceType, from: int, to: int) -> Seq<char> {
    let declared = match t {
        ResourceType::Scenario => scenario_event(from, to),
        ResourceType::Package => package_event(from, to),
        ResourceType::Model => model_event(from, to),
        _ => None,
    };
    match declared {
        Some(e) => e,
        None => fallback_event_text(from, to),
    }
}

/// Inference is total over the declared pairs: each row's own pair infers the row's event.
pub proof fn lemma_inference_matches_table(t: ResourceType, i: int)
    requires
        0 <= i < table_of(t).len(),
    ensures
        inferred_event(t, table_of(t)[i].from as int, table_of(t)[i].to as int) == table_of(t)[i].event,
{
    match t {
        ResourceType::Scenario => {
            assert(0 <= i < 4);
        },
        ResourceType::Package => {
            assert(0 <= i < 15);
        },
        ResourceType::Model => {
            assert(0 <= i < 13);
        },
        _ => {},
    }
}

/// Inference is a table lookup: a pair that no row of the table declares
/// infers the `transition_<from>_<to>` text, which names no row.
pub proof fn lemma_undeclared_pair_falls_back(t: ResourceType, from: int, to: int)
    requires
        forall|i: int| 0 <= i < table_of(t).len() ==> !(#[trigger] table_of(t)[i].from == from && table_of(t)[i].to == to),
    ensures
        inferred_event(t, from, to) == fallback_event_text(from, to),
{
    match t {
        ResourceType::Scenario => {
            assert(!(table_of(t)[0].from == from && table_of(t)[0].to == to));
            assert(!(table_of(t)[1].from == from && table_of(t)[1].to == to));
            assert(!(table_of(t)[2].from == from && table_of(t)[2].to == to));
            assert(!(table_of(t)[3].from == from && table_of(t)[3].to == to));
        },
        ResourceType::Package => {
            assert(!(table_of(t)[0].from == from && table_of(t)[0].to == to));
            assert(!(table_of(t)[1].from == from && table_of(t)[1].to == to));
            assert(!(table_of(t)[2].from == from && table_of(t)[2].to == to));
            assert(!(table_of(t)[3].from == from && table_of(t)[3].to == to));
            assert(!(table_of(t)[4].from == from && table_of(t)[4].to == to));
            assert(!(table_of(t)[5].from == from && table_of(t)[5].to == to));
            assert(!(table_of(t)[6].from == from && table_of(t)[6].to == to));
            assert(!(table_of(t)[7].from == from && table_of(t)[7].to == to));
            assert(!(table_of(t)[8].from == from && table_of(t)[8].to == to));
            assert(!(table_of(t)[9].from == from && table_of(t)[9].to == to));
            assert(!(table_of(t)[10].from == from && table_of(t)[10].to == to));
            assert(!(table_of(t)[11].from == from && table_of(t)[11].to == to));
            assert(!(table_of(t)[12].from == from && table_of(t)[12].to == to));
            assert(!(table_of(t)[13].from == from && table_of(t)[13].to == to));
            assert(!(table_of(t)[14].from == from && table_of(t)[14].to == to));
        },
        ResourceType::Model => {
            assert(!(table_of(t)[0].from == from && table_of(t)[0].to == to));
            assert(!(table_of(t)[1].from == from && table_of(t)[1].to == to));
            assert(!(table_of(t)[2].from == from && table_of(t)[2].to == to));
            assert(!(table_of(t)[3].from == from && table_of(t)[3].to == to));
            assert(!(table_of(t)[4].from == from && table_of(t)[4].to == to));
            assert(!(table_of(t)[5].from == from && table_of(t)[5].to == to));
            assert(!(table_of(t)[6].from == from && table_of(t)[6].to == to));
            assert(!(table_of(t)[7].from == from && table_of(t)[7].to == to));
            assert(!(table_of(t)[8].from == from && table_of(t)[8].to == to));
            assert(!(table_of(t)[9].from == from && table_of(t)[9].to == to));
            assert(!(table_of(t)[10].from == from && table_of(t)[10].to == to));
            assert(!(table_of(t)[11].from == from && table_of(t)[11].to == to));
            assert(!(table_of(t)[12].from == from && table_of(t)[12].to == to));
        },
        _ => {},
    }
}

fn fallback_event(from: i32, to: i32) -> (r: String)
    ensures
        r@ == fallback_event_text(from as int, to as int),
{
    let mut r = owned("transition_");
    let a = int_text(from as i128);
    let b = int_text(to as i128);
    r.append(a.as_str());
    r.append("_");
    r.append(b.as_str());
    r
}

pub struct EventInference;

impl EventInference {
    /// The event of the pair `current_state -> target_state` under `resource_type`.
    pub fn infer_event_from_states(current_state: i32, target_state: i32, resource_type: ResourceType) -> (r: String)
        ensures
            r@ == inferred_event(resource_type, current_state as int, target_state as int),
    {
        match resource_type {
            ResourceType::Scenario => Self::infer_scenario_event(current_state, target_state),
            ResourceType::Package => Self::infer_package_event(current_state, target_state),
            ResourceType::Model => Self::infer_model_event(current_state, target_state),
            _ => fallback_event(current_state, target_state),
        }
    }

    /// The event of a scenario pair; `transition_<from>_<to>` for undeclared pairs.
    pub fn infer_scenario_event(current_state: i32, target_state: i32) -> (r: String)
        ensures
            r@ == inferred_event(ResourceType::Scenario, current_state as int, target_state as int),
    {
        if current_state == SCENARIO_STATE_IDLE && target_state == SCENARIO_STATE_WAITING {
            owned("scenario_activation")
        } else if current_state == SCENARIO_STATE_WAITING && target_state == SCENARIO_STATE_ALLOWED {
            owned("condition_met")
        } else if current_state == SCENARIO_STATE_ALLOWED && target_state == SCENARIO_STATE_PLAYING {
            owned("policy_verification_success")
        } else if current_state == SCENARIO_STATE_ALLOWED && target_state == SCENARIO_STATE_DENIED {
            owned("policy_verification_failure")
        } else {
            fallback_event(current_state, target_state)
        }
    }

    /// The event of a package pair; `transition_<from>_<to>` for undeclared pairs.
    pub fn infer_package_event(current_state: i32, target_state: i32) -> (r: String)
        ensures
            r@ == inferred_event(ResourceType::Package, current_state as int, target_state as int),
    {
        if current_state == PACKAGE_STATE_UNSPECIFIED && target_state == PACKAGE_STATE_INITIALIZING {
            owned("launch_request")
        } else if current_state == PACKAGE_STATE_INITIALIZING && target_state == PACKAGE_STATE_RUNNING {
            owned("initialization_complete")
        } else if current_state == PACKAGE_STATE_INITIALIZING && target_state == PACKAGE_STATE_DEGRADED {
            owned("partial_initialization_failure")
        } else if current_state == PACKAGE_STATE_INITIALIZING && target_state == PACKAGE_STATE_ERROR {
            owned("critical_initialization_failure")
        } else if current_state == PACKAGE_STATE_RUNNING && target_state == PACKAGE_STATE_DEGRADED {
            owned("model_issue_detected")
        } else if current_state == PACKAGE_STATE_RUNNING && target_state == PACKAGE_STATE_ERROR {
            owned("critical_issue_detected")
        } else if current_state == PACKAGE_STATE_RUNNING && target_state == PACKAGE_STATE_PAUSED {
            owned("pause_request")
        } else if current_state == PACKAGE_STATE_DEGRADED && target_state == PACKAGE_STATE_RUNNING {
            owned("model_recovery")
        } else if current_state == PACKAGE_STATE_DEGRADED && target_state == PACKAGE_STATE_ERROR {
            owned("additional_model_issues")
        } else if current_state == PACKAGE_STATE_DEGRADED && target_state == PACKAGE_STATE_PAUSED {
            owned("pause_request")
        } else if current_state == PACKAGE_STATE_ERROR && target_state == PACKAGE_STATE_RUNNING {
            owned("recovery_successful")
        } else if current_state == PACKAGE_STATE_PAUSED && target_state == PACKAGE_STATE_RUNNING {
            owned("resume_request")
        } else if current_state == PACKAGE_STATE_RUNNING && target_state == PACKAGE_STATE_UPDATING {
            owned("update_request")
        } else if current_state == PACKAGE_STATE_UPDATING && target_state == PACKAGE_STATE_RUNNING {
            owned("update_successful")
        } else if current_state == PACKAGE_STATE_UPDATING && target_state == PACKAGE_STATE_ERROR {
            owned("update_failed")
        } else {
            fallback_event(current_state, target_state)
        }
    }

    /// The event of a model pair; `transition_<from>_<to>` for undeclared pairs.
    pub fn infer_model_event(current_state: i32, target_state: i32) -> (r: String)
        ensures
            r@ == inferred_event(ResourceType::Model, current_state as int, target_state as int),
    {
        if current_state == MODEL_STATE_UNSPECIFIED && target_state == MODEL_STATE_PENDING {
            owned("creation_request")
        } else if current_state == MODEL_STATE_PENDING && target_state == MODEL_STATE_CONTAINER_CREATING {
            owned("node_allocation_complete")
        } else if current_state == MODEL_STATE_PENDING && target_state == MODEL_STATE_FAILED {
            owned("node_allocation_failed")
        } else if current_state == MODEL_STATE_CONTAINER_CREATING && target_state == MODEL_STATE_RUNNING {
            owned("container_creation_complete")
        } else if current_state == MODEL_STATE_CONTAINER_CREATING && target_state == MODEL_STATE_FAILED {
            owned("container_creation_failed")
        } else if current_state == MODEL_STATE_RUNNING && target_state == MODEL_STATE_SUCCEEDED {
            owned("temporary_task_complete")
        } else if current_state == MODEL_STATE_RUNNING && target_state == MODEL_STATE_FAILED {
            owned("container_termination")
        } else if current_state == MODEL_STATE_RUNNING && target_state == MODEL_STATE_CRASH_LOOP_BACK_OFF {
            owned("repeated_crash_detection")
        } else if current_state == MODEL_STATE_RUNNING && target_state == MODEL_STATE_UNKNOWN {
            owned("monitoring_failure")
        } else if current_state == MODEL_STATE_CRASH_LOOP_BACK_OFF && target_state == MODEL_STATE_RUNNING {
            owned("backoff_time_elapsed")
        } else if current_state == MODEL_STATE_CRASH_LOOP_BACK_OFF && target_state == MODEL_STATE_FAILED {
            owned("maximum_retries_exceeded")
        } else if current_state == MODEL_STATE_UNKNOWN && target_state == MODEL_STATE_RUNNING {
            owned("state_check_recovered")
        } else if current_state == MODEL_STATE_FAILED && target_state == MODEL_STATE_PENDING {
            owned("manual_automatic_recovery")
        } else {
            fallback_event(current_state, target_state)
        }
    }
}

} // verus!
