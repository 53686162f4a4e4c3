//! Checks on incoming state changes, on stored records, and the guard table.
use vstd::prelude::*;
use crate::states::{ResourceType, resource_type_of, state_of_name, state_code_of_name};
use crate::text::{is_blank, is_blank_spec, owned, text_eq};
use crate::types::{StateChange, SerializableResourceState, unix_seconds};

verus! {

/// Slack allowed for stored timestamps that lie in the future, in seconds.
pub const MAX_FUTURE_SKEW_SECS: u64 = 3600;

/// The reason a state change is malformed, checked in this order.
pub open spec fn state_change_problem(sc: StateChange) -> Option<Seq<char>> {
    if is_blank_spec(sc.resource_name@) {
        Some("Resource name cannot be empty"@)
    } else if is_blank_spec(sc.transition_id@) {
        Some("Transition ID cannot be empty"@)
    } else if sc.current_state@ == sc.target_state@ {
        Some("Current and target states cannot be the same"@)
    } else if is_blank_spec(sc.source@) {
        Some("Source cannot be empty"@)
    } else {
        None
    }
}

/// A stored record is sound at time `now`: a kind with a state machine, a name,
/// a declared state, and a timestamp at most an hour ahead.
#[verifier::opaque]
pub open spec fn loaded_state_valid(s: SerializableResourceState, now: u64) -> bool {
    match resource_type_of(s.resource_type) {
        Some(t) => {
            &&& !is_blank_spec(s.resource_name@)
            &&& !is_blank_spec(s.current_state@)
            &&& state_of_name(t, s.current_state@) is Some
            &&& s.last_transition_unix_timestamp as int <= now as int + MAX_FUTURE_SKEW_SECS as int
        },
        None => false,
    }
}

/// Guards that the default predicate table holds false; every other guard,
/// known or not, holds.
pub open spec fn guard_holds(c: Seq<char>) -> bool {
    !(c == "critical_models_failed"@
        || c == "critical_model_issues"@
        || c == "critical_models_affected"@
        || c == "timeout_or_error"@
        || c == "unexpected_termination"@
        || c == "consecutive_restart_failures"@
        || c == "node_communication_issues"@
        || c == "retry_limit_reached"@)
}

pub struct StateValidator;

impl StateValidator {
    /// Checks that a state change names a resource, a transition id, a source,
    /// and two different states.
    pub fn validate_state_change(state_change: &StateChange) -> (r: Result<(), String>)
        ensures
            match state_change_problem(*state_change) {
                Some(m) => r is Err && r->Err_0@ == m,
                None => r is Ok,
            },
    {
        if is_blank(state_change.resource_name.as_str()) {
            return Err(owned("Resource name cannot be empty"));
        }
        if is_blank(state_change.transition_id.as_str()) {
            return Err(owned("Transition ID cannot be empty"));
        }
        if state_change.current_state == state_change.target_state {
            return Err(owned("Current and target states cannot be the same"));
        }
        if is_blank(state_change.source.as_str()) {
            return Err(owned("Source cannot be empty"));
        }
        Ok(())
    }

    /// Checks a stored record against the current time.
    pub fn validate_loaded_state(state: &SerializableResourceState) -> (r: bool)
        ensures
            exists|now: u64| r == #[trigger] loaded_state_valid(*state, now),
    {
        let now = unix_seconds();
        let r = Self::validate_loaded_state_at(state, now);
        assert(r == loaded_state_valid(*state, now));
        r
    }

    /// Checks a stored record against the time `now` (Unix seconds).
    pub fn validate_loaded_state_at(state: &SerializableResourceState, now: u64) -> (r: bool)
        ensures
            r == loaded_state_valid(*state, now),
    {
        reveal(loaded_state_valid);
        let t = match ResourceType::from_code(state.resource_type) {
            Some(t) => t,
            None => return false,
        };
        if is_blank(state.resource_name.as_str()) {
            return false;
        }
        if is_blank(state.current_state.as_str()) {
            return false;
        }
        if state_code_of_name(t, state.current_state.as_str()).is_none() {
            return false;
        }
        (state.last_transition_unix_timestamp as u128) <= (now as u128) + (MAX_FUTURE_SKEW_SECS as u128)
    }

    /// The value of a transition guard under the default predicate table.
    pub fn evaluate_condition(condition: &str, _state_change: &StateChange) -> (r: bool)
        ensures
            r == guard_holds(condition@),
    {
        !(text_eq(condition, "critical_models_failed")
            || text_eq(condition, "critical_model_issues")
            || text_eq(condition, "critical_models_affected")
            || text_eq(condition, "timeout_or_error")
            || text_eq(condition, "unexpected_termination")
            || text_eq(condition, "consecutive_restart_failures")
            || text_eq(condition, "node_communication_issues")
            || text_eq(condition, "retry_limit_reached"))
    }
}

} // verus!
