//! Backoff timers for models in the crash-loop state.
use vstd::prelude::*;
use crate::states::{ResourceType, MODEL_STATE_CRASH_LOOP_BACK_OFF, stored_state_code, resource_type_of};
use crate::text::owned;
use crate::textmap::TextMap;
use crate::types::{ErrorCode, SerializableResourceState};
use crate::utility::StateUtilities;

verus! {

/// Minimum dwell time in the crash-loop state, in seconds.
pub const BACKOFF_DURATION_SECS: u64 = 30;

/// Seconds from `start` to `now`; none when the clock reads earlier than the start.
pub open spec fn elapsed_secs(start: u64, now: u64) -> int {
    if now >= start { now - start } else { 0 }
}

/// The resource is a model in the crash-loop state whose timer started less than
/// the backoff window before `now`.
pub open spec fn in_backoff(timers: Map<Seq<char>, u64>, key: Seq<char>, t: ResourceType, current_state: i32, now: u64) -> bool {
    &&& t == ResourceType::Model
    &&& current_state == MODEL_STATE_CRASH_LOOP_BACK_OFF
    &&& timers.contains_key(key)
    &&& elapsed_secs(timers[key], now) < BACKOFF_DURATION_SECS
}

/// The start that a restored timer gets: the stored transition time, but never
/// further back than just past the window.
pub open spec fn restored_start(stored: u64, now: u64) -> u64 {
    if elapsed_secs(stored, now) < BACKOFF_DURATION_SECS {
        (now - elapsed_secs(stored, now)) as u64
    } else if now >= BACKOFF_DURATION_SECS + 1 {
        (now - (BACKOFF_DURATION_SECS + 1)) as u64
    } else {
        0
    }
}

pub struct BackoffManager;

impl BackoffManager {
    /// Refuses a transition while the resource is in its backoff window.
    pub fn check_backoff_period(
        backoff_timers: &TextMap<u64>,
        resource_key: &str,
        current_state: i32,
        resource_type: ResourceType,
        now: u64,
    ) -> (r: Result<(), (ErrorCode, String)>)
        ensures
            in_backoff(backoff_timers@, resource_key@, resource_type, current_state, now) ==> (r is Err
                && r->Err_0.0 == ErrorCode::PreconditionFailed
                && r->Err_0.1@ == "Resource is in backoff period"@),
            !in_backoff(backoff_timers@, resource_key@, resource_type, current_state, now) ==> r is Ok,
    {
        if resource_type == ResourceType::Model && current_state == MODEL_STATE_CRASH_LOOP_BACK_OFF {
            match backoff_timers.get(resource_key) {
                Some(start) => {
                    let elapsed: u64 = if now >= *start { now - *start } else { 0 };
                    if elapsed < BACKOFF_DURATION_SECS {
                        return Err((ErrorCode::PreconditionFailed, owned("Resource is in backoff period")));
                    }
                },
                None => {},
            }
        }
        Ok(())
    }

    /// Starts the timer when a model enters the crash-loop state.
    pub fn set_backoff_timer(
        backoff_timers: &mut TextMap<u64>,
        resource_key: &str,
        to_state: i32,
        resource_type: ResourceType,
        now: u64,
    )
        ensures
            (resource_type == ResourceType::Model && to_state == MODEL_STATE_CRASH_LOOP_BACK_OFF)
                ==> final(backoff_timers)@ == old(backoff_timers)@.insert(resource_key@, now),
            !(resource_type == ResourceType::Model && to_state == MODEL_STATE_CRASH_LOOP_BACK_OFF)
                ==> final(backoff_timers)@ == old(backoff_timers)@,
    {
        if resource_type == ResourceType::Model && to_state == MODEL_STATE_CRASH_LOOP_BACK_OFF {
            backoff_timers.insert(owned(resource_key), now);
        }
    }

    /// Rebuilds the timer of a model loaded in the crash-loop state, from the
    /// stored transition time.
    pub fn restore_backoff_timer(
        backoff_timers: &mut TextMap<u64>,
        resource_key: &str,
        state: &SerializableResourceState,
        now: u64,
    )
        ensures
            (resource_type_of(state.resource_type) == Some(ResourceType::Model)
                && stored_state_code(state.resource_type, state.current_state@) == MODEL_STATE_CRASH_LOOP_BACK_OFF)
                ==> final(backoff_timers)@ == old(backoff_timers)@.insert(
                    resource_key@, restored_start(state.last_transition_unix_timestamp, now)),
            !(resource_type_of(state.resource_type) == Some(ResourceType::Model)
                && stored_state_code(state.resource_type, state.current_state@) == MODEL_STATE_CRASH_LOOP_BACK_OFF)
                ==> final(backoff_timers)@ == old(backoff_timers)@,
    {
        let code = StateUtilities::enum_str_to_int(state.current_state.as_str(), state.resource_type);
        if state.resource_type == 3 && code == MODEL_STATE_CRASH_LOOP_BACK_OFF {
            let stored = state.last_transition_unix_timestamp;
            let elapsed: u64 = if now >= stored { now - stored } else { 0 };
            let start: u64 = if elapsed < BACKOFF_DURATION_SECS {
                now - elapsed
            } else if now >= BACKOFF_DURATION_SECS + 1 {
                now - (BACKOFF_DURATION_SECS + 1)
            } else {
                0
            };
            backoff_timers.insert(owned(resource_key), start);
        }
    }
}

} // verus!
