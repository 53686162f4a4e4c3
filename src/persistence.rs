//! The stored form of resource records, and the record a committed transition writes.
use vstd::prelude::*;
use crate::states::{
    ResourceType, resource_type_code, resource_type_of, state_name, state_of_name, state_name_of,
    state_code_of_name, stored_state_code, is_legal_state,
};
use crate::text::owned;
use crate::textmap::TextMap;
use crate::types::{
    HealthStatus, ResourceState, SerializableHealthStatus, SerializableResourceState, StateChange,
};
use crate::utility::{StateUtilities, user_state_code};

verus! {

/// The stored name of an optional state.
pub open spec fn opt_state_name(t: ResourceType, s: Option<i32>) -> Option<Seq<char>> {
    match s {
        Some(c) => Some(state_name(t, c as int)),
        None => None,
    }
}

/// The state an optional stored name stands for under the kind with code `type_code`.
pub open spec fn opt_stored_state(type_code: i32, s: Option<String>) -> Option<i32> {
    match s {
        Some(d) => match resource_type_of(type_code) {
            Some(t) => state_of_name(t, d@),
            None => None,
        },
        None => None,
    }
}

/// The kind that a stored kind code is read as; unknown codes read as scenarios.
pub open spec fn stored_kind(type_code: i32) -> ResourceType {
    match resource_type_of(type_code) {
        Some(t) => t,
        None => ResourceType::Scenario,
    }
}

/// Stored names of declared states are read back as the same states.
pub proof fn lemma_state_name_round_trip(t: ResourceType, c: int)
    requires
        is_legal_state(t, c),
    ensures
        state_of_name(t, state_name(t, c)) == Some(c as i32),
{
    match t {
        ResourceType::Scenario => {
            reveal_strlit("SCENARIO_STATE_UNSPECIFIED");
            reveal_strlit("SCENARIO_STATE_IDLE");
            reveal_strlit("SCENARIO_STATE_WAITING");
            reveal_strlit("SCENARIO_STATE_ALLOWED");
            reveal_strlit("SCENARIO_STATE_PLAYING");
            reveal_strlit("SCENARIO_STATE_DENIED");
            assert("SCENARIO_STATE_IDLE"@.len() != "SCENARIO_STATE_UNSPECIFIED"@.len());
            assert("SCENARIO_STATE_WAITING"@.len() != "SCENARIO_STATE_UNSPECIFIED"@.len());
            assert("SCENARIO_STATE_WAITING"@.len() != "SCENARIO_STATE_IDLE"@.len());
            assert("SCENARIO_STATE_ALLOWED"@.len() != "SCENARIO_STATE_UNSPECIFIED"@.len());
            assert("SCENARIO_STATE_ALLOWED"@.len() != "SCENARIO_STATE_IDLE"@.len());
            assert("SCENARIO_STATE_ALLOWED"@[15] != "SCENARIO_STATE_WAITING"@[15]);
            assert("SCENARIO_STATE_PLAYING"@.len() != "SCENARIO_STATE_UNSPECIFIED"@.len());
            assert("SCENARIO_STATE_PLAYING"@.len() != "SCENARIO_STATE_IDLE"@.len());
            assert("SCENARIO_STATE_PLAYING"@[15] != "SCENARIO_STATE_WAITING"@[15]);
            assert("SCENARIO_STATE_PLAYING"@[15] != "SCENARIO_STATE_ALLOWED"@[15]);
            assert("SCENARIO_STATE_DENIED"@.len() != "SCENARIO_STATE_UNSPECIFIED"@.len());
            assert("SCENARIO_STATE_DENIED"@.len() != "SCENARIO_STATE_IDLE"@.len());
            assert("SCENARIO_STATE_DENIED"@.len() != "SCENARIO_STATE_WAITING"@.len());
            assert("SCENARIO_STATE_DENIED"@.len() != "SCENARIO_STATE_ALLOWED"@.len());
            assert("SCENARIO_STATE_DENIED"@.len() != "SCENARIO_STATE_PLAYING"@.len());
        },
        ResourceType::Package => {
            reveal_strlit("PACKAGE_STATE_UNSPECIFIED");
            reveal_strlit("PACKAGE_STATE_INITIALIZING");
            reveal_strlit("PACKAGE_STATE_RUNNING");
            reveal_strlit("PACKAGE_STATE_DEGRADED");
            reveal_strlit("PACKAGE_STATE_ERROR");
            reveal_strlit("PACKAGE_STATE_PAUSED");
            reveal_strlit("PACKAGE_STATE_UPDATING");
            assert("PACKAGE_STATE_INITIALIZING"@.len() != "PACKAGE_STATE_UNSPECIFIED"@.len());
            assert("PACKAGE_STATE_RUNNING"@.len() != "PACKAGE_STATE_UNSPECIFIED"@.len());
            assert("PACKAGE_STATE_RUNNING"@.len() != "PACKAGE_STATE_INITIALIZING"@.len());
            assert("PACKAGE_STATE_DEGRADED"@.len() != "PACKAGE_STATE_UNSPECIFIED"@.len());
            assert("PACKAGE_STATE_DEGRADED"@.len() != "PACKAGE_STATE_INITIALIZING"@.len());
            assert("PACKAGE_STATE_DEGRADED"@.len() != "PACKAGE_STATE_RUNNING"@.len());
            assert("PACKAGE_STATE_ERROR"@.len() != "PACKAGE_STATE_UNSPECIFIED"@.len());
            assert("PACKAGE_STATE_ERROR"@.len() != "PACKAGE_STATE_INITIALIZING"@.len());
            assert("PACKAGE_STATE_ERROR"@.len() != "PACKAGE_STATE_RUNNING"@.len());
            assert("PACKAGE_STATE_ERROR"@.len() != "PACKAGE_STATE_DEGRADED"@.len());
            assert("PACKAGE_STATE_PAUSED"@.len() != "PACKAGE_STATE_UNSPECIFIED"@.len());
            assert("PACKAGE_STATE_PAUSED"@.len() != "PACKAGE_STATE_INITIALIZING"@.len());
            assert("PACKAGE_STATE_PAUSED"@.len() != "PACKAGE_STATE_RUNNING"@.len());
            assert("PACKAGE_STATE_PAUSED"@.len() != "PACKAGE_STATE_DEGRADED"@.len());
            assert("PACKAGE_STATE_PAUSED"@.len() != "PACKAGE_STATE_ERROR"@.len());
            assert("PACKAGE_STATE_UPDATING"@.len() != "PACKAGE_STATE_UNSPECIFIED"@.len());
            assert("PACKAGE_STATE_UPDATING"@.len() != "PACKAGE_STATE_INITIALIZING"@.len());
            assert("PACKAGE_STATE_UPDATING"@.len() != "PACKAGE_STATE_RUNNING"@.len());
            assert("PACKAGE_STATE_UPDATING"@[14] != "PACKAGE_STATE_DEGRADED"@[14]);
            assert("PACKAGE_STATE_UPDATING"@.len() != "PACKAGE_STATE_ERROR"@.len());
            assert("PACKAGE_STATE_UPDATING"@.len() != "PACKAGE_STATE_PAUSED"@.len());
        },
        ResourceType::Model => {
            reveal_strlit("MODEL_STATE_UNSPECIFIED");
            reveal_strlit("MODEL_STATE_PENDING");
            reveal_strlit("MODEL_STATE_CONTAINER_CREATING");
            reveal_strlit("MODEL_STATE_RUNNING");
            reveal_strlit("MODEL_STATE_SUCCEEDED");
            reveal_strlit("MODEL_STATE_FAILED");
            reveal_strlit("MODEL_STATE_CRASH_LOOP_BACK_OFF");
            reveal_strlit("MODEL_STATE_UNKNOWN");
            assert("MODEL_STATE_PENDING"@.len() != "MODEL_STATE_UNSPECIFIED"@.len());
            assert("MODEL_STATE_CONTAINER_CREATING"@.len() != "MODEL_STATE_UNSPECIFIED"@.len());
            assert("MODEL_STATE_CONTAINER_CREATING"@.len() != "MODEL_STATE_PENDING"@.len());
            assert("MODEL_STATE_RUNNING"@.len() != "MODEL_STATE_UNSPECIFIED"@.len());
            assert("MODEL_STATE_RUNNING"@[12] != "MODEL_STATE_PENDING"@[12]);
            assert("MODEL_STATE_RUNNING"@.len() != "MODEL_STATE_CONTAINER_CREATING"@.len());
            assert("MODEL_STATE_SUCCEEDED"@.len() != "MODEL_STATE_UNSPECIFIED"@.len());
            assert("MODEL_STATE_SUCCEEDED"@.len() != "MODEL_STATE_PENDING"@.len());
            assert("MODEL_STATE_SUCCEEDED"@.len() != "MODEL_STATE_CONTAINER_CREATING"@.len());
            assert("MODEL_STATE_SUCCEEDED"@.len() != "MODEL_STATE_RUNNING"@.len());
            assert("MODEL_STATE_FAILED"@.len() != "MODEL_STATE_UNSPECIFIED"@.len());
            assert("MODEL_STATE_FAILED"@.len() != "MODEL_STATE_PENDING"@.len());
            assert("MODEL_STATE_FAILED"@.len() != "MODEL_STATE_CONTAINER_CREATING"@.len());
            assert("MODEL_STATE_FAILED"@.len() != "MODEL_STATE_RUNNING"@.len());
            assert("MODEL_STATE_FAILED"@.len() != "MODEL_STATE_SUCCEEDED"@.len());
            assert("MODEL_STATE_CRASH_LOOP_BACK_OFF"@.len() != "MODEL_STATE_UNSPECIFIED"@.len());
            assert("MODEL_STATE_CRASH_LOOP_BACK_OFF"@.len() != "MODEL_STATE_PENDING"@.len());
            assert("MODEL_STATE_CRASH_LOOP_BACK_OFF"@.len() != "MODEL_STATE_CONTAINER_CREATING"@.len());
            assert("MODEL_STATE_CRASH_LOOP_BACK_OFF"@.len() != "MODEL_STATE_RUNNING"@.len());
            assert("MODEL_STATE_CRASH_LOOP_BACK_OFF"@.len() != "MODEL_STATE_SUCCEEDED"@.len());
            assert("MODEL_STATE_CRASH_LOOP_BACK_OFF"@.len() != "MODEL_STATE_FAILED"@.len());
            assert("MODEL_STATE_UNKNOWN"@.len() != "MODEL_STATE_UNSPECIFIED"@.len());
            assert("MODEL_STATE_UNKNOWN"@[12] != "MODEL_STATE_PENDING"@[12]);
            assert("MODEL_STATE_UNKNOWN"@.len() != "MODEL_STATE_CONTAINER_CREATING"@.len());
            assert("MODEL_STATE_UNKNOWN"@[12] != "MODEL_STATE_RUNNING"@[12]);
            assert("MODEL_STATE_UNKNOWN"@.len() != "MODEL_STATE_SUCCEEDED"@.len());
            assert("MODEL_STATE_UNKNOWN"@.len() != "MODEL_STATE_FAILED"@.len());
            assert("MODEL_STATE_UNKNOWN"@.len() != "MODEL_STATE_CRASH_LOOP_BACK_OFF"@.len());
        },        _ => {},
    }
}

/// Declared state names are not blank.
pub proof fn lemma_state_name_not_blank(t: ResourceType, c: int)
    requires
        is_legal_state(t, c),
    ensures
        !crate::text::is_blank_spec(state_name(t, c)),
{
    match t {
        ResourceType::Scenario => {
            reveal_strlit("SCENARIO_STATE_UNSPECIFIED");
            reveal_strlit("SCENARIO_STATE_IDLE");
            reveal_strlit("SCENARIO_STATE_WAITING");
            reveal_strlit("SCENARIO_STATE_ALLOWED");
            reveal_strlit("SCENARIO_STATE_PLAYING");
            reveal_strlit("SCENARIO_STATE_DENIED");
        },
        ResourceType::Package => {
            reveal_strlit("PACKAGE_STATE_UNSPECIFIED");
            reveal_strlit("PACKAGE_STATE_INITIALIZING");
            reveal_strlit("PACKAGE_STATE_RUNNING");
            reveal_strlit("PACKAGE_STATE_DEGRADED");
            reveal_strlit("PACKAGE_STATE_ERROR");
            reveal_strlit("PACKAGE_STATE_PAUSED");
            reveal_strlit("PACKAGE_STATE_UPDATING");
        },
        ResourceType::Model => {
            reveal_strlit("MODEL_STATE_UNSPECIFIED");
            reveal_strlit("MODEL_STATE_PENDING");
            reveal_strlit("MODEL_STATE_CONTAINER_CREATING");
            reveal_strlit("MODEL_STATE_RUNNING");
            reveal_strlit("MODEL_STATE_SUCCEEDED");
            reveal_strlit("MODEL_STATE_FAILED");
            reveal_strlit("MODEL_STATE_CRASH_LOOP_BACK_OFF");
            reveal_strlit("MODEL_STATE_UNKNOWN");
        },
        _ => {},
    }
    assert(!crate::text::white_space(state_name(t, c)[0]));
}

/// Writing a record in stored form and reading it back gives the same record,
/// where its kind has a state machine and its states are declared ones.
pub proof fn lemma_record_round_trip(t: ResourceType, current: i32, desired: Option<i32>)
    requires
        is_legal_state(t, current as int),
        match desired {
            Some(d) => is_legal_state(t, d as int),
            None => true,
        },
    ensures
        stored_kind(resource_type_code(t)) == t,
        stored_state_code(resource_type_code(t), state_name(t, current as int)) == current,
        ({
            let back = match opt_state_name(t, desired) {
                Some(n) => match resource_type_of(resource_type_code(t)) {
                    Some(k) => state_of_name(k, n),
                    None => None,
                },
                None => None,
            };
            back == desired
        }),
{
    lemma_state_name_round_trip(t, current as int);
    match desired {
        Some(d) => lemma_state_name_round_trip(t, d as int),
        None => {},
    }
}

impl ResourceState {
    /// The stored form: states by name, times as Unix seconds.
    pub fn into_serializable(self) -> (r: SerializableResourceState)
        ensures
            r.resource_type == resource_type_code(self.resource_type),
            r.resource_name == self.resource_name,
            r.current_state@ == state_name(self.resource_type, self.current_state as int),
            opt_text_of(r.desired_state) == opt_state_name(self.resource_type, self.desired_state),
            r.last_transition_unix_timestamp == self.last_transition_time,
            r.transition_count == self.transition_count,
            r.metadata@ == self.metadata@,
            r.health_status.healthy == self.health_status.healthy,
            r.health_status.status_message == self.health_status.status_message,
            r.health_status.last_check_unix_timestamp == self.health_status.last_check,
            r.health_status.consecutive_failures == self.health_status.consecutive_failures,
    {
        let t = self.resource_type;
        let desired = match self.desired_state {
            Some(d) => Some(owned(state_name_of(d, t))),
            None => None,
        };
        SerializableResourceState {
            resource_type: t.code(),
            resource_name: self.resource_name,
            current_state: owned(state_name_of(self.current_state, t)),
            desired_state: desired,
            last_transition_unix_timestamp: self.last_transition_time,
            transition_count: self.transition_count,
            metadata: self.metadata,
            health_status: SerializableHealthStatus {
                healthy: self.health_status.healthy,
                status_message: self.health_status.status_message,
                last_check_unix_timestamp: self.health_status.last_check,
                consecutive_failures: self.health_status.consecutive_failures,
            },
        }
    }
}

pub open spec fn opt_text_of(o: Option<String>) -> Option<Seq<char>> {
    match o {
        Some(s) => Some(s@),
        None => None,
    }
}

/// The runtime form of a stored record: names read back as states; names that
/// are not declared read as the unspecified state, and an unknown kind reads as
/// a scenario.
pub open spec fn runtime_form(s: SerializableResourceState) -> ResourceState {
    ResourceState {
        resource_type: stored_kind(s.resource_type),
        resource_name: s.resource_name,
        current_state: stored_state_code(s.resource_type, s.current_state@),
        desired_state: opt_stored_state(s.resource_type, s.desired_state),
        last_transition_time: s.last_transition_unix_timestamp,
        transition_count: s.transition_count,
        metadata: s.metadata,
        health_status: HealthStatus {
            healthy: s.health_status.healthy,
            status_message: s.health_status.status_message,
            last_check: s.health_status.last_check_unix_timestamp,
            consecutive_failures: s.health_status.consecutive_failures,
        },
    }
}

impl SerializableResourceState {
    /// The runtime form: names read back as states; names that are not declared
    /// read as the unspecified state, and an unknown kind reads as a scenario.
    pub fn into_runtime(self) -> (r: ResourceState)
        ensures
            r == runtime_form(self),
    {
        let kind = ResourceType::from_code(self.resource_type);
        let current = StateUtilities::enum_str_to_int(self.current_state.as_str(), self.resource_type);
        let desired = match (&self.desired_state, kind) {
            (Some(d), Some(t)) => state_code_of_name(t, d.as_str()),
            _ => None,
        };
        let t = match kind {
            Some(t) => t,
            None => ResourceType::Scenario,
        };
        ResourceState {
            resource_type: t,
            resource_name: self.resource_name,
            current_state: current,
            desired_state: desired,
            last_transition_time: self.last_transition_unix_timestamp,
            transition_count: self.transition_count,
            metadata: self.metadata,
            health_status: HealthStatus {
                healthy: self.health_status.healthy,
                status_message: self.health_status.status_message,
                last_check: self.health_status.last_check_unix_timestamp,
                consecutive_failures: self.health_status.consecutive_failures,
            },
        }
    }
}

/// The record that a transition into `new_state` at time `now` writes: the
/// existing record, if any, with the state and the requested target by name,
/// the time, and one more transition counted; else a first record.
pub open spec fn updated_record_ok(
    r: SerializableResourceState,
    existing: Option<ResourceState>,
    sc: StateChange,
    new_state: i32,
    t: ResourceType,
    now: u64,
) -> bool {
    &&& r.current_state@ == state_name(t, new_state as int)
    &&& r.desired_state is Some
    &&& r.desired_state->Some_0@ == state_name(t, user_state_code(sc.resource_type, sc.target_state@) as int)
    &&& r.last_transition_unix_timestamp == now
    &&& match existing {
        Some(cur) => {
            &&& r.resource_type == resource_type_code(cur.resource_type)
            &&& r.resource_name == cur.resource_name
            &&& r.transition_count as int == if cur.transition_count < u32::MAX { cur.transition_count + 1 } else { cur.transition_count as int }
            &&& r.metadata@ == cur.metadata@
            &&& r.health_status.healthy == cur.health_status.healthy
            &&& r.health_status.consecutive_failures == cur.health_status.consecutive_failures
            &&& r.health_status.last_check_unix_timestamp == now
        },
        None => {
            &&& r.resource_type == resource_type_code(t)
            &&& r.resource_name@ == sc.resource_name@
            &&& r.transition_count == 1
            &&& r.metadata@ == Map::<Seq<char>, String>::empty()
            &&& r.health_status.healthy
            &&& r.health_status.consecutive_failures == 0
            &&& r.health_status.status_message@ == "Healthy"@
            &&& r.health_status.last_check_unix_timestamp == now
        },
    }
}

pub struct StatePersistence;

impl StatePersistence {
    /// Builds the record to write for a transition into `new_state`, from the
    /// cached record if there is one, else from the request.
    pub fn build_updated_state(
        existing_state: Option<&ResourceState>,
        state_change: &StateChange,
        new_state: i32,
        resource_type: ResourceType,
        now: u64,
    ) -> (r: SerializableResourceState)
        ensures
            updated_record_ok(
                r,
                match existing_state {
                    Some(c) => Some(*c),
                    None => None,
                },
                *state_change,
                new_state,
                resource_type,
                now,
            ),
    {
        let desired = StateUtilities::state_str_to_enum(state_change.target_state.as_str(), state_change.resource_type);
        let desired_name = owned(state_name_of(desired, resource_type));
        match existing_state {
            Some(current) => {
                let count: u32 = if current.transition_count < u32::MAX {
                    current.transition_count + 1
                } else {
                    current.transition_count
                };
                SerializableResourceState {
                    resource_type: current.resource_type.code(),
                    resource_name: current.resource_name.clone(),
                    current_state: owned(state_name_of(new_state, resource_type)),
                    desired_state: Some(desired_name),
                    last_transition_unix_timestamp: now,
                    transition_count: count,
                    metadata: current.metadata.copy(),
                    health_status: SerializableHealthStatus {
                        healthy: current.health_status.healthy,
                        status_message: current.health_status.status_message.clone(),
                        last_check_unix_timestamp: now,
                        consecutive_failures: current.health_status.consecutive_failures,
                    },
                }
            },
            None => SerializableResourceState {
                resource_type: resource_type.code(),
                resource_name: state_change.resource_name.clone(),
                current_state: owned(state_name_of(new_state, resource_type)),
                desired_state: Some(desired_name),
                last_transition_unix_timestamp: now,
                transition_count: 1,
                metadata: TextMap::new(),
                health_status: SerializableHealthStatus {
                    healthy: true,
                    status_message: owned("Healthy"),
                    last_check_unix_timestamp: now,
                    consecutive_failures: 0,
                },
            },
        }
    }
}

} // verus!
