//! Records of the state machine: requests, results, commands and resource states.
use vstd::prelude::*;
use crate::states::ResourceType;
use crate::text::owned;
use crate::textmap::TextMap;

verus! {

/// Outcome codes carried on the wire.
#[derive(Debug, Clone, Copy, PartialEq, Eq, Structural)]
pub enum ErrorCode {
    Success,
    InvalidRequest,
    InvalidStateTransition,
    PreconditionFailed,
    ResourceNotFound,
    InternalError,
}

pub open spec fn error_code_value(c: ErrorCode) -> i32 {
    match c {
        ErrorCode::Success => 0,
        ErrorCode::InvalidRequest => 1,
        ErrorCode::InvalidStateTransition => 2,
        ErrorCode::PreconditionFailed => 3,
        ErrorCode::ResourceNotFound => 4,
        ErrorCode::InternalError => 5,
    }
}

impl ErrorCode {
    /// The wire code.
    pub fn code(&self) -> (r: i32)
        ensures
            r == error_code_value(*self),
    {
        match self {
            ErrorCode::Success => 0,
            ErrorCode::InvalidRequest => 1,
            ErrorCode::InvalidStateTransition => 2,
            ErrorCode::PreconditionFailed => 3,
            ErrorCode::ResourceNotFound => 4,
            ErrorCode::InternalError => 5,
        }
    }
}

/// A request to move a resource from one state to another.
#[derive(Debug, Clone)]
pub struct StateChange {
    pub resource_type: i32,
    pub resource_name: String,
    pub current_state: String,
    pub target_state: String,
    pub transition_id: String,
    pub source: String,
    pub timestamp_ns: i64,
}

/// The answer sent back for a state change.
#[derive(Debug, Clone)]
pub struct StateChangeResponse {
    pub message: String,
    pub transition_id: String,
    pub timestamp_ns: i64,
    pub error_code: i32,
    pub error_details: String,
}

/// Result of a transition attempt.
#[derive(Debug, Clone)]
pub struct TransitionResult {
    pub new_state: i32,
    pub error_code: ErrorCode,
    pub message: String,
    pub actions_to_execute: Vec<String>,
    pub transition_id: String,
    pub error_details: String,
    pub success: bool,
    pub timestamp_ns: i64,
}

/// Relies on `std::time::SystemTime::now`: nanoseconds since the Unix epoch, 0 before it.
#[verifier::external_body]
fn unix_nanos() -> (r: i64)
{
    std::time::SystemTime::now()
        .duration_since(std::time::UNIX_EPOCH)
        .unwrap_or_default()
        .as_nanos() as i64
}

/// Relies on `std::time::SystemTime::now`: whole seconds since the Unix epoch, 0 before it.
#[verifier::external_body]
pub(crate) fn unix_seconds() -> (r: u64)
{
    std::time::SystemTime::now()
        .duration_since(std::time::UNIX_EPOCH)
        .unwrap_or_default()
        .as_secs()
}

impl TransitionResult {
    /// A successful result that lands in `new_state`.
    pub fn success(new_state: i32, transition_id: String, message: Option<String>) -> (r: TransitionResult)
        ensures
            r.new_state == new_state,
            r.error_code == ErrorCode::Success,
            r.success,
            r.transition_id@ == transition_id@,
            r.actions_to_execute@.len() == 0,
            r.error_details@.len() == 0,
            match message {
                Some(m) => r.message@ == m@,
                None => r.message@ == "Transition completed successfully"@,
            },
    {
        let msg = match message {
            Some(m) => m,
            None => owned("Transition completed successfully"),
        };
        TransitionResult {
            new_state,
            error_code: ErrorCode::Success,
            message: msg,
            actions_to_execute: Vec::new(),
            transition_id,
            error_details: String::new(),
            success: true,
            timestamp_ns: unix_nanos(),
        }
    }

    /// A failed result; the resource stays in `current_state`.
    pub fn failure(
        current_state: i32,
        transition_id: String,
        error_code: ErrorCode,
        message: String,
        error_details: String,
    ) -> (r: TransitionResult)
        ensures
            r.new_state == current_state,
            r.error_code == error_code,
            !r.success,
            r.transition_id@ == transition_id@,
            r.message@ == message@,
            r.error_details@ == error_details@,
            r.actions_to_execute@.len() == 0,
    {
        TransitionResult {
            new_state: current_state,
            error_code,
            message,
            actions_to_execute: Vec::new(),
            transition_id,
            error_details,
            success: false,
            timestamp_ns: unix_nanos(),
        }
    }

    pub open spec fn succeeded(&self) -> bool {
        self.success && self.error_code == ErrorCode::Success
    }

    /// True when the transition went through.
    pub fn is_success(&self) -> (r: bool)
        ensures
            r == self.succeeded(),
    {
        self.success && self.error_code == ErrorCode::Success
    }

    /// True when the transition did not go through.
    pub fn is_failure(&self) -> (r: bool)
        ensures
            r == !self.succeeded(),
    {
        !self.success || self.error_code != ErrorCode::Success
    }

    /// The wire form of this result.
    pub fn to_state_change_response(&self) -> (r: StateChangeResponse)
        ensures
            r.message@ == self.message@,
            r.transition_id@ == self.transition_id@,
            r.timestamp_ns == self.timestamp_ns,
            r.error_code == error_code_value(self.error_code),
            r.error_details@ == self.error_details@,
    {
        StateChangeResponse {
            message: self.message.clone(),
            transition_id: self.transition_id.clone(),
            timestamp_ns: self.timestamp_ns,
            error_code: self.error_code.code(),
            error_details: self.error_details.clone(),
        }
    }

    /// Adds an action to run.
    pub fn with_action(self, action: String) -> (r: TransitionResult)
        ensures
            r.actions_to_execute@ == self.actions_to_execute@.push(action),
            r.new_state == self.new_state,
            r.error_code == self.error_code,
            r.success == self.success,
            r.message == self.message,
            r.transition_id == self.transition_id,
            r.error_details == self.error_details,
            r.timestamp_ns == self.timestamp_ns,
    {
        let mut r = self;
        r.actions_to_execute.push(action);
        r
    }

    /// Adds several actions to run, in order.
    pub fn with_actions(self, actions: Vec<String>) -> (r: TransitionResult)
        ensures
            r.actions_to_execute@ == self.actions_to_execute@ + actions@,
            r.new_state == self.new_state,
            r.error_code == self.error_code,
            r.success == self.success,
            r.message == self.message,
            r.transition_id == self.transition_id,
            r.error_details == self.error_details,
            r.timestamp_ns == self.timestamp_ns,
    {
        let mut r = self;
        let mut more = actions;
        r.actions_to_execute.append(&mut more);
        r
    }
}

/// An action emitted by a committed transition.
#[derive(Debug)]
pub struct ActionCommand {
    pub action: String,
    pub resource_key: String,
    pub resource_type: ResourceType,
    pub transition_id: String,
    pub context: TextMap<String>,
}

impl ActionCommand {
    /// A command with an empty context.
    pub fn new(action: String, resource_key: String, resource_type: ResourceType, transition_id: String) -> (r: ActionCommand)
        ensures
            r.action == action,
            r.resource_key == resource_key,
            r.resource_type == resource_type,
            r.transition_id == transition_id,
            r.context@ == Map::<Seq<char>, String>::empty(),
    {
        ActionCommand { action, resource_key, resource_type, transition_id, context: TextMap::new() }
    }

    /// Sets one context entry.
    pub fn with_context(self, key: String, value: String) -> (r: ActionCommand)
        ensures
            r.context@ == self.context@.insert(key@, value),
            r.action == self.action,
            r.resource_key == self.resource_key,
            r.resource_type == self.resource_type,
            r.transition_id == self.transition_id,
    {
        let mut r = self;
        r.context.insert(key, value);
        r
    }

    /// Sets every entry of `context`, its entries winning.
    pub fn with_context_map(self, context: TextMap<String>) -> (r: ActionCommand)
        ensures
            r.context@ == self.context@.union_prefer_right(context@),
            r.action == self.action,
            r.resource_key == self.resource_key,
            r.resource_type == self.resource_type,
            r.transition_id == self.transition_id,
    {
        let mut r = self;
        r.context.extend(context);
        r
    }
}

/// Health of one resource, as tracked by the engine.
#[derive(Debug, Clone)]
pub struct HealthStatus {
    pub healthy: bool,
    pub status_message: String,
    /// Unix seconds of the last update.
    pub last_check: u64,
    pub consecutive_failures: u32,
}

/// The runtime record of one managed resource.
#[derive(Debug)]
pub struct ResourceState {
    pub resource_type: ResourceType,
    pub resource_name: String,
    pub current_state: i32,
    pub desired_state: Option<i32>,
    /// Unix seconds of the last transition.
    pub last_transition_time: u64,
    pub transition_count: u32,
    pub metadata: TextMap<String>,
    pub health_status: HealthStatus,
}

/// Health as stored with a resource record.
#[derive(Debug, Clone)]
pub struct SerializableHealthStatus {
    pub healthy: bool,
    pub status_message: String,
    pub last_check_unix_timestamp: u64,
    pub consecutive_failures: u32,
}

/// A resource record as stored in the KV store: states by name.
#[derive(Debug)]
pub struct SerializableResourceState {
    pub resource_type: i32,
    pub resource_name: String,
    pub current_state: String,
    pub desired_state: Option<String>,
    pub last_transition_unix_timestamp: u64,
    pub transition_count: u32,
    pub metadata: TextMap<String>,
    pub health_status: SerializableHealthStatus,
}

/// A point in time as Unix seconds.
#[derive(Debug, Clone, Copy)]
pub struct SerializableInstant {
    pub unix_timestamp: u64,
}

impl SerializableInstant {
    /// The current time.
    pub fn now() -> (r: SerializableInstant) {
        SerializableInstant { unix_timestamp: unix_seconds() }
    }
}

} // verus!
