//! Resource kinds, their state codes and the text names under which states are stored.
use vstd::prelude::*;
use crate::text::text_eq;

verus! {

/// Kind of a managed resource; its wire code is given by `code`.
#[derive(Debug, Clone, Copy, PartialEq, Eq, Structural)]
pub enum ResourceType {
    Unspecified,
    Scenario,
    Package,
    Model,
    Volume,
    Network,
    Node,
}

pub open spec fn resource_type_code(t: ResourceType) -> i32 {
    match t {
        ResourceType::Unspecified => 0,
        ResourceType::Scenario => 1,
        ResourceType::Package => 2,
        ResourceType::Model => 3,
        ResourceType::Volume => 4,
        ResourceType::Network => 5,
        ResourceType::Node => 6,
    }
}

pub open spec fn resource_type_of(code: i32) -> Option<ResourceType> {
    if code == 0 { Some(ResourceType::Unspecified) }
    else if code == 1 { Some(ResourceType::Scenario) }
    else if code == 2 { Some(ResourceType::Package) }
    else if code == 3 { Some(ResourceType::Model) }
    else if code == 4 { Some(ResourceType::Volume) }
    else if code == 5 { Some(ResourceType::Network) }
    else if code == 6 { Some(ResourceType::Node) }
    else { None }
}

impl ResourceType {
    /// The wire code of this kind.
    pub fn code(&self) -> (r: i32)
        ensures
            r == resource_type_code(*self),
    {
        match self {
            ResourceType::Unspecified => 0,
            ResourceType::Scenario => 1,
            ResourceType::Package => 2,
            ResourceType::Model => 3,
            ResourceType::Volume => 4,
            ResourceType::Network => 5,
            ResourceType::Node => 6,
        }
    }

    /// The kind with the given wire code, if any.
    pub fn from_code(code: i32) -> (r: Option<ResourceType>)
        ensures
            r == resource_type_of(code),
    {
        if code == 0 { Some(ResourceType::Unspecified) }
        else if code == 1 { Some(ResourceType::Scenario) }
        else if code == 2 { Some(ResourceType::Package) }
        else if code == 3 { Some(ResourceType::Model) }
        else if code == 4 { Some(ResourceType::Volume) }
        else if code == 5 { Some(ResourceType::Network) }
        else if code == 6 { Some(ResourceType::Node) }
        else { None }
    }

    /// The name used in resource keys (`Model::x`).
    pub fn key_name(&self) -> (r: &'static str)
        ensures
            r@ == type_key_name(*self),
    {
        match self {
            ResourceType::Unspecified => "Unspecified",
            ResourceType::Scenario => "Scenario",
            ResourceType::Package => "Package",
            ResourceType::Model => "Model",
            ResourceType::Volume => "Volume",
            ResourceType::Network => "Network",
            ResourceType::Node => "Node",
        }
    }
}

pub open spec fn type_key_name(t: ResourceType) -> Seq<char> {
    match t {
        ResourceType::Unspecified => "Unspecified"@,
        ResourceType::Scenario => "Scenario"@,
        ResourceType::Package => "Package"@,
        ResourceType::Model => "Model"@,
        ResourceType::Volume => "Volume"@,
        ResourceType::Network => "Network"@,
        ResourceType::Node => "Node"@,
    }
}

pub const SCENARIO_STATE_UNSPECIFIED: i32 = 0;
pub const SCENARIO_STATE_IDLE: i32 = 1;
pub const SCENARIO_STATE_WAITING: i32 = 2;
pub const SCENARIO_STATE_ALLOWED: i32 = 3;
pub const SCENARIO_STATE_PLAYING: i32 = 4;
pub const SCENARIO_STATE_DENIED: i32 = 5;

pub const PACKAGE_STATE_UNSPECIFIED: i32 = 0;
pub const PACKAGE_STATE_INITIALIZING: i32 = 1;
pub const PACKAGE_STATE_RUNNING: i32 = 2;
pub const PACKAGE_STATE_DEGRADED: i32 = 3;
pub const PACKAGE_STATE_ERROR: i32 = 4;
pub const PACKAGE_STATE_PAUSED: i32 = 5;
pub const PACKAGE_STATE_UPDATING: i32 = 6;

pub const MODEL_STATE_UNSPECIFIED: i32 = 0;
pub const MODEL_STATE_PENDING: i32 = 1;
pub const MODEL_STATE_CONTAINER_CREATING: i32 = 2;
pub const MODEL_STATE_RUNNING: i32 = 3;
pub const MODEL_STATE_SUCCEEDED: i32 = 4;
pub const MODEL_STATE_FAILED: i32 = 5;
pub const MODEL_STATE_CRASH_LOOP_BACK_OFF: i32 = 6;
pub const MODEL_STATE_UNKNOWN: i32 = 7;

/// Number of declared states of a kind; kinds without a state machine have none.
pub open spec fn state_count(t: ResourceType) -> int {
    match t {
        ResourceType::Scenario => 6,
        ResourceType::Package => 7,
        ResourceType::Model => 8,
        _ => 0,
    }
}

/// `code` is a declared state of kind `t`.
pub open spec fn is_legal_state(t: ResourceType, code: int) -> bool {
    0 <= code < state_count(t)
}

pub open spec fn scenario_state_name(code: int) -> Seq<char> {
    if code == 0 { "SCENARIO_STATE_UNSPECIFIED"@ }
    else if code == 1 { "SCENARIO_STATE_IDLE"@ }
    else if code == 2 { "SCENARIO_STATE_WAITING"@ }
    else if code == 3 { "SCENARIO_STATE_ALLOWED"@ }
    else if code == 4 { "SCENARIO_STATE_PLAYING"@ }
    else if code == 5 { "SCENARIO_STATE_DENIED"@ }
    else { "UNKNOWN"@ }
}

pub open spec fn package_state_name(code: int) -> Seq<char> {
    if code == 0 { "PACKAGE_STATE_UNSPECIFIED"@ }
    else if code == 1 { "PACKAGE_STATE_INITIALIZING"@ }
    else if code == 2 { "PACKAGE_STATE_RUNNING"@ }
    else if code == 3 { "PACKAGE_STATE_DEGRADED"@ }
    else if code == 4 { "PACKAGE_STATE_ERROR"@ }
    else if code == 5 { "PACKAGE_STATE_PAUSED"@ }
    else if code == 6 { "PACKAGE_STATE_UPDATING"@ }
    else { "UNKNOWN"@ }
}

pub open spec fn model_state_name(code: int) -> Seq<char> {
    if code == 0 { "MODEL_STATE_UNSPECIFIED"@ }
    else if code == 1 { "MODEL_STATE_PENDING"@ }
    else if code == 2 { "MODEL_STATE_CONTAINER_CREATING"@ }
    else if code == 3 { "MODEL_STATE_RUNNING"@ }
    else if code == 4 { "MODEL_STATE_SUCCEEDED"@ }
    else if code == 5 { "MODEL_STATE_FAILED"@ }
    else if code == 6 { "MODEL_STATE_CRASH_LOOP_BACK_OFF"@ }
    else if code == 7 { "MODEL_STATE_UNKNOWN"@ }
    else { "UNKNOWN"@ }
}

/// The stored name of state `code` of kind `t`; `UNKNOWN` where none is declared.
pub open spec fn state_name(t: ResourceType, code: int) -> Seq<char> {
    match t {
        ResourceType::Scenario => scenario_state_name(code),
        ResourceType::Package => package_state_name(code),
        ResourceType::Model => model_state_name(code),
        _ => "UNKNOWN"@,
    }
}

/// The state of kind `t` whose stored name is `s`, if any.
pub open spec fn state_of_name(t: ResourceType, s: Seq<char>) -> Option<i32> {
    match t {
        ResourceType::Scenario => {
            if s == "SCENARIO_STATE_UNSPECIFIED"@ { Some(0i32) }
            else if s == "SCENARIO_STATE_IDLE"@ { Some(1i32) }
            else if s == "SCENARIO_STATE_WAITING"@ { Some(2i32) }
            else if s == "SCENARIO_STATE_ALLOWED"@ { Some(3i32) }
            else if s == "SCENARIO_STATE_PLAYING"@ { Some(4i32) }
            else if s == "SCENARIO_STATE_DENIED"@ { Some(5i32) }
            else { None }
        },
        ResourceType::Package => {
            if s == "PACKAGE_STATE_UNSPECIFIED"@ { Some(0i32) }
            else if s == "PACKAGE_STATE_INITIALIZING"@ { Some(1i32) }
            else if s == "PACKAGE_STATE_RUNNING"@ { Some(2i32) }
            else if s == "PACKAGE_STATE_DEGRADED"@ { Some(3i32) }
            else if s == "PACKAGE_STATE_ERROR"@ { Some(4i32) }
            else if s == "PACKAGE_STATE_PAUSED"@ { Some(5i32) }
            else if s == "PACKAGE_STATE_UPDATING"@ { Some(6i32) }
            else { None }
        },
        ResourceType::Model => {
            if s == "MODEL_STATE_UNSPECIFIED"@ { Some(0i32) }
            else if s == "MODEL_STATE_PENDING"@ { Some(1i32) }
            else if s == "MODEL_STATE_CONTAINER_CREATING"@ { Some(2i32) }
            else if s == "MODEL_STATE_RUNNING"@ { Some(3i32) }
            else if s == "MODEL_STATE_SUCCEEDED"@ { Some(4i32) }
            else if s == "MODEL_STATE_FAILED"@ { Some(5i32) }
            else if s == "MODEL_STATE_CRASH_LOOP_BACK_OFF"@ { Some(6i32) }
            else if s == "MODEL_STATE_UNKNOWN"@ { Some(7i32) }
            else { None }
        },
        _ => None,
    }
}

/// The code that a stored name stands for under the kind with wire code `type_code`;
/// names that are not declared give the unspecified state, 0.
pub open spec fn stored_state_code(type_code: i32, s: Seq<char>) -> i32 {
    match resource_type_of(type_code) {
        Some(t) => match state_of_name(t, s) {
            Some(c) => c,
            None => 0,
        },
        None => 0,
    }
}

/// The code of the stored name `s` under kind `t`.
pub fn state_code_of_name(t: ResourceType, s: &str) -> (r: Option<i32>)
    ensures
        r == state_of_name(t, s@),
{
    match t {
        ResourceType::Scenario => {
            if text_eq(s, "SCENARIO_STATE_UNSPECIFIED") { Some(0) }
            else if text_eq(s, "SCENARIO_STATE_IDLE") { Some(1) }
            else if text_eq(s, "SCENARIO_STATE_WAITING") { Some(2) }
            else if text_eq(s, "SCENARIO_STATE_ALLOWED") { Some(3) }
            else if text_eq(s, "SCENARIO_STATE_PLAYING") { Some(4) }
            else if text_eq(s, "SCENARIO_STATE_DENIED") { Some(5) }
            else { None }
        },
        ResourceType::Package => {
            if text_eq(s, "PACKAGE_STATE_UNSPECIFIED") { Some(0) }
            else if text_eq(s, "PACKAGE_STATE_INITIALIZING") { Some(1) }
            else if text_eq(s, "PACKAGE_STATE_RUNNING") { Some(2) }
            else if text_eq(s, "PACKAGE_STATE_DEGRADED") { Some(3) }
            else if text_eq(s, "PACKAGE_STATE_ERROR") { Some(4) }
            else if text_eq(s, "PACKAGE_STATE_PAUSED") { Some(5) }
            else if text_eq(s, "PACKAGE_STATE_UPDATING") { Some(6) }
            else { None }
        },
        ResourceType::Model => {
            if text_eq(s, "MODEL_STATE_UNSPECIFIED") { Some(0) }
            else if text_eq(s, "MODEL_STATE_PENDING") { Some(1) }
            else if text_eq(s, "MODEL_STATE_CONTAINER_CREATING") { Some(2) }
            else if text_eq(s, "MODEL_STATE_RUNNING") { Some(3) }
            else if text_eq(s, "MODEL_STATE_SUCCEEDED") { Some(4) }
            else if text_eq(s, "MODEL_STATE_FAILED") { Some(5) }
            else if text_eq(s, "MODEL_STATE_CRASH_LOOP_BACK_OFF") { Some(6) }
            else if text_eq(s, "MODEL_STATE_UNKNOWN") { Some(7) }
            else { None }
        },
        _ => None,
    }
}

/// The stored name of a state.
pub fn state_name_of(code: i32, t: ResourceType) -> (r: &'static str)
    ensures
        r@ == state_name(t, code as int),
{
    match t {
        ResourceType::Scenario => {
            if code == 0 { "SCENARIO_STATE_UNSPECIFIED" }
            else if code == 1 { "SCENARIO_STATE_IDLE" }
            else if code == 2 { "SCENARIO_STATE_WAITING" }
            else if code == 3 { "SCENARIO_STATE_ALLOWED" }
            else if code == 4 { "SCENARIO_STATE_PLAYING" }
            else if code == 5 { "SCENARIO_STATE_DENIED" }
            else { "UNKNOWN" }
        },
        ResourceType::Package => {
            if code == 0 { "PACKAGE_STATE_UNSPECIFIED" }
            else if code == 1 { "PACKAGE_STATE_INITIALIZING" }
            else if code == 2 { "PACKAGE_STATE_RUNNING" }
            else if code == 3 { "PACKAGE_STATE_DEGRADED" }
            else if code == 4 { "PACKAGE_STATE_ERROR" }
            else if code == 5 { "PACKAGE_STATE_PAUSED" }
            else if code == 6 { "PACKAGE_STATE_UPDATING" }
            else { "UNKNOWN" }
        },
        ResourceType::Model => {
            if code == 0 { "MODEL_STATE_UNSPECIFIED" }
            else if code == 1 { "MODEL_STATE_PENDING" }
            else if code == 2 { "MODEL_STATE_CONTAINER_CREATING" }
            else if code == 3 { "MODEL_STATE_RUNNING" }
            else if code == 4 { "MODEL_STATE_SUCCEEDED" }
            else if code == 5 { "MODEL_STATE_FAILED" }
            else if code == 6 { "MODEL_STATE_CRASH_LOOP_BACK_OFF" }
            else if code == 7 { "MODEL_STATE_UNKNOWN" }
            else { "UNKNOWN" }
        },
        _ => "UNKNOWN",
    }
}

} // verus!
