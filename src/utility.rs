//! Conversions between state codes, stored names and user-supplied state text.
use vstd::prelude::*;
use crate::states::{
    ResourceType, resource_type_of, type_key_name, state_name, state_name_of, state_code_of_name,
    stored_state_code, SCENARIO_STATE_PLAYING, SCENARIO_STATE_WAITING, PACKAGE_STATE_RUNNING,
    PACKAGE_STATE_INITIALIZING, MODEL_STATE_RUNNING, MODEL_STATE_PENDING,
};
use crate::text::{
    owned, int_text, decimal_text, contains_text, holds_text, trim_text, trimmed, upper_underscored,
    upper_underscore, text_of_chars,
};
use crate::textmap::TextMap;
use crate::transitions::StateTransition;
use crate::types::StateChange;

verus! {

/// The cache and storage key of a resource: `{Kind}::{name}`.
pub open spec fn resource_key(t: ResourceType, name: Seq<char>) -> Seq<char> {
    type_key_name(t) + "::"@ + name
}

/// The name prefix of the states of the kind with wire code `type_code`.
pub open spec fn kind_prefix(type_code: i32) -> Seq<char> {
    match resource_type_of(type_code) {
        Some(ResourceType::Scenario) => "SCENARIO_STATE_"@,
        Some(ResourceType::Package) => "PACKAGE_STATE_"@,
        Some(ResourceType::Model) => "MODEL_STATE_"@,
        _ => Seq::empty(),
    }
}

/// The stored name that user text stands for: text holding `_STATE_` is taken as a
/// full name; other text is trimmed, upper-cased with `-` read as `_`, and prefixed.
pub open spec fn normalized_state(type_code: i32, s: Seq<char>) -> Seq<char> {
    if holds_text(s, "_STATE_"@) {
        s
    } else {
        kind_prefix(type_code) + trimmed(s).map_values(|c: char| upper_underscore(c))
    }
}

/// The state code that user text stands for; 0 where it names no state.
pub open spec fn user_state_code(type_code: i32, s: Seq<char>) -> i32 {
    stored_state_code(type_code, normalized_state(type_code, s))
}

/// States kept warm in the cache: running and about-to-run ones.
pub open spec fn active_state(state: i32, type_code: i32) -> bool {
    match resource_type_of(type_code) {
        Some(ResourceType::Scenario) => state == SCENARIO_STATE_PLAYING || state == SCENARIO_STATE_WAITING,
        Some(ResourceType::Package) => state == PACKAGE_STATE_RUNNING || state == PACKAGE_STATE_INITIALIZING,
        Some(ResourceType::Model) => state == MODEL_STATE_RUNNING || state == MODEL_STATE_PENDING,
        _ => false,
    }
}

pub struct StateUtilities;

impl StateUtilities {
    /// The key `{Kind}::{name}` of a resource.
    pub fn generate_resource_key(resource_type: ResourceType, resource_name: &str) -> (r: String)
        ensures
            r@ == resource_key(resource_type, resource_name@),
    {
        let mut k = owned(resource_type.key_name());
        k.append("::");
        k.append(resource_name);
        k
    }

    /// The context handed to an action: the states, the event and the request's origin.
    pub fn build_action_context(state_change: &StateChange, transition: &StateTransition) -> (r: TextMap<String>)
        ensures
            ({
                let t = match resource_type_of(state_change.resource_type) {
                    Some(t) => t,
                    None => ResourceType::Scenario,
                };
                r@.dom() =~= set!["from_state"@, "to_state"@, "event"@, "resource_name"@, "source"@, "timestamp_ns"@]
                && r@["from_state"@]@ == state_name(t, transition.from_state as int)
                && r@["to_state"@]@ == state_name(t, transition.to_state as int)
                && r@["event"@]@ == transition.event@
                && r@["resource_name"@]@ == state_change.resource_name@
                && r@["source"@]@ == state_change.source@
                && r@["timestamp_ns"@]@ == decimal_text(state_change.timestamp_ns as int)
            }),
    {
        let t = match ResourceType::from_code(state_change.resource_type) {
            Some(t) => t,
            None => ResourceType::Scenario,
        };
        proof {
            reveal_strlit("from_state");
            reveal_strlit("to_state");
            reveal_strlit("event");
            reveal_strlit("resource_name");
            reveal_strlit("source");
            reveal_strlit("timestamp_ns");
            assert("from_state"@.len() == 10 && "to_state"@.len() == 8 && "event"@.len() == 5);
            assert("resource_name"@.len() == 13 && "source"@.len() == 6 && "timestamp_ns"@.len() == 12);
        }
        let mut c: TextMap<String> = TextMap::new();
        c.insert(owned("from_state"), owned(state_name_of(transition.from_state, t)));
        c.insert(owned("to_state"), owned(state_name_of(transition.to_state, t)));
        c.insert(owned("event"), transition.event.clone());
        c.insert(owned("resource_name"), state_change.resource_name.clone());
        c.insert(owned("source"), state_change.source.clone());
        c.insert(owned("timestamp_ns"), int_text(state_change.timestamp_ns as i128));
        c
    }

    /// The state code of user text such as `running`, `crash-loop-back-off` or a full name.
    pub fn state_str_to_enum(state: &str, resource_type: i32) -> (r: i32)
        ensures
            r == user_state_code(resource_type, state@),
    {
        if contains_text(state, "_STATE_") {
            return Self::enum_str_to_int(state, resource_type);
        }
        let prefix: &str = match ResourceType::from_code(resource_type) {
            Some(ResourceType::Scenario) => "SCENARIO_STATE_",
            Some(ResourceType::Package) => "PACKAGE_STATE_",
            Some(ResourceType::Model) => "MODEL_STATE_",
            _ => "",
        };
        let body = upper_underscored(&trim_text(state));
        let mut name = owned(prefix);
        let tail = text_of_chars(&body);
        name.append(tail.as_str());
        proof {
            reveal_strlit("");
            assert(prefix@ =~= kind_prefix(resource_type));
        }
        Self::enum_str_to_int(name.as_str(), resource_type)
    }

    /// The state code of a stored name; 0 where it names no state of the kind.
    pub fn enum_str_to_int(state: &str, resource_type: i32) -> (r: i32)
        ensures
            r == stored_state_code(resource_type, state@),
    {
        match ResourceType::from_code(resource_type) {
            Some(t) => match state_code_of_name(t, state) {
                Some(c) => c,
                None => 0,
            },
            None => 0,
        }
    }

    /// The stored name of a state; `UNKNOWN` where none is declared.
    pub fn state_enum_to_str(state: i32, resource_type: ResourceType) -> (r: &'static str)
        ensures
            r@ == state_name(resource_type, state as int),
    {
        state_name_of(state, resource_type)
    }

    /// True for the states that cache warming loads.
    pub fn is_active_state(state: i32, resource_type: i32) -> (r: bool)
        ensures
            r == active_state(state, resource_type),
    {
        match ResourceType::from_code(resource_type) {
            Some(ResourceType::Scenario) => state == SCENARIO_STATE_PLAYING || state == SCENARIO_STATE_WAITING,
            Some(ResourceType::Package) => state == PACKAGE_STATE_RUNNING || state == PACKAGE_STATE_INITIALIZING,
            Some(ResourceType::Model) => state == MODEL_STATE_RUNNING || state == MODEL_STATE_PENDING,
            _ => false,
        }
    }
}

} // verus!
