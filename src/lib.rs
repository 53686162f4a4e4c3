//! Reconciliation core of a lightweight cluster orchestrator: per-resource
//! state machines with guarded transitions, backoff and health, the action
//! controller that plans runtime commands, and the node registry.
pub mod action;
pub mod agent;
pub mod backoff;
pub mod cluster;
pub mod config;
pub mod engine;
pub mod error;
pub mod events;
pub mod health;
pub mod logging;
pub mod monitoring;
pub mod node;
pub mod package;
pub mod persistence;
pub mod registry;
pub mod reporting;
pub mod states;
pub mod text;
pub mod textmap;
pub mod transitions;
pub mod types;
pub mod utility;
pub mod validation;
