//! Decisions of the node agent's registration and heartbeat loop.
use vstd::prelude::*;
use crate::textmap::TextMap;

verus! {

/// Seconds between heartbeat ticks.
pub const HEARTBEAT_INTERVAL_SECS: u64 = 30;

/// How a node agent reaches its master.
#[derive(Debug)]
pub struct NodeConfig {
    pub node_id: String,
    pub node_name: String,
    /// `master` or `sub`.
    pub role: String,
    pub master_ip: String,
    pub api_port: u16,
    pub labels: TextMap<String>,
}

/// Replaces the master address, role and name where an override is given.
pub fn apply_overrides(
    config: NodeConfig,
    master_ip: Option<String>,
    role: Option<String>,
    node_name: Option<String>,
) -> (r: NodeConfig)
    ensures
        r.master_ip == (match master_ip { Some(v) => v, None => config.master_ip }),
        r.role == (match role { Some(v) => v, None => config.role }),
        r.node_name == (match node_name { Some(v) => v, None => config.node_name }),
        r.node_id == config.node_id,
        r.api_port == config.api_port,
        r.labels@ == config.labels@,
{
    let mut c = config;
    match master_ip {
        Some(v) => { c.master_ip = v; },
        None => {},
    }
    match role {
        Some(v) => { c.role = v; },
        None => {},
    }
    match node_name {
        Some(v) => { c.node_name = v; },
        None => {},
    }
    c
}

/// What happened in the heartbeat loop.
#[derive(Debug, Clone, Copy, PartialEq, Eq, Structural)]
pub enum AgentEvent {
    /// The interval elapsed.
    Tick,
    /// A registration attempt ended; true when the master accepted it.
    Registered(bool),
    /// A heartbeat ended; true when the master acknowledged it.
    HeartbeatSent(bool),
}

/// What the loop does next.
#[derive(Debug, Clone, Copy, PartialEq, Eq, Structural)]
pub enum AgentAction {
    Register,
    SendHeartbeat,
    WaitForTick,
}

/// The loop's memory: whether the master knows this node.
#[derive(Debug, Clone, Copy, PartialEq, Eq, Structural)]
pub struct HeartbeatState {
    pub connected: bool,
}

/// One step of the loop: on each tick register first if not connected, then
/// send a heartbeat; a failed registration waits for the next tick; a failed
/// heartbeat drops the connection so that the next tick registers again.
pub open spec fn heartbeat_step_spec(s: HeartbeatState, e: AgentEvent) -> (HeartbeatState, AgentAction) {
    match e {
        AgentEvent::Tick => if s.connected {
            (s, AgentAction::SendHeartbeat)
        } else {
            (s, AgentAction::Register)
        },
        AgentEvent::Registered(ok) => if ok {
            (HeartbeatState { connected: true }, AgentAction::SendHeartbeat)
        } else {
            (s, AgentAction::WaitForTick)
        },
        AgentEvent::HeartbeatSent(ok) => if ok {
            (s, AgentAction::WaitForTick)
        } else {
            (HeartbeatState { connected: false }, AgentAction::WaitForTick)
        },
    }
}

impl HeartbeatState {
    /// A loop that has not registered yet.
    pub fn new() -> (r: HeartbeatState)
        ensures
            !r.connected,
    {
        HeartbeatState { connected: false }
    }

    /// Takes one event and says what to do next.
    pub fn step(&mut self, event: AgentEvent) -> (r: AgentAction)
        ensures
            (*final(self), r) == heartbeat_step_spec(*old(self), event),
    {
        match event {
            AgentEvent::Tick => {
                if self.connected { AgentAction::SendHeartbeat } else { AgentAction::Register }
            },
            AgentEvent::Registered(ok) => {
                if ok {
                    self.connected = true;
                    AgentAction::SendHeartbeat
                } else {
                    AgentAction::WaitForTick
                }
            },
            AgentEvent::HeartbeatSent(ok) => {
                if !ok {
                    self.connected = false;
                }
                AgentAction::WaitForTick
            },
        }
    }
}

} // verus!
