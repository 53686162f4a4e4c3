//! Cluster members: identity, role, lifecycle, resources and heartbeat.
use vstd::prelude::*;
use crate::textmap::TextMap;
use crate::text::owned;

verus! {

/// Role of a node in the cluster.
#[derive(Debug, Clone, Copy, PartialEq, Eq, Structural)]
pub enum NodeRole {
    Master,
    Sub,
}

impl NodeRole {
    /// The role a node gets when none is given.
    pub fn default_role() -> (r: NodeRole)
        ensures
            r == NodeRole::Sub,
    {
        NodeRole::Sub
    }
}

/// Lifecycle of a registered node.
#[derive(Debug, Clone, Copy, PartialEq, Eq, Structural)]
pub enum NodeLifecycleStatus {
    Offline,
    Online,
    Initializing,
    Error,
    Maintenance,
}

/// Readiness as reported in a node status.
#[derive(Debug, Clone, Copy, PartialEq, Eq, Structural)]
pub enum NodeState {
    Ready,
    NotReady,
    Unknown,
}

/// Kinds of node conditions.
#[derive(Debug, Clone, Copy, PartialEq, Eq, Structural)]
pub enum NodeConditionType {
    Ready,
    MemoryPressure,
    DiskPressure,
    PIDPressure,
    NetworkUnavailable,
}

/// Truth of a node condition.
#[derive(Debug, Clone, Copy, PartialEq, Eq, Structural)]
pub enum ConditionStatus {
    True,
    False,
    Unknown,
}

/// Kinds of node addresses.
#[derive(Debug, Clone, Copy, PartialEq, Eq, Structural)]
pub enum NodeAddressType {
    Hostname,
    ExternalIP,
    InternalIP,
    ExternalDNS,
    InternalDNS,
}

/// Shapes of cluster topology.
#[derive(Debug, Clone, Copy, PartialEq, Eq, Structural)]
pub enum TopologyType {
    Simple,
    Hierarchical,
    Mesh,
    Hybrid,
}

/// Capacity and usage of a node. The usage ratios are carried as the bits of
/// their IEEE-754 double, which this library never computes on.
#[derive(Debug, Clone, Copy, PartialEq, Eq, Structural)]
pub struct NodeResources {
    pub cpu_cores: u32,
    pub memory_mb: u64,
    pub disk_gb: u64,
    pub cpu_usage_bits: u64,
    pub memory_usage_bits: u64,
}

/// One core, 512 MB of memory, 10 GB of disk, no usage.
pub open spec fn default_node_resources() -> NodeResources {
    NodeResources { cpu_cores: 1, memory_mb: 512, disk_gb: 10, cpu_usage_bits: 0, memory_usage_bits: 0 }
}

impl NodeResources {
    /// One core, 512 MB of memory, 10 GB of disk, no usage.
    pub fn default_resources() -> (r: NodeResources)
        ensures
            r == default_node_resources(),
    {
        NodeResources { cpu_cores: 1, memory_mb: 512, disk_gb: 10, cpu_usage_bits: 0, memory_usage_bits: 0 }
    }
}

/// A registered cluster member.
#[derive(Debug)]
pub struct NodeInfo {
    pub node_id: String,
    pub node_name: String,
    pub ip_address: String,
    pub role: NodeRole,
    pub status: NodeLifecycleStatus,
    pub resources: NodeResources,
    pub labels: TextMap<String>,
    /// Unix seconds.
    pub created_at: i64,
    /// Unix seconds.
    pub last_heartbeat: i64,
}

/// Two node records agree on every field; labels by their contents.
pub open spec fn same_node(a: NodeInfo, b: NodeInfo) -> bool {
    &&& a.node_id@ == b.node_id@
    &&& a.node_name@ == b.node_name@
    &&& a.ip_address@ == b.ip_address@
    &&& a.role == b.role
    &&& a.status == b.status
    &&& a.resources == b.resources
    &&& a.labels@ == b.labels@
    &&& a.created_at == b.created_at
    &&& a.last_heartbeat == b.last_heartbeat
}

/// Relies on chrono's `From<SystemTime> for DateTime<Utc>` and `DateTime::timestamp`:
/// the current Unix time in seconds, negative for a clock set before 1970.
#[verifier::external_body]
pub(crate) fn utc_now_seconds() -> (r: i64)
{
    chrono::DateTime::<chrono::Utc>::from(std::time::SystemTime::now()).timestamp()
}

/// Relies on chrono's `From<SystemTime> for DateTime<Utc>` and
/// `DateTime::timestamp_millis`: the current Unix time in milliseconds.
#[verifier::external_body]
pub(crate) fn utc_now_millis() -> (r: i64)
{
    chrono::DateTime::<chrono::Utc>::from(std::time::SystemTime::now()).timestamp_millis()
}

impl NodeInfo {
    /// A Sub node, status Offline, default resources, no labels, created and
    /// last heard from now.
    pub fn new(node_id: String, node_name: String, ip_address: String) -> (r: NodeInfo)
        ensures
            r.node_id == node_id && r.node_name == node_name && r.ip_address == ip_address,
            r.role == NodeRole::Sub,
            r.status == NodeLifecycleStatus::Offline,
            r.resources == default_node_resources(),
            r.labels@ == Map::<Seq<char>, String>::empty(),
            r.created_at == r.last_heartbeat,
    {
        let now = utc_now_seconds();
        NodeInfo {
            node_id,
            node_name,
            ip_address,
            role: NodeRole::default_role(),
            status: NodeLifecycleStatus::Offline,
            resources: NodeResources::default_resources(),
            labels: TextMap::new(),
            created_at: now,
            last_heartbeat: now,
        }
    }

    /// A copy of this record.
    pub fn duplicate(&self) -> (r: NodeInfo)
        ensures
            same_node(r, *self),
    {
        NodeInfo {
            node_id: self.node_id.clone(),
            node_name: self.node_name.clone(),
            ip_address: self.ip_address.clone(),
            role: self.role,
            status: self.status,
            resources: self.resources,
            labels: self.labels.copy(),
            created_at: self.created_at,
            last_heartbeat: self.last_heartbeat,
        }
    }

    /// Stamps the heartbeat with the current time.
    pub fn update_heartbeat(&mut self)
        ensures
            final(self).node_id == old(self).node_id,
            final(self).status == old(self).status,
            final(self).role == old(self).role,
            final(self).resources == old(self).resources,
            final(self).created_at == old(self).created_at,
            final(self).node_name == old(self).node_name,
            final(self).ip_address == old(self).ip_address,
            final(self).labels == old(self).labels,
    {
        self.last_heartbeat = utc_now_seconds();
    }

    /// True while the node is Online.
    pub fn is_online(&self) -> (r: bool)
        ensures
            r == (self.status == NodeLifecycleStatus::Online),
    {
        self.status == NodeLifecycleStatus::Online
    }

    /// Seconds since the last heartbeat at time `now`, saturated to the `i64` range.
    pub fn heartbeat_age_at(&self, now: i64) -> (r: i64)
        ensures
            r == clamp_i64(now - self.last_heartbeat),
    {
        let d: i128 = now as i128 - self.last_heartbeat as i128;
        if d > i64::MAX as i128 {
            i64::MAX
        } else if d < i64::MIN as i128 {
            i64::MIN
        } else {
            d as i64
        }
    }

    /// Seconds since the last heartbeat.
    pub fn heartbeat_age(&self) -> (r: i64)
        ensures
            exists|now: i64| r == #[trigger] age_at(*self, now),
    {
        let now = utc_now_seconds();
        let r = self.heartbeat_age_at(now);
        assert(r == age_at(*self, now));
        r
    }
}

/// Seconds from the node's last heartbeat to `now`, saturated to the `i64` range.
pub open spec fn age_at(n: NodeInfo, now: i64) -> i64 {
    clamp_i64(now - n.last_heartbeat)
}

pub open spec fn clamp_i64(d: int) -> i64 {
    if d > i64::MAX { i64::MAX } else if d < i64::MIN { i64::MIN } else { d as i64 }
}

/// Cluster membership settings of a node.
#[derive(Debug)]
pub struct ClusterConfig {
    pub cluster_id: String,
    pub master_endpoint: String,
    pub heartbeat_interval: u64,
    pub config: TextMap<String>,
}

/// The members of a cluster by role.
#[derive(Debug)]
pub struct ClusterTopology {
    pub cluster_id: String,
    pub cluster_name: String,
    pub topology_type: TopologyType,
    pub master_nodes: Vec<NodeInfo>,
    pub sub_nodes: Vec<NodeInfo>,
    pub config: TextMap<String>,
}

/// What a node sends to register.
#[derive(Debug, Clone)]
pub struct NodeRegistrationInfo {
    pub node_id: String,
    pub node_name: String,
    pub ip_address: String,
    pub role: NodeRole,
    pub resources: Option<NodeResources>,
}

impl NodeRegistrationInfo {
    /// A Sub node with default resources.
    pub fn new(node_id: String, node_name: String, ip_address: String) -> (r: NodeRegistrationInfo)
        ensures
            r.node_id == node_id && r.node_name == node_name && r.ip_address == ip_address,
            r.role == NodeRole::Sub,
            r.resources == Some(default_node_resources()),
    {
        NodeRegistrationInfo {
            node_id,
            node_name,
            ip_address,
            role: NodeRole::default_role(),
            resources: Some(NodeResources::default_resources()),
        }
    }

    /// The same registration with role `role`.
    pub fn with_role(self, role: NodeRole) -> (r: NodeRegistrationInfo)
        ensures
            r.role == role,
            r.node_id == self.node_id && r.node_name == self.node_name && r.ip_address == self.ip_address,
            r.resources == self.resources,
    {
        let mut r = self;
        r.role = role;
        r
    }

    /// The same registration with resources `resources`.
    pub fn with_resources(self, resources: NodeResources) -> (r: NodeRegistrationInfo)
        ensures
            r.resources == Some(resources),
            r.node_id == self.node_id && r.node_name == self.node_name && r.ip_address == self.ip_address,
            r.role == self.role,
    {
        let mut r = self;
        r.resources = Some(resources);
        r
    }
}

/// One observed condition of a node.
#[derive(Debug, Clone)]
pub struct NodeCondition {
    pub condition_type: NodeConditionType,
    pub status: ConditionStatus,
    pub last_heartbeat_time: Option<i64>,
    pub last_transition_time: Option<i64>,
    pub reason: Option<String>,
    pub message: Option<String>,
}

impl NodeCondition {
    /// A condition observed at time `now`, with no reason or message.
    pub fn new(condition_type: NodeConditionType, status: ConditionStatus, now: i64) -> (r: NodeCondition)
        ensures
            r.condition_type == condition_type,
            r.status == status,
            r.last_heartbeat_time == Some(now),
            r.last_transition_time == Some(now),
            r.reason is None && r.message is None,
    {
        NodeCondition {
            condition_type,
            status,
            last_heartbeat_time: Some(now),
            last_transition_time: Some(now),
            reason: None,
            message: None,
        }
    }
}

/// One address of a node.
#[derive(Debug, Clone)]
pub struct NodeAddress {
    pub address_type: NodeAddressType,
    pub address: String,
}

impl NodeAddress {
    /// An address of the given kind.
    pub fn new(address_type: NodeAddressType, address: String) -> (r: NodeAddress)
        ensures
            r.address_type == address_type,
            r.address == address,
    {
        NodeAddress { address_type, address }
    }
}

/// Facts about the machine a node runs on.
#[derive(Debug, Clone)]
pub struct NodeSystemInfo {
    pub machine_id: String,
    pub system_uuid: String,
    pub boot_id: String,
    pub kernel_version: String,
    pub os_image: String,
    pub container_runtime_version: String,
    pub kubelet_version: String,
    pub kube_proxy_version: String,
    pub operating_system: String,
    pub architecture: String,
}

/// Reported status of a node, in the style of a Kubernetes node status.
#[derive(Debug, Clone)]
pub struct NodeStatus {
    pub state: NodeState,
    pub conditions: Vec<NodeCondition>,
    pub addresses: Vec<NodeAddress>,
    pub capacity: Option<NodeResources>,
    pub allocatable: Option<NodeResources>,
    pub phase: NodeState,
    pub last_heartbeat_time: Option<i64>,
    pub node_info: Option<NodeSystemInfo>,
}

impl NodeStatus {
    /// An Unknown status heard from at `now`.
    pub fn new(now: i64) -> (r: NodeStatus)
        ensures
            r.state == NodeState::Unknown,
            r.phase == NodeState::Unknown,
            r.conditions@.len() == 0,
            r.addresses@.len() == 0,
            r.last_heartbeat_time == Some(now),
    {
        NodeStatus {
            state: NodeState::Unknown,
            conditions: Vec::new(),
            addresses: Vec::new(),
            capacity: None,
            allocatable: None,
            phase: NodeState::Unknown,
            last_heartbeat_time: Some(now),
            node_info: None,
        }
    }

    /// A Ready status heard from at `now`, with one Ready condition.
    pub fn ready(now: i64) -> (r: NodeStatus)
        ensures
            r.state == NodeState::Ready,
            r.phase == NodeState::Ready,
            r.conditions@.len() == 1,
            r.conditions@[0].condition_type == NodeConditionType::Ready,
            r.conditions@[0].status == ConditionStatus::True,
            r.conditions@[0].last_transition_time == Some(now),
            r.last_heartbeat_time == Some(now),
    {
        let mut status = NodeStatus::new(now);
        status.state = NodeState::Ready;
        status.phase = NodeState::Ready;
        let mut c = NodeCondition::new(NodeConditionType::Ready, ConditionStatus::True, now);
        c.reason = Some(owned("KubeletReady"));
        c.message = Some(owned("kubelet is posting ready status"));
        status.conditions.push(c);
        status
    }

    /// Stamps the heartbeat with time `now`.
    pub fn update_heartbeat(&mut self, now: i64)
        ensures
            final(self).last_heartbeat_time == Some(now),
            final(self).state == old(self).state,
            final(self).phase == old(self).phase,
    {
        self.last_heartbeat_time = Some(now);
    }

    /// True when the node reports Ready.
    pub fn is_ready(&self) -> (r: bool)
        ensures
            r == (self.state == NodeState::Ready),
    {
        self.state == NodeState::Ready
    }
}

} // verus!
