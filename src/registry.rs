//! The node registry: one record per node id, liveness from heartbeats, and
//! the sweep that marks silent nodes offline.
use vstd::prelude::*;
use crate::error::PullpiriError;
use crate::node::{
    NodeResources, ClusterTopology, NodeInfo, NodeLifecycleStatus, NodeRole, TopologyType, same_node, utc_now_seconds,
};
use crate::text::{decimal_text, int_text, join3, owned};
use crate::textmap::TextMap;

verus! {

/// Silence after which an Online node counts as stale, in seconds.
pub const HEARTBEAT_TIMEOUT_SECONDS: i64 = 90;

/// The node is Online and was last heard from more than the timeout before `now`.
pub open spec fn is_stale(n: NodeInfo, now: i64) -> bool {
    n.status == NodeLifecycleStatus::Online && now - n.last_heartbeat > HEARTBEAT_TIMEOUT_SECONDS
}

/// `b` is `a` after a sweep at time `now` that returned `r`: the same ids; each
/// stale node marked Offline and heard from at `now`; every other record as it
/// was; and `r` holds each stale id once.
pub open spec fn swept_at(a: Map<Seq<char>, NodeInfo>, b: Map<Seq<char>, NodeInfo>, r: Seq<String>, now: i64) -> bool {
    &&& b.dom() == a.dom()
    &&& forall|k: Seq<char>| #[trigger] a.contains_key(k) && is_stale(a[k], now)
        ==> status_updated(a[k], b[k], NodeLifecycleStatus::Offline, None, None, now)
    &&& forall|k: Seq<char>| #[trigger] a.contains_key(k) && !is_stale(a[k], now) ==> b[k] == a[k]
    &&& forall|i: int| 0 <= i < r.len() ==> a.contains_key(#[trigger] r[i]@) && is_stale(a[r[i]@], now)
    &&& forall|k: Seq<char>| #[trigger] a.contains_key(k) && is_stale(a[k], now) ==> exists|i: int| 0 <= i < r.len() && r[i]@ == k
    &&& forall|x: int, y: int| 0 <= x < y < r.len() ==> r[x]@ != r[y]@
}

/// `b` is `a` with a new status and heartbeat, and usages replaced where given.
pub open spec fn status_updated(
    a: NodeInfo,
    b: NodeInfo,
    status: NodeLifecycleStatus,
    cpu_usage_bits: Option<u64>,
    memory_usage_bits: Option<u64>,
    now: i64,
) -> bool {
    &&& b.node_id@ == a.node_id@
    &&& b.node_name@ == a.node_name@
    &&& b.ip_address@ == a.ip_address@
    &&& b.role == a.role
    &&& b.status == status
    &&& b.resources.cpu_cores == a.resources.cpu_cores
    &&& b.resources.memory_mb == a.resources.memory_mb
    &&& b.resources.disk_gb == a.resources.disk_gb
    &&& b.resources.cpu_usage_bits == match cpu_usage_bits { Some(c) => c, None => a.resources.cpu_usage_bits }
    &&& b.resources.memory_usage_bits == match memory_usage_bits { Some(m) => m, None => a.resources.memory_usage_bits }
    &&& b.labels@ == a.labels@
    &&& b.created_at == a.created_at
    &&& b.last_heartbeat == now
}

/// A registration lacks its id, its name or its address.
pub open spec fn missing_fields(n: NodeInfo) -> bool {
    n.node_id@.len() == 0 || n.node_name@.len() == 0 || n.ip_address@.len() == 0
}

/// `n` copies the record stored under its id, and has the status asked for, if any.
pub open spec fn listed(n: NodeInfo, nodes: Map<Seq<char>, NodeInfo>, status: Option<NodeLifecycleStatus>) -> bool {
    &&& nodes.contains_key(n.node_id@)
    &&& same_node(n, nodes[n.node_id@])
    &&& (status is Some ==> n.status == status->Some_0)
}

/// No two nodes of `s` share an id.
pub open spec fn distinct_ids(s: Seq<NodeInfo>) -> bool {
    forall|a: int, b: int| 0 <= a < b < s.len() ==> #[trigger] s[a].node_id@ != #[trigger] s[b].node_id@
}

/// Some node of `s` has id `k`.
pub open spec fn id_in(k: Seq<char>, s: Seq<NodeInfo>) -> bool {
    exists|m: int| 0 <= m < s.len() && s[m].node_id@ == k
}

/// `x` has the id of a node of `all` at position `lo` or later.
pub open spec fn in_tail(x: NodeInfo, all: Seq<NodeInfo>, lo: int) -> bool {
    exists|j: int| lo <= j < all.len() && all[j].node_id@ == x.node_id@
}

/// Facts about a role list while `all` is split from its end.
pub open spec fn split_ok(list: Seq<NodeInfo>, all: Seq<NodeInfo>, lo: int, role: NodeRole) -> bool {
    &&& distinct_ids(list)
    &&& forall|m: int| 0 <= m < list.len() ==> #[trigger] in_tail(list[m], all, lo)
    &&& forall|j: int| lo <= j < all.len() && all[j].role == role ==> #[trigger] id_in(all[j].node_id@, list)
}

proof fn lemma_split_step(list: Seq<NodeInfo>, all: Seq<NodeInfo>, p: int, role: NodeRole)
    requires
        0 <= p < all.len(),
        distinct_ids(all),
        split_ok(list, all, p + 1, role),
    ensures
        all[p].role == role ==> split_ok(list.push(all[p]), all, p, role),
        all[p].role != role ==> split_ok(list, all, p, role),
{
    let x = all[p];
    if x.role == role {
        let l2 = list.push(x);
        assert forall|m: int| 0 <= m < l2.len() implies #[trigger] in_tail(l2[m], all, p) by {
            if m < list.len() {
                assert(l2[m] == list[m]);
                assert(in_tail(list[m], all, p + 1));
                let j = choose|j: int| p + 1 <= j < all.len() && all[j].node_id@ == list[m].node_id@;
                assert(all[j].node_id@ == l2[m].node_id@);
            } else {
                assert(all[p].node_id@ == l2[m].node_id@);
            }
        }
        assert forall|a: int, b: int| 0 <= a < b < l2.len() implies #[trigger] l2[a].node_id@ != #[trigger] l2[b].node_id@ by {
            assert(l2[a] == list[a]);
            if b < list.len() {
                assert(l2[b] == list[b]);
            } else {
                assert(in_tail(list[a], all, p + 1));
                let j = choose|j: int| p + 1 <= j < all.len() && all[j].node_id@ == list[a].node_id@;
                assert(all[p].node_id@ != all[j].node_id@);
            }
        }
        assert forall|j: int| p <= j < all.len() && all[j].role == role implies #[trigger] id_in(all[j].node_id@, l2) by {
            if j == p {
                assert(l2[list.len() as int].node_id@ == all[j].node_id@);
            } else {
                assert(id_in(all[j].node_id@, list));
                let m = choose|m: int| 0 <= m < list.len() && list[m].node_id@ == all[j].node_id@;
                assert(l2[m] == list[m]);
            }
        }
    } else {
        assert forall|m: int| 0 <= m < list.len() implies #[trigger] in_tail(list[m], all, p) by {
            assert(in_tail(list[m], all, p + 1));
            let j = choose|j: int| p + 1 <= j < all.len() && all[j].node_id@ == list[m].node_id@;
        }
    }
}

/// `n` is listed and has role `role`.
pub open spec fn listed_as(n: NodeInfo, nodes: Map<Seq<char>, NodeInfo>, role: NodeRole) -> bool {
    listed(n, nodes, None) && n.role == role
}

/// The registry's records by node id, and the cluster id once one is made.
pub struct NodeRegistry {
    nodes: TextMap<NodeInfo>,
    cluster_id: Option<String>,
}

impl NodeRegistry {
    #[verifier::type_invariant]
    spec fn keyed_by_id(&self) -> bool {
        forall|k: Seq<char>| #[trigger] self.nodes@.contains_key(k) ==> self.nodes@[k].node_id@ == k
    }

    fn put(&mut self, key: String, node: NodeInfo)
        requires
            key@ == node.node_id@,
        ensures
            final(self).nodes() == old(self).nodes().insert(key@, node),
            final(self).cluster() == old(self).cluster(),
    {
        proof { use_type_invariant(&*self); }
        let mut m: TextMap<NodeInfo> = TextMap::new();
        std::mem::swap(&mut m, &mut self.nodes);
        m.insert(key, node);
        self.nodes = m;
    }

    pub closed spec fn nodes(&self) -> Map<Seq<char>, NodeInfo> {
        self.nodes@
    }

    pub closed spec fn cluster(&self) -> Option<Seq<char>> {
        match self.cluster_id {
            Some(c) => Some(c@),
            None => None,
        }
    }

    /// An empty registry.
    pub fn new() -> (r: NodeRegistry)
        ensures
            r.nodes() == Map::<Seq<char>, NodeInfo>::empty(),
            r.cluster() is None,
    {
        NodeRegistry { nodes: TextMap::new(), cluster_id: None }
    }

    /// Puts a stored record back under its id, as read from the store.
    pub fn restore_node(&mut self, node_info: NodeInfo)
        ensures
            final(self).nodes() == old(self).nodes().insert(node_info.node_id@, node_info),
            final(self).cluster() == old(self).cluster(),
    {
        let id = node_info.node_id.clone();
        self.put(id, node_info);
    }

    /// Sets the cluster id read from the store.
    pub fn restore_cluster_id(&mut self, cluster_id: String)
        ensures
            final(self).cluster() == Some(cluster_id@),
            final(self).nodes() == old(self).nodes(),
    {
        proof { use_type_invariant(&*self); }
        self.cluster_id = Some(cluster_id);
    }

    /// The cluster id; made from `now` on first use and never changed after.
    pub fn get_or_create_cluster_id(&mut self, now: i64) -> (r: String)
        ensures
            old(self).cluster() matches Some(c) ==> r@ == c,
            old(self).cluster() is None ==> r@ == "piccolo-cluster-"@ + decimal_text(now as int),
            final(self).cluster() == Some(r@),
            final(self).nodes() == old(self).nodes(),
    {
        proof { use_type_invariant(&*self); }
        match &self.cluster_id {
            Some(c) => c.clone(),
            None => {
                let n = int_text(now as i128);
                let mut c = owned("piccolo-cluster-");
                c.append(n.as_str());
                self.cluster_id = Some(c.clone());
                c
            },
        }
    }

    /// Registers a node at time `now`: it needs an id, a name and an address;
    /// it is stored as Initializing, heard from now. Returns the cluster id.
    pub fn register_node(&mut self, node_info: NodeInfo, now: i64) -> (r: Result<String, PullpiriError>)
        ensures
            missing_fields(node_info) ==> {
                &&& r is Err
                &&& final(self).nodes() == old(self).nodes()
                &&& final(self).cluster() == old(self).cluster()
            },
            !missing_fields(node_info) ==> {
                let k = node_info.node_id@;
                &&& r is Ok
                &&& final(self).cluster() == Some(r->Ok_0@)
                &&& (old(self).cluster() matches Some(c) ==> r->Ok_0@ == c)
                &&& final(self).nodes() == old(self).nodes().insert(k, final(self).nodes()[k])
                &&& status_updated(node_info, final(self).nodes()[k], NodeLifecycleStatus::Initializing, None, None, now)
            },
    {
        if node_info.node_id.as_str().unicode_len() == 0 || node_info.node_name.as_str().unicode_len() == 0
            || node_info.ip_address.as_str().unicode_len() == 0 {
            return Err(PullpiriError::config(owned("Missing required fields")));
        }
        let cluster_id = self.get_or_create_cluster_id(now);
        let mut n = node_info;
        n.status = NodeLifecycleStatus::Initializing;
        n.last_heartbeat = now;
        let id = n.node_id.clone();
        self.put(id, n);
        Ok(cluster_id)
    }

    /// Sets a node's status and heartbeat, and its usages where given.
    pub fn update_node_status(
        &mut self,
        node_id: &str,
        status: NodeLifecycleStatus,
        cpu_usage_bits: Option<u64>,
        memory_usage_bits: Option<u64>,
        now: i64,
    ) -> (r: Result<(), PullpiriError>)
        ensures
            !old(self).nodes().contains_key(node_id@) ==> r is Err && final(self).nodes() == old(self).nodes(),
            old(self).nodes().contains_key(node_id@) ==> {
                &&& r is Ok
                &&& final(self).nodes() == old(self).nodes().insert(node_id@, final(self).nodes()[node_id@])
                &&& status_updated(old(self).nodes()[node_id@], final(self).nodes()[node_id@], status, cpu_usage_bits, memory_usage_bits, now)
            },
            final(self).cluster() == old(self).cluster(),
    {
        proof { use_type_invariant(&*self); }
        let updated = match self.nodes.get(node_id) {
            Some(n) => {
                let mut u = n.duplicate();
                u.status = status;
                u.last_heartbeat = now;
                match cpu_usage_bits {
                    Some(c) => { u.resources.cpu_usage_bits = c; },
                    None => {},
                }
                match memory_usage_bits {
                    Some(m) => { u.resources.memory_usage_bits = m; },
                    None => {},
                }
                u
            },
            None => {
                let msg = join3("Failed to get node: ", node_id, " not found");
                return Err(PullpiriError::etcd(msg));
            },
        };
        self.put(owned(node_id), updated);
        Ok(())
    }

    /// The record of a node.
    pub fn get_node(&self, node_id: &str) -> (r: Result<&NodeInfo, PullpiriError>)
        ensures
            match r {
                Ok(n) => self.nodes().contains_key(node_id@) && *n == self.nodes()[node_id@],
                Err(_) => !self.nodes().contains_key(node_id@),
            },
    {
        match self.nodes.get(node_id) {
            Some(n) => Ok(n),
            None => Err(PullpiriError::etcd(join3("Failed to get node: ", node_id, " not found"))),
        }
    }

    /// Copies of all records, one per node.
    pub fn get_all_nodes(&self) -> (r: Vec<NodeInfo>)
        ensures
            r@.len() == self.nodes().dom().len(),
            forall|i: int| 0 <= i < r@.len() ==> #[trigger] listed(r@[i], self.nodes(), None),
            forall|k: Seq<char>| #[trigger] self.nodes().contains_key(k) ==> exists|i: int| 0 <= i < r@.len() && r@[i].node_id@ == k,
            distinct_ids(r@),
    {
        self.nodes_where(None)
    }

    /// Copies of the records with the given status.
    pub fn get_nodes_by_status(&self, status: NodeLifecycleStatus) -> (r: Vec<NodeInfo>)
        ensures
            forall|i: int| 0 <= i < r@.len() ==> #[trigger] listed(r@[i], self.nodes(), Some(status)),
            distinct_ids(r@),
            forall|k: Seq<char>| #[trigger] self.nodes().contains_key(k) && self.nodes()[k].status == status
                ==> exists|i: int| 0 <= i < r@.len() && r@[i].node_id@ == k,
    {
        self.nodes_where(Some(status))
    }

    fn nodes_where(&self, status: Option<NodeLifecycleStatus>) -> (r: Vec<NodeInfo>)
        ensures
            status is None ==> r@.len() == self.nodes().dom().len(),
            forall|i: int| 0 <= i < r@.len() ==> #[trigger] listed(r@[i], self.nodes(), status),
            forall|k: Seq<char>| #[trigger] self.nodes().contains_key(k) && (status is Some ==> self.nodes()[k].status == status->Some_0)
                ==> exists|i: int| 0 <= i < r@.len() && r@[i].node_id@ == k,
            distinct_ids(r@),
    {
        proof { use_type_invariant(self); }
        let keys = self.nodes.keys();
        let mut r: Vec<NodeInfo> = Vec::new();
        let mut i: usize = 0;
        while i < keys.len()
            invariant
                i <= keys@.len(),
                keys@.len() == self.nodes().dom().len(),
                forall|j: int| 0 <= j < keys@.len() ==> self.nodes().contains_key(#[trigger] keys@[j]@),
                forall|k: Seq<char>| #[trigger] self.nodes().contains_key(k) ==> exists|j: int| 0 <= j < keys@.len() && keys@[j]@ == k,
                status is None ==> r@.len() == i,
                forall|j: int| 0 <= j < r@.len() ==> #[trigger] listed(r@[j], self.nodes(), status),
                forall|j: int| 0 <= j < i && (status is Some ==> self.nodes()[#[trigger] keys@[j]@].status == status->Some_0)
                    ==> exists|m: int| 0 <= m < r@.len() && r@[m].node_id@ == keys@[j]@,
                forall|k: Seq<char>| #[trigger] self.nodes().contains_key(k) ==> self.nodes()[k].node_id@ == k,
                forall|a: int, b: int| 0 <= a < b < keys@.len() ==> keys@[a]@ != keys@[b]@,
                forall|m: int| 0 <= m < r@.len() ==> exists|j: int| 0 <= j < i && #[trigger] r@[m].node_id@ == keys@[j]@,
                distinct_ids(r@),
            decreases keys@.len() - i,
        {
            let k = &keys[i];
            let ghost before = r@;
            match self.nodes.get(k.as_str()) {
                Some(n) => {
                    let keep = match status {
                        Some(s) => n.status == s,
                        None => true,
                    };
                    if keep {
                        let c = n.duplicate();
                        r.push(c);
                        proof {
                            assert(listed(r@[r@.len() - 1], self.nodes(), status));
                            assert forall|j: int| 0 <= j < r@.len() implies #[trigger] listed(r@[j], self.nodes(), status) by {
                                if j < before.len() {
                                    assert(r@[j] == before[j]);
                                }
                            }
                            assert forall|m: int| 0 <= m < r@.len() implies exists|j: int| 0 <= j < i + 1 && #[trigger] r@[m].node_id@ == keys@[j]@ by {
                                if m < before.len() {
                                    assert(r@[m] == before[m]);
                                    let j = choose|j: int| 0 <= j < i && before[m].node_id@ == keys@[j]@;
                                    assert(r@[m].node_id@ == keys@[j]@);
                                } else {
                                    assert(r@[m].node_id@ == keys@[i as int]@);
                                }
                            }
                            assert forall|a: int, b: int| 0 <= a < b < r@.len() implies #[trigger] r@[a].node_id@ != #[trigger] r@[b].node_id@ by {
                                assert(r@[a] == before[a]);
                                if b < before.len() {
                                    assert(r@[b] == before[b]);
                                } else {
                                    let j = choose|j: int| 0 <= j < i && before[a].node_id@ == keys@[j]@;
                                    assert(keys@[j]@ != keys@[i as int]@);
                                }
                            }
                        }
                    }
                    proof {
                        assert forall|j: int| 0 <= j < i + 1 && (status is Some ==> self.nodes()[#[trigger] keys@[j]@].status == status->Some_0)
                            implies exists|m: int| 0 <= m < r@.len() && r@[m].node_id@ == keys@[j]@ by {
                            if j < i {
                                let m = choose|m: int| 0 <= m < before.len() && before[m].node_id@ == keys@[j]@;
                                assert(r@[m] == before[m]);
                            } else {
                                assert(r@[r@.len() - 1].node_id@ == keys@[j]@);
                            }
                        }
                    }
                },
                None => {},
            }
            i = i + 1;
        }
        r
    }
}


impl NodeRegistry {
    /// Drops a node's record; dropping an absent node is no error.
    pub fn remove_node(&mut self, node_id: &str) -> (r: Result<(), PullpiriError>)
        ensures
            r is Ok,
            final(self).nodes() == old(self).nodes().remove(node_id@),
            final(self).cluster() == old(self).cluster(),
    {
        proof { use_type_invariant(&*self); }
        let mut m: TextMap<NodeInfo> = TextMap::new();
        std::mem::swap(&mut m, &mut self.nodes);
        m.remove(node_id);
        self.nodes = m;
        Ok(())
    }

    /// The nodes of the cluster split by role.
    pub fn get_cluster_topology(&self, cluster_id: &str) -> (r: ClusterTopology)
        ensures
            r.cluster_id@ == cluster_id@,
            r.cluster_name@ == "piccolo-cluster"@,
            r.topology_type == TopologyType::Simple,
            r.config@ == Map::<Seq<char>, String>::empty(),
            r.master_nodes@.len() + r.sub_nodes@.len() == self.nodes().dom().len(),
            forall|i: int| 0 <= i < r.master_nodes@.len() ==> #[trigger] listed_as(r.master_nodes@[i], self.nodes(), NodeRole::Master),
            forall|i: int| 0 <= i < r.sub_nodes@.len() ==> #[trigger] listed_as(r.sub_nodes@[i], self.nodes(), NodeRole::Sub),
            distinct_ids(r.master_nodes@),
            distinct_ids(r.sub_nodes@),
            forall|k: Seq<char>| #[trigger] self.nodes().contains_key(k) && self.nodes()[k].role == NodeRole::Master
                ==> id_in(k, r.master_nodes@),
            forall|k: Seq<char>| #[trigger] self.nodes().contains_key(k) && self.nodes()[k].role == NodeRole::Sub
                ==> id_in(k, r.sub_nodes@),
    {
        let all = self.get_all_nodes();
        let mut master_nodes: Vec<NodeInfo> = Vec::new();
        let mut sub_nodes: Vec<NodeInfo> = Vec::new();
        let mut rest = all;
        let ghost everything = rest@;
        proof {
            assert(split_ok(master_nodes@, everything, everything.len() as int, NodeRole::Master));
            assert(split_ok(sub_nodes@, everything, everything.len() as int, NodeRole::Sub));
        }
        while rest.len() > 0
            invariant
                distinct_ids(everything),
                split_ok(master_nodes@, everything, rest@.len() as int, NodeRole::Master),
                split_ok(sub_nodes@, everything, rest@.len() as int, NodeRole::Sub),
                rest@ == everything.subrange(0, rest@.len() as int),
                everything.len() == self.nodes().dom().len(),
                master_nodes@.len() + sub_nodes@.len() + rest@.len() == everything.len(),
                forall|i: int| 0 <= i < everything.len() ==> #[trigger] listed(everything[i], self.nodes(), None),
                forall|i: int| 0 <= i < master_nodes@.len() ==> #[trigger] listed_as(master_nodes@[i], self.nodes(), NodeRole::Master),
                forall|i: int| 0 <= i < sub_nodes@.len() ==> #[trigger] listed_as(sub_nodes@[i], self.nodes(), NodeRole::Sub),
            decreases rest@.len(),
        {
            let n = rest.pop().unwrap();
            assert(n == everything[rest@.len() as int]);
            assert(listed(n, self.nodes(), None));
            proof {
                lemma_split_step(master_nodes@, everything, rest@.len() as int, NodeRole::Master);
                lemma_split_step(sub_nodes@, everything, rest@.len() as int, NodeRole::Sub);
            }
            let ghost m0 = master_nodes@;
            let ghost s0 = sub_nodes@;
            let ghost g = n;
            let is_master = match n.role {
                NodeRole::Master => true,
                NodeRole::Sub => false,
            };
            match is_master {
                true => {
                    master_nodes.push(n);
                    proof {
                        assert(g.role == NodeRole::Master);
                        assert(master_nodes@[master_nodes@.len() - 1] == g);
                        assert forall|i: int| 0 <= i < master_nodes@.len() implies #[trigger] listed_as(master_nodes@[i], self.nodes(), NodeRole::Master) by {
                            if i < m0.len() {
                                assert(master_nodes@[i] == m0[i]);
                                assert(listed_as(m0[i], self.nodes(), NodeRole::Master));
                            } else {
                                assert(master_nodes@[i] == g);
                            }
                        }
                    }
                },
                false => {
                    sub_nodes.push(n);
                    proof {
                        assert(g.role == NodeRole::Sub);
                        assert(sub_nodes@[sub_nodes@.len() - 1] == g);
                        assert forall|i: int| 0 <= i < sub_nodes@.len() implies #[trigger] listed_as(sub_nodes@[i], self.nodes(), NodeRole::Sub) by {
                            if i < s0.len() {
                                assert(sub_nodes@[i] == s0[i]);
                                assert(listed_as(s0[i], self.nodes(), NodeRole::Sub));
                            } else {
                                assert(sub_nodes@[i] == g);
                            }
                        }
                    }
                },
            }
        }
        proof {
            assert forall|k: Seq<char>| #[trigger] self.nodes().contains_key(k) && self.nodes()[k].role == NodeRole::Master
                implies id_in(k, master_nodes@) by {
                let j = choose|j: int| 0 <= j < everything.len() && everything[j].node_id@ == k;
                assert(listed(everything[j], self.nodes(), None));
                assert(id_in(everything[j].node_id@, master_nodes@));
            }
            assert forall|k: Seq<char>| #[trigger] self.nodes().contains_key(k) && self.nodes()[k].role == NodeRole::Sub
                implies id_in(k, sub_nodes@) by {
                let j = choose|j: int| 0 <= j < everything.len() && everything[j].node_id@ == k;
                assert(listed(everything[j], self.nodes(), None));
                assert(id_in(everything[j].node_id@, sub_nodes@));
            }
        }
        ClusterTopology {
            cluster_id: owned(cluster_id),
            cluster_name: owned("piccolo-cluster"),
            topology_type: TopologyType::Simple,
            master_nodes,
            sub_nodes,
            config: TextMap::new(),
        }
    }

    /// Marks offline, at time `now`, every Online node not heard from for more
    /// than the timeout; returns their ids. Every other record is left as it was.
    #[verifier::rlimit(40)]
    pub fn check_stale_nodes(&mut self, now: i64) -> (r: Vec<String>)
        ensures
            final(self).nodes().dom() == old(self).nodes().dom(),
            final(self).cluster() == old(self).cluster(),
            forall|k: Seq<char>| #[trigger] old(self).nodes().contains_key(k) && is_stale(old(self).nodes()[k], now)
                ==> status_updated(old(self).nodes()[k], final(self).nodes()[k], NodeLifecycleStatus::Offline, None, None, now),
            forall|k: Seq<char>| #[trigger] old(self).nodes().contains_key(k) && !is_stale(old(self).nodes()[k], now)
                ==> final(self).nodes()[k] == old(self).nodes()[k],
            forall|i: int| 0 <= i < r@.len() ==> old(self).nodes().contains_key(#[trigger] r@[i]@)
                && is_stale(old(self).nodes()[r@[i]@], now),
            forall|k: Seq<char>| #[trigger] old(self).nodes().contains_key(k) && is_stale(old(self).nodes()[k], now)
                ==> exists|i: int| 0 <= i < r@.len() && r@[i]@ == k,
            forall|a: int, b: int| 0 <= a < b < r@.len() ==> r@[a]@ != r@[b]@,
            swept_at(old(self).nodes(), final(self).nodes(), r@, now),
    {
        proof { use_type_invariant(&*self); }
        let keys = self.nodes.keys();
        let ghost start = self.nodes();
        let mut swept: Vec<String> = Vec::new();
        let mut i: usize = 0;
        while i < keys.len()
            invariant
                i <= keys@.len(),
                forall|j: int| 0 <= j < keys@.len() ==> start.contains_key(#[trigger] keys@[j]@),
                forall|k: Seq<char>| #[trigger] start.contains_key(k) ==> exists|j: int| 0 <= j < keys@.len() && keys@[j]@ == k,
                forall|a: int, b: int| 0 <= a < b < keys@.len() ==> keys@[a]@ != keys@[b]@,
                self.nodes().dom() == start.dom(),
                self.cluster() == old(self).cluster(),
                start == old(self).nodes(),
                forall|j: int| 0 <= j < i && #[trigger] is_stale(start[keys@[j]@], now) ==>
                    status_updated(start[keys@[j]@], self.nodes()[keys@[j]@], NodeLifecycleStatus::Offline, None, None, now),
                forall|k: Seq<char>| start.contains_key(k) && !is_stale(start[k], now) ==> #[trigger] self.nodes()[k] == start[k],
                forall|j: int| i <= j < keys@.len() ==> #[trigger] self.nodes()[keys@[j]@] == start[keys@[j]@],
                forall|m: int| 0 <= m < swept@.len() ==> start.contains_key(#[trigger] swept@[m]@) && is_stale(start[swept@[m]@], now),
                forall|m: int| 0 <= m < swept@.len() ==> exists|j: int| 0 <= j < i && #[trigger] swept@[m]@ == keys@[j]@,
                forall|a: int, b: int| 0 <= a < b < swept@.len() ==> swept@[a]@ != swept@[b]@,
                forall|j: int| 0 <= j < i && #[trigger] is_stale(start[keys@[j]@], now) ==>
                    exists|m: int| 0 <= m < swept@.len() && swept@[m]@ == keys@[j]@,
            decreases keys@.len() - i,
        {
            let k = &keys[i];
            let stale = match self.nodes.get(k.as_str()) {
                Some(n) => n.is_online() && (now as i128) - (n.last_heartbeat as i128) > HEARTBEAT_TIMEOUT_SECONDS as i128,
                None => false,
            };
            let ghost before_nodes = self.nodes();
            let ghost before_swept = swept@;
            if stale {
                let _ = self.update_node_status(k.as_str(), NodeLifecycleStatus::Offline, None, None, now);
                swept.push(k.clone());
                proof {
                    assert forall|j: int| 0 <= j < i + 1 && #[trigger] is_stale(start[keys@[j]@], now) implies
                        exists|m: int| 0 <= m < swept@.len() && swept@[m]@ == keys@[j]@ by {
                        if j < i {
                            let m = choose|m: int| 0 <= m < before_swept.len() && before_swept[m]@ == keys@[j]@;
                            assert(swept@[m] == before_swept[m]);
                        } else {
                            assert(swept@[swept@.len() - 1]@ == keys@[j]@);
                        }
                    }
                    assert forall|m: int| 0 <= m < swept@.len() implies start.contains_key(#[trigger] swept@[m]@) && is_stale(start[swept@[m]@], now) by {
                        if m < before_swept.len() {
                            assert(swept@[m] == before_swept[m]);
                        }
                    }
                    assert forall|m: int| 0 <= m < swept@.len() implies exists|j: int| 0 <= j < i + 1 && #[trigger] swept@[m]@ == keys@[j]@ by {
                        if m < before_swept.len() {
                            assert(swept@[m] == before_swept[m]);
                            let j = choose|j: int| 0 <= j < i && before_swept[m]@ == keys@[j]@;
                            assert(swept@[m]@ == keys@[j]@);
                        } else {
                            assert(swept@[m]@ == keys@[i as int]@);
                        }
                    }
                    assert forall|a: int, b: int| 0 <= a < b < swept@.len() implies swept@[a]@ != swept@[b]@ by {
                        if b < before_swept.len() {
                            assert(swept@[a] == before_swept[a] && swept@[b] == before_swept[b]);
                        } else {
                            assert(swept@[a] == before_swept[a]);
                            let j = choose|j: int| 0 <= j < i && before_swept[a]@ == keys@[j]@;
                            assert(keys@[j]@ != keys@[i as int]@);
                        }
                    }
                    assert forall|j: int| i + 1 <= j < keys@.len() implies #[trigger] self.nodes()[keys@[j]@] == start[keys@[j]@] by {
                        assert(keys@[j]@ != keys@[i as int]@);
                    }
                    assert forall|j: int| 0 <= j < i + 1 && #[trigger] is_stale(start[keys@[j]@], now) implies
                        status_updated(start[keys@[j]@], self.nodes()[keys@[j]@], NodeLifecycleStatus::Offline, None, None, now) by {
                        if j < i {
                            assert(keys@[j]@ != keys@[i as int]@);
                        }
                    }
                }
            } else {
                proof {
                    assert forall|j: int| 0 <= j < i + 1 && #[trigger] is_stale(start[keys@[j]@], now) implies
                        exists|m: int| 0 <= m < swept@.len() && swept@[m]@ == keys@[j]@ by {
                    }
                }
            }
            i = i + 1;
        }
        proof {
            assert forall|k: Seq<char>| #[trigger] old(self).nodes().contains_key(k) && is_stale(old(self).nodes()[k], now)
                implies status_updated(old(self).nodes()[k], self.nodes()[k], NodeLifecycleStatus::Offline, None, None, now) by {
                let j = choose|j: int| 0 <= j < keys@.len() && keys@[j]@ == k;
                assert(is_stale(start[keys@[j]@], now));
            }
            assert forall|k: Seq<char>| #[trigger] old(self).nodes().contains_key(k) && is_stale(old(self).nodes()[k], now)
                implies exists|i: int| 0 <= i < swept@.len() && swept@[i]@ == k by {
                let j = choose|j: int| 0 <= j < keys@.len() && keys@[j]@ == k;
                assert(is_stale(start[keys@[j]@], now));
            }
        }
        swept
    }

    /// Sweeps stale nodes at the current time.
    pub fn check_stale_nodes_now(&mut self) -> (r: Vec<String>)
        ensures
            exists|now: i64| #[trigger] swept_at(old(self).nodes(), final(self).nodes(), r@, now),
            final(self).cluster() == old(self).cluster(),
    {
        let now = utc_now_seconds();
        let r = self.check_stale_nodes(now);
        assert(swept_at(old(self).nodes(), self.nodes(), r@, now));
        r
    }
}


/// Resources a node reports when it registers.
#[derive(Debug, Clone, Copy)]
pub struct NodeResourcesRequest {
    pub cpu_cores: u32,
    pub memory_mb: u64,
    pub disk_gb: u64,
    pub cpu_usage_bits: u64,
    pub memory_usage_bits: u64,
}

/// A registration as a node sends it; `role` is absent when the sender left it unspecified.
#[derive(Debug, Clone)]
pub struct NodeRegistrationRequest {
    pub node_id: String,
    pub hostname: String,
    pub ip_address: String,
    pub role: Option<NodeRole>,
    pub resources: Option<NodeResourcesRequest>,
}

/// The answer to a registration.
#[derive(Debug, Clone)]
pub struct NodeRegistrationResponse {
    pub success: bool,
    pub message: String,
    pub cluster_id: String,
}

impl NodeRegistry {
    /// Handles a registration request at time `now`: a request without id,
    /// host name or address, or without a role, is refused; otherwise the node
    /// is registered with the reported resources (default ones if none).
    pub fn handle_registration(&mut self, req: NodeRegistrationRequest, now: i64) -> (r: Result<NodeRegistrationResponse, PullpiriError>)
        ensures
            (req.node_id@.len() == 0 || req.hostname@.len() == 0 || req.ip_address@.len() == 0 || req.role is None) ==> {
                &&& r is Err
                &&& final(self).nodes() == old(self).nodes()
            },
            !(req.node_id@.len() == 0 || req.hostname@.len() == 0 || req.ip_address@.len() == 0 || req.role is None) ==> {
                let k = req.node_id@;
                let n = final(self).nodes()[k];
                &&& r is Ok && r->Ok_0.success
                &&& final(self).cluster() == Some(r->Ok_0.cluster_id@)
                &&& final(self).nodes() == old(self).nodes().insert(k, n)
                &&& n.node_name@ == req.hostname@
                &&& n.ip_address@ == req.ip_address@
                &&& n.role == req.role->Some_0
                &&& n.status == NodeLifecycleStatus::Initializing
                &&& n.last_heartbeat == now
                &&& n.created_at == now
                &&& n.labels@ == Map::<Seq<char>, String>::empty()
                &&& (req.resources is None ==> n.resources == crate::node::default_node_resources())
                &&& (req.resources matches Some(res) ==> n.resources.cpu_usage_bits == res.cpu_usage_bits
                    && n.resources.memory_usage_bits == res.memory_usage_bits)
                &&& (req.resources matches Some(res) ==> n.resources.cpu_cores == res.cpu_cores
                    && n.resources.memory_mb == res.memory_mb && n.resources.disk_gb == res.disk_gb)
            },
    {
        if req.node_id.as_str().unicode_len() == 0 || req.hostname.as_str().unicode_len() == 0
            || req.ip_address.as_str().unicode_len() == 0 {
            return Err(PullpiriError::config(owned("Missing required fields")));
        }
        let role = match req.role {
            Some(r) => r,
            None => return Err(PullpiriError::config(owned("Invalid node role"))),
        };
        let resources = match req.resources {
            Some(res) => NodeResources {
                cpu_cores: res.cpu_cores,
                memory_mb: res.memory_mb,
                disk_gb: res.disk_gb,
                cpu_usage_bits: res.cpu_usage_bits,
                memory_usage_bits: res.memory_usage_bits,
            },
            None => NodeResources::default_resources(),
        };
        let node = NodeInfo {
            node_id: req.node_id,
            node_name: req.hostname,
            ip_address: req.ip_address,
            role,
            status: NodeLifecycleStatus::Offline,
            resources,
            labels: TextMap::new(),
            created_at: now,
            last_heartbeat: now,
        };
        match self.register_node(node, now) {
            Ok(cluster_id) => Ok(NodeRegistrationResponse {
                success: true,
                message: owned("Node registered successfully"),
                cluster_id,
            }),
            Err(e) => Err(e),
        }
    }
}


/// ASCII lower case of one character.
pub open spec fn ascii_lower(c: char) -> char {
    if 'A' <= c && c <= 'Z' { ((c as u8) + 32u8) as u8 as char } else { c }
}

/// The role a text names, in any letter case: `master` or `sub`.
pub open spec fn role_of_text(t: Seq<char>) -> Option<NodeRole> {
    let l = t.map_values(|c: char| ascii_lower(c));
    if l == "master"@ {
        Some(NodeRole::Master)
    } else if l == "sub"@ {
        Some(NodeRole::Sub)
    } else {
        None
    }
}

/// The role a registration names, in any letter case; other text names none.
pub fn parse_role(role: &str) -> (r: Option<NodeRole>)
    ensures
        r == role_of_text(role@),
{
    let n = role.unicode_len();
    let mut lower: Vec<char> = Vec::new();
    let mut i: usize = 0;
    while i < n
        invariant
            n == role@.len(),
            i <= n,
            lower@ =~= role@.subrange(0, i as int).map_values(|c: char| ascii_lower(c)),
        decreases n - i,
    {
        let c = role.get_char(i);
        let l = if 'A' <= c && c <= 'Z' { ((c as u8) + 32u8) as char } else { c };
        lower.push(l);
        i = i + 1;
    }
    assert(role@.subrange(0, n as int) =~= role@);
    let text = crate::text::text_of_chars(&lower);
    if crate::text::text_eq(text.as_str(), "master") {
        Some(NodeRole::Master)
    } else if crate::text::text_eq(text.as_str(), "sub") {
        Some(NodeRole::Sub)
    } else {
        None
    }
}

/// The id of a node registered by name at time `millis`: `{name}-{millis}`.
pub open spec fn node_id_text(name: Seq<char>, millis: i64) -> Seq<char> {
    name + "-"@ + decimal_text(millis as int)
}

/// The id given to a node registered by name at time `millis`: `{name}-{millis}`.
pub fn node_id_at(node_name: &str, millis: i64) -> (r: String)
    ensures
        r@ == node_name@ + "-"@ + decimal_text(millis as int),
{
    let m = int_text(millis as i128);
    join3(node_name, "-", m.as_str())
}

/// The id for a node registered by name now.
pub fn generate_node_id(node_name: &str) -> (r: String)
    ensures
        exists|millis: i64| r@ == #[trigger] node_id_text(node_name@, millis),
{
    let millis = crate::node::utc_now_millis();
    let r = node_id_at(node_name, millis);
    assert(r@ == node_id_text(node_name@, millis));
    r
}

} // verus!
