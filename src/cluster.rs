//! Views of the registry served to clients: filtered listings and cluster health.
use vstd::prelude::*;
use crate::node::{NodeInfo, NodeLifecycleStatus, NodeRole};
use crate::text::{owned, text_eq};

verus! {

/// Optional filters of a node listing, by status and by role name.
#[derive(Debug, Clone)]
pub struct NodesQuery {
    pub status: Option<String>,
    pub role: Option<String>,
}

/// The lower-case name of a status.
pub open spec fn status_name(s: NodeLifecycleStatus) -> Seq<char> {
    match s {
        NodeLifecycleStatus::Online => "online"@,
        NodeLifecycleStatus::Offline => "offline"@,
        NodeLifecycleStatus::Initializing => "initializing"@,
        NodeLifecycleStatus::Error => "error"@,
        NodeLifecycleStatus::Maintenance => "maintenance"@,
    }
}

/// The lower-case name of a role.
pub open spec fn role_name(r: NodeRole) -> Seq<char> {
    match r {
        NodeRole::Master => "master"@,
        NodeRole::Sub => "sub"@,
    }
}

/// A node passes the filters that are given.
pub open spec fn query_admits(q: NodesQuery, n: NodeInfo) -> bool {
    &&& (q.status is Some ==> status_name(n.status) == q.status->Some_0@)
    &&& (q.role is Some ==> role_name(n.role) == q.role->Some_0@)
}

fn status_text(s: NodeLifecycleStatus) -> (r: &'static str)
    ensures
        r@ == status_name(s),
{
    match s {
        NodeLifecycleStatus::Online => "online",
        NodeLifecycleStatus::Offline => "offline",
        NodeLifecycleStatus::Initializing => "initializing",
        NodeLifecycleStatus::Error => "error",
        NodeLifecycleStatus::Maintenance => "maintenance",
    }
}

fn role_text(r: NodeRole) -> (t: &'static str)
    ensures
        t@ == role_name(r),
{
    match r {
        NodeRole::Master => "master",
        NodeRole::Sub => "sub",
    }
}

/// True when the node passes the query's filters.
pub fn node_matches(query: &NodesQuery, node: &NodeInfo) -> (r: bool)
    ensures
        r == query_admits(*query, *node),
{
    match &query.status {
        Some(s) => {
            if !text_eq(status_text(node.status), s.as_str()) {
                return false;
            }
        },
        None => {},
    }
    match &query.role {
        Some(want) => {
            if !text_eq(role_text(node.role), want.as_str()) {
                return false;
            }
        },
        None => {},
    }
    true
}

/// The nodes that pass the query, in order.
pub fn filter_nodes(nodes: Vec<NodeInfo>, query: &NodesQuery) -> (r: Vec<NodeInfo>)
    ensures
        r@ == nodes@.filter(|n: NodeInfo| query_admits(*query, n)),
{
    let ghost all = nodes@;
    let mut rest = nodes;
    let mut kept_rev: Vec<NodeInfo> = Vec::new();
    while rest.len() > 0
        invariant
            rest@ == all.subrange(0, rest@.len() as int),
            rest@.len() <= all.len(),
            all.filter(|n: NodeInfo| query_admits(*query, n))
                == rest@.filter(|n: NodeInfo| query_admits(*query, n)) + reversed(kept_rev@),
        decreases rest@.len(),
    {
        let ghost before = rest@;
        let n = rest.pop().unwrap();
        proof {
            assert(before == rest@.push(n));
            reveal(Seq::filter);
            assert(before.drop_last() == rest@);
        }
        let ghost kept_before = kept_rev@;
        if node_matches(query, &n) {
            kept_rev.push(n);
            proof {
                assert(kept_rev@.drop_last() =~= kept_before);
                assert(kept_rev@.last() == n);
                assert(reversed(kept_rev@) =~= seq![n] + reversed(kept_before));
            }
        }
    }
    let mut out: Vec<NodeInfo> = Vec::new();
    let ghost target = reversed(kept_rev@);
    while kept_rev.len() > 0
        invariant
            target == out@ + reversed(kept_rev@),
        decreases kept_rev@.len(),
    {
        let ghost k0 = kept_rev@;
        let n = kept_rev.pop().unwrap();
        proof {
            assert(k0 == kept_rev@.push(n));
            assert(reversed(k0) =~= seq![n] + reversed(kept_rev@));
        }
        out.push(n);
        proof {
            assert(target =~= out@ + reversed(kept_rev@));
        }
    }
    proof {
        assert(all.subrange(0, 0) =~= Seq::<NodeInfo>::empty());
        assert(out@ =~= out@ + reversed(kept_rev@));
    }
    out
}

/// `s` back to front.
pub open spec fn reversed<T>(s: Seq<T>) -> Seq<T>
    decreases s.len(),
{
    if s.len() == 0 { Seq::empty() } else { seq![s.last()] + reversed(s.drop_last()) }
}


/// Health summary of the cluster.
#[derive(Debug, Clone)]
pub struct ClusterHealthResponse {
    pub status: String,
    pub total_nodes: usize,
    pub online_nodes: usize,
    pub master_nodes: usize,
    pub sub_nodes: usize,
}

/// Number of Online nodes.
pub open spec fn online_count(s: Seq<NodeInfo>) -> nat
    decreases s.len(),
{
    if s.len() == 0 { 0 } else { online_count(s.drop_last()) + if s.last().status == NodeLifecycleStatus::Online { 1nat } else { 0nat } }
}

/// Number of nodes with role `r`.
pub open spec fn role_count(s: Seq<NodeInfo>, r: NodeRole) -> nat
    decreases s.len(),
{
    if s.len() == 0 { 0 } else { role_count(s.drop_last(), r) + if s.last().role == r { 1nat } else { 0nat } }
}

proof fn lemma_counts_bounded(s: Seq<NodeInfo>)
    ensures
        online_count(s) <= s.len(),
        role_count(s, NodeRole::Master) + role_count(s, NodeRole::Sub) == s.len(),
    decreases s.len(),
{
    if s.len() > 0 {
        lemma_counts_bounded(s.drop_last());
    }
}

/// `unhealthy` with no node online, `degraded` with some offline, else `healthy`.
pub open spec fn health_word(online: nat, total: nat) -> Seq<char> {
    if online == 0 { "unhealthy"@ } else if online < total { "degraded"@ } else { "healthy"@ }
}

/// Counts nodes by liveness and role and names the cluster's health.
pub fn cluster_health(nodes: &Vec<NodeInfo>) -> (r: ClusterHealthResponse)
    ensures
        r.total_nodes == nodes@.len(),
        r.online_nodes == online_count(nodes@),
        r.master_nodes == role_count(nodes@, NodeRole::Master),
        r.sub_nodes == role_count(nodes@, NodeRole::Sub),
        r.status@ == health_word(online_count(nodes@), nodes@.len()),
{
    let mut online: usize = 0;
    let mut masters: usize = 0;
    let mut subs: usize = 0;
    let mut i: usize = 0;
    while i < nodes.len()
        invariant
            i <= nodes@.len(),
            online == online_count(nodes@.subrange(0, i as int)),
            masters == role_count(nodes@.subrange(0, i as int), NodeRole::Master),
            subs == role_count(nodes@.subrange(0, i as int), NodeRole::Sub),
            online <= i && masters + subs == i,
        decreases nodes@.len() - i,
    {
        proof {
            let next = nodes@.subrange(0, i as int + 1);
            assert(next.drop_last() =~= nodes@.subrange(0, i as int));
            assert(next.last() == nodes@[i as int]);
            lemma_counts_bounded(nodes@.subrange(0, i as int));
        }
        if nodes[i].status == NodeLifecycleStatus::Online {
            online = online + 1;
        }
        match nodes[i].role {
            NodeRole::Master => { masters = masters + 1; },
            NodeRole::Sub => { subs = subs + 1; },
        }
        i = i + 1;
    }
    assert(nodes@.subrange(0, nodes@.len() as int) =~= nodes@);
    let total = nodes.len();
    let status = if online == 0 {
        owned("unhealthy")
    } else if online < total {
        owned("degraded")
    } else {
        owned("healthy")
    };
    ClusterHealthResponse { status, total_nodes: total, online_nodes: online, master_nodes: masters, sub_nodes: subs }
}

} // verus!
