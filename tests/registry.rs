use pullpiri::node::{NodeInfo, NodeLifecycleStatus, NodeResources, NodeRole, NodeRegistrationInfo, NodeStatus, NodeState};
use pullpiri::registry::{node_id_at, parse_role, NodeRegistrationRequest, NodeRegistry, NodeResourcesRequest};
use pullpiri::textmap::TextMap;

const NOW: i64 = 1_700_000_000;

fn node(id: &str, status: NodeLifecycleStatus, heartbeat: i64, role: NodeRole) -> NodeInfo {
    NodeInfo {
        node_id: id.to_string(),
        node_name: format!("{}-name", id),
        ip_address: "10.0.0.1".to_string(),
        role,
        status,
        resources: NodeResources::default_resources(),
        labels: TextMap::new(),
        created_at: 0,
        last_heartbeat: heartbeat,
    }
}

#[test]
fn stale_online_node_is_swept() {
    let mut reg = NodeRegistry::new();
    reg.restore_node(node("n1", NodeLifecycleStatus::Online, NOW - 120, NodeRole::Sub));
    reg.restore_node(node("n2", NodeLifecycleStatus::Online, NOW - 10, NodeRole::Sub));
    let swept = reg.check_stale_nodes(NOW);
    assert_eq!(swept, vec!["n1".to_string()]);
    assert_eq!(reg.get_node("n1").unwrap().status, NodeLifecycleStatus::Offline);
    let n2 = reg.get_node("n2").unwrap();
    assert_eq!(n2.status, NodeLifecycleStatus::Online);
    assert_eq!(n2.last_heartbeat, NOW - 10);
}

#[test]
fn sweep_leaves_offline_and_boundary_nodes() {
    let mut reg = NodeRegistry::new();
    reg.restore_node(node("a", NodeLifecycleStatus::Offline, NOW - 1000, NodeRole::Sub));
    reg.restore_node(node("b", NodeLifecycleStatus::Online, NOW - 90, NodeRole::Sub));
    reg.restore_node(node("c", NodeLifecycleStatus::Initializing, NOW - 1000, NodeRole::Sub));
    assert!(reg.check_stale_nodes(NOW).is_empty());
    assert_eq!(reg.get_node("b").unwrap().status, NodeLifecycleStatus::Online);
    assert_eq!(reg.get_node("c").unwrap().status, NodeLifecycleStatus::Initializing);
}

#[test]
fn registration_stamps_and_keeps_cluster_id() {
    let mut reg = NodeRegistry::new();
    let id = reg.register_node(node("n1", NodeLifecycleStatus::Online, 5, NodeRole::Master), NOW).unwrap();
    assert_eq!(id, "piccolo-cluster-1700000000");
    let stored = reg.get_node("n1").unwrap();
    assert_eq!(stored.status, NodeLifecycleStatus::Initializing);
    assert_eq!(stored.last_heartbeat, NOW);
    let again = reg.register_node(node("n2", NodeLifecycleStatus::Online, 5, NodeRole::Sub), NOW + 50).unwrap();
    assert_eq!(again, id);
    assert!(reg.register_node(node("", NodeLifecycleStatus::Online, 5, NodeRole::Sub), NOW).is_err());
}

#[test]
fn status_update_sets_usage_and_heartbeat() {
    let mut reg = NodeRegistry::new();
    reg.restore_node(node("n1", NodeLifecycleStatus::Initializing, 1, NodeRole::Sub));
    reg.update_node_status("n1", NodeLifecycleStatus::Online, Some(0.5f64.to_bits()), None, NOW).unwrap();
    let n = reg.get_node("n1").unwrap();
    assert_eq!(n.status, NodeLifecycleStatus::Online);
    assert_eq!(n.last_heartbeat, NOW);
    assert_eq!(f64::from_bits(n.resources.cpu_usage_bits), 0.5);
    assert_eq!(n.resources.memory_usage_bits, 0);
    assert!(reg.update_node_status("missing", NodeLifecycleStatus::Online, None, None, NOW).is_err());
}

#[test]
fn topology_splits_by_role_and_filters_by_status() {
    let mut reg = NodeRegistry::new();
    reg.restore_node(node("m", NodeLifecycleStatus::Online, NOW, NodeRole::Master));
    reg.restore_node(node("s1", NodeLifecycleStatus::Online, NOW, NodeRole::Sub));
    reg.restore_node(node("s2", NodeLifecycleStatus::Offline, NOW, NodeRole::Sub));
    let t = reg.get_cluster_topology("c1");
    assert_eq!(t.cluster_id, "c1");
    assert_eq!(t.cluster_name, "piccolo-cluster");
    assert_eq!(t.master_nodes.len(), 1);
    assert_eq!(t.sub_nodes.len(), 2);
    assert_eq!(reg.get_all_nodes().len(), 3);
    let online = reg.get_nodes_by_status(NodeLifecycleStatus::Online);
    assert_eq!(online.len(), 2);
    reg.remove_node("s2").unwrap();
    assert!(reg.get_node("s2").is_err());
    assert!(reg.remove_node("s2").is_ok());
}

#[test]
fn node_defaults_and_ages() {
    let n = NodeInfo::new("id".to_string(), "name".to_string(), "1.2.3.4".to_string());
    assert_eq!(n.role, NodeRole::Sub);
    assert!(!n.is_online());
    assert_eq!(n.resources.cpu_cores, 1);
    assert_eq!(n.resources.memory_mb, 512);
    assert_eq!(n.resources.disk_gb, 10);
    let old = node("x", NodeLifecycleStatus::Online, NOW - 100, NodeRole::Sub);
    assert_eq!(old.heartbeat_age_at(NOW), 100);
    assert!(old.is_online());
    let reg_info = NodeRegistrationInfo::new("a".into(), "b".into(), "c".into()).with_role(NodeRole::Master);
    assert_eq!(reg_info.role, NodeRole::Master);
    let ready = NodeStatus::ready(NOW);
    assert!(ready.is_ready());
    assert_eq!(ready.conditions.len(), 1);
    assert_eq!(NodeStatus::new(NOW).state, NodeState::Unknown);
}

#[test]
fn registration_requests_are_checked() {
    let mut reg = NodeRegistry::new();
    let req = NodeRegistrationRequest {
        node_id: "n1".into(),
        hostname: "host".into(),
        ip_address: "10.0.0.5".into(),
        role: Some(NodeRole::Master),
        resources: Some(NodeResourcesRequest { cpu_cores: 8, memory_mb: 4096, disk_gb: 100, cpu_usage_bits: 0, memory_usage_bits: 0 }),
    };
    let resp = reg.handle_registration(req.clone(), NOW).unwrap();
    assert!(resp.success);
    assert_eq!(resp.cluster_id, "piccolo-cluster-1700000000");
    let n = reg.get_node("n1").unwrap();
    assert_eq!(n.role, NodeRole::Master);
    assert_eq!(n.resources.cpu_cores, 8);
    assert_eq!(n.status, NodeLifecycleStatus::Initializing);
    let mut no_ip = req.clone();
    no_ip.ip_address = String::new();
    assert!(reg.handle_registration(no_ip, NOW).is_err());
    let mut no_role = req;
    no_role.role = None;
    assert!(reg.handle_registration(no_role, NOW).is_err());
}

#[test]
fn roles_parse_in_any_case() {
    assert_eq!(parse_role("Master"), Some(NodeRole::Master));
    assert_eq!(parse_role("SUB"), Some(NodeRole::Sub));
    assert_eq!(parse_role("worker"), None);
    assert_eq!(parse_role(""), None);
}

#[test]
fn node_ids_carry_name_and_time() {
    assert_eq!(node_id_at("edge", 1700000000123), "edge-1700000000123");
    assert_eq!(node_id_at("edge", -5), "edge--5");
    assert_eq!(node_id_at("edge", i64::MIN), "edge--9223372036854775808");
}

#[test]
fn topology_lists_each_node_once() {
    let mut reg = NodeRegistry::new();
    reg.restore_node(node("m", NodeLifecycleStatus::Online, NOW, NodeRole::Master));
    reg.restore_node(node("s1", NodeLifecycleStatus::Online, NOW, NodeRole::Sub));
    reg.restore_node(node("s2", NodeLifecycleStatus::Online, NOW, NodeRole::Sub));
    let t = reg.get_cluster_topology("c");
    let mut subs: Vec<&str> = t.sub_nodes.iter().map(|n| n.node_id.as_str()).collect();
    subs.sort();
    assert_eq!(subs, vec!["s1", "s2"]);
    assert_eq!(t.master_nodes[0].node_id, "m");
}
