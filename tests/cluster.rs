use pullpiri::cluster::{cluster_health, filter_nodes, NodesQuery};
use pullpiri::node::{NodeInfo, NodeLifecycleStatus, NodeResources, NodeRole};
use pullpiri::reporting::{ComponentErrorStats, ErrorCollector, ErrorReport};
use pullpiri::textmap::TextMap;

fn node(id: &str, status: NodeLifecycleStatus, role: NodeRole) -> NodeInfo {
    NodeInfo {
        node_id: id.to_string(),
        node_name: id.to_string(),
        ip_address: "10.0.0.1".to_string(),
        role,
        status,
        resources: NodeResources::default_resources(),
        labels: TextMap::new(),
        created_at: 0,
        last_heartbeat: 0,
    }
}

fn nodes() -> Vec<NodeInfo> {
    vec![
        node("a", NodeLifecycleStatus::Online, NodeRole::Master),
        node("b", NodeLifecycleStatus::Offline, NodeRole::Sub),
        node("c", NodeLifecycleStatus::Online, NodeRole::Sub),
    ]
}

#[test]
fn listing_filters_by_status_and_role() {
    let q = NodesQuery { status: Some("online".to_string()), role: Some("sub".to_string()) };
    let kept = filter_nodes(nodes(), &q);
    assert_eq!(kept.len(), 1);
    assert_eq!(kept[0].node_id, "c");
    let all = filter_nodes(nodes(), &NodesQuery { status: None, role: None });
    let ids: Vec<&str> = all.iter().map(|n| n.node_id.as_str()).collect();
    assert_eq!(ids, vec!["a", "b", "c"]);
}

#[test]
fn health_reflects_online_share() {
    let h = cluster_health(&nodes());
    assert_eq!(h.status, "degraded");
    assert_eq!((h.total_nodes, h.online_nodes, h.master_nodes, h.sub_nodes), (3, 2, 1, 2));
    assert_eq!(cluster_health(&vec![]).status, "unhealthy");
    let up = vec![node("a", NodeLifecycleStatus::Online, NodeRole::Master)];
    assert_eq!(cluster_health(&up).status, "healthy");
}

#[test]
fn error_counters_flag_high_rates() {
    let mut c = ErrorCollector::new();
    let r = ErrorReport::new("boom".to_string(), "engine".to_string(), 5).with_context("ctx".to_string());
    for _ in 0..600 {
        assert!(!c.handle_error_report(&r));
    }
    assert!(c.handle_error_report(&r));
    let s = c.get_component_stats("engine").unwrap();
    assert_eq!(s.total_errors, 601);
    assert_eq!(s.last_error, Some(5));
    assert_eq!(c.get_component_stats("other"), None);
    assert_eq!(ComponentErrorStats::new().total_errors, 0);
}
