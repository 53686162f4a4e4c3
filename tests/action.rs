use pullpiri::action::{ActionControllerManager, Status, WorkloadCommand};
use pullpiri::package::{Model, Package, PackageSpec, Resource, Scenario};

fn manager() -> ActionControllerManager {
    ActionControllerManager { bluechi_nodes: vec!["HPC".to_string()], nodeagent_nodes: vec![] }
}

fn scenario(action: &str, target: &str) -> Scenario {
    Scenario { name: "s1".to_string(), action: action.to_string(), target: target.to_string(), condition: None }
}

fn package(name: &str, models: &[(&str, &str)]) -> Package {
    Package {
        api_version: "v1".to_string(),
        kind: "Package".to_string(),
        name: name.to_string(),
        spec: PackageSpec {
            pattern: vec![],
            models: models
                .iter()
                .map(|(m, n)| Model {
                    name: m.to_string(),
                    node: n.to_string(),
                    resources: Resource { volume: None, network: None },
                })
                .collect(),
        },
        status: None,
    }
}

#[test]
fn test_manager_initializes_nodes() {
    let manager = ActionControllerManager::new();
    assert!(!manager.bluechi_nodes.is_empty() || !manager.nodeagent_nodes.is_empty());
}

#[test]
fn launch_starts_each_federation_model() {
    let s = scenario("launch", "p1");
    let p = package("p1", &[("m1", "HPC")]);
    let cmds = manager().trigger_manager_action("s1", Some(&s), Some(&p)).unwrap();
    assert_eq!(cmds.len(), 1);
    match &cmds[0] {
        WorkloadCommand::UnitStart { unit, node } => {
            assert_eq!(unit, "m1.service");
            assert_eq!(node, "HPC");
        }
        other => panic!("unexpected command {:?}", other),
    }
}

#[test]
fn unknown_scenario_is_not_found() {
    let err = manager().trigger_manager_action("missing", None, None).unwrap_err();
    assert!(err.contains("not found"));
}

#[test]
fn test_trigger_manager_action_invalid_scenario() {
    let result = manager().trigger_manager_action("invalid_scenario", None, None);
    assert!(result.is_err());
}

#[test]
fn missing_package_is_not_found() {
    let s = scenario("launch", "absent-pkg");
    let err = manager().trigger_manager_action("s1", Some(&s), None).unwrap_err();
    assert!(err.contains("not found"));
    assert!(err.contains("absent-pkg"));
}

#[test]
fn empty_scenario_name_is_rejected() {
    let s = scenario("launch", "p1");
    let p = package("p1", &[("m1", "HPC")]);
    assert!(manager().trigger_manager_action("  ", Some(&s), Some(&p)).is_err());
}

#[test]
fn update_relinks_the_unit_between_stop_and_start() {
    let s = scenario("update", "antipinch-enable");
    let p = package("antipinch-enable", &[("antipinch-enable-core", "HPC")]);
    let cmds = manager().trigger_manager_action("antipinch-enable", Some(&s), Some(&p)).unwrap();
    assert_eq!(cmds.len(), 4);
    assert!(matches!(&cmds[0], WorkloadCommand::UnitStop { unit, .. } if unit == "antipinch-enable-core.service"));
    assert!(matches!(&cmds[1], WorkloadCommand::RemoveUnitLink { model, .. } if model == "antipinch-enable-core"));
    assert!(matches!(&cmds[2], WorkloadCommand::CreateUnitLink { target, .. } if target == "antipinch-enable"));
    assert!(matches!(&cmds[3], WorkloadCommand::UnitStart { node, .. } if node == "HPC"));
}

#[test]
fn unknown_action_and_unknown_node_do_nothing() {
    let s = scenario("dance", "p1");
    let p = package("p1", &[("m1", "HPC")]);
    assert!(manager().trigger_manager_action("s1", Some(&s), Some(&p)).unwrap().is_empty());
    let s = scenario("launch", "p1");
    let p = package("p1", &[("m1", "elsewhere")]);
    assert!(manager().trigger_manager_action("s1", Some(&s), Some(&p)).unwrap().is_empty());
}

#[test]
fn test_reconcile_do_with_valid_status() {
    let result = manager().reconcile_do("antipinch-enable".into(), Status::Running, Status::Running, None, None);
    assert!(result.is_ok());
}

#[test]
fn test_reconcile_do_invalid_scenario_key() {
    let result = manager().reconcile_do("invalid_scenario".into(), Status::NotSet, Status::Running, None, None);
    assert!(result.is_err());
}

#[test]
fn reconcile_to_running_starts_models() {
    let s = scenario("launch", "p1");
    let p = package("p1", &[("m1", "HPC"), ("m2", "HPC")]);
    let cmds = manager().reconcile_do("s1".into(), Status::Ready, Status::Running, Some(&s), Some(&p)).unwrap();
    assert_eq!(cmds.len(), 2);
}

#[test]
fn test_start_workload_invalid_node_type() {
    assert!(manager().start_workload("antipinch-enable", "HPC", "invalid_type").is_err());
}

#[test]
fn test_stop_workload_invalid_node_type() {
    assert!(manager().stop_workload("antipinch-enable", "HPC", "invalid_type").is_err());
}

#[test]
fn node_agent_dispatch_is_a_no_op() {
    assert!(manager().start_workload("m", "n", "nodeagent").unwrap().is_none());
    assert!(manager().stop_workload("m", "n", "bluechi").unwrap().is_some());
}

#[test]
fn test_create_delete_restart_pause_are_noops() {
    let manager = ActionControllerManager { bluechi_nodes: vec![], nodeagent_nodes: vec![] };
    assert!(manager.create_workload("test".into()).is_ok());
    assert!(manager.delete_workload("test".into()).is_ok());
    assert!(manager.restart_workload("test".into()).is_ok());
    assert!(manager.pause_workload("test".into()).is_ok());
}
