//! The action controller: turns a scenario trigger into per-model runtime
//! commands, routed by the kind of node each model runs on.
use vstd::prelude::*;
use crate::package::{Package, Scenario};
use crate::text::{join3, owned, text_eq};

verus! {

/// One configured node and the runtime that manages it (`bluechi` or `nodeagent`).
#[derive(Debug, Clone)]
pub struct NodeSetting {
    pub name: String,
    pub ip: String,
    pub node_type: String,
}

impl NodeSetting {
    /// A copy of this setting.
    pub fn duplicate(&self) -> (r: NodeSetting)
        ensures
            r == *self,
    {
        NodeSetting { name: self.name.clone(), ip: self.ip.clone(), node_type: self.node_type.clone() }
    }
}

/// The host node and the guest nodes of the deployment.
#[derive(Debug, Clone)]
pub struct Settings {
    pub host: NodeSetting,
    pub guest: Option<Vec<NodeSetting>>,
    pub yaml_storage: String,
}

impl Settings {
    /// A single federation host named `HPC`.
    pub fn default_settings() -> (r: Settings)
        ensures
            r.host.name@ == "HPC"@,
            r.host.node_type@ == "bluechi"@,
            r.guest is None,
    {
        Settings {
            host: NodeSetting { name: owned("HPC"), ip: owned("0.0.0.0"), node_type: owned("bluechi") },
            guest: None,
            yaml_storage: owned("/etc/piccolo/yaml"),
        }
    }
}

/// Runtime that manages a node.
#[derive(Debug, Clone, Copy, PartialEq, Eq, Structural)]
pub enum NodeKind {
    Bluechi,
    NodeAgent,
}

/// A runtime command for one model.
#[derive(Debug, Clone)]
pub enum WorkloadCommand {
    /// Start the unit on the node.
    UnitStart { unit: String, node: String },
    /// Stop the unit on the node.
    UnitStop { unit: String, node: String },
    /// Remove the model's unit link on the host, then reload the federation.
    RemoveUnitLink { model: String, node: String },
    /// Link the model's unit to the target's file on the host, then reload the federation.
    CreateUnitLink { model: String, node: String, target: String },
}

/// The mathematical value of a command.
pub enum CommandView {
    Start(Seq<char>, Seq<char>),
    Stop(Seq<char>, Seq<char>),
    RemoveLink(Seq<char>, Seq<char>),
    CreateLink(Seq<char>, Seq<char>, Seq<char>),
}

pub open spec fn command_view(c: WorkloadCommand) -> CommandView {
    match c {
        WorkloadCommand::UnitStart { unit, node } => CommandView::Start(unit@, node@),
        WorkloadCommand::UnitStop { unit, node } => CommandView::Stop(unit@, node@),
        WorkloadCommand::RemoveUnitLink { model, node } => CommandView::RemoveLink(model@, node@),
        WorkloadCommand::CreateUnitLink { model, node, target } => CommandView::CreateLink(model@, node@, target@),
    }
}

pub open spec fn command_views(s: Seq<WorkloadCommand>) -> Seq<CommandView> {
    s.map_values(|c: WorkloadCommand| command_view(c))
}

pub open spec fn names(v: Seq<String>) -> Seq<Seq<char>> {
    v.map_values(|s: String| s@)
}

/// Names of the configured nodes of type `t`: the host first, then the guests in order.
pub open spec fn configured_of_type(nodes: Seq<NodeSetting>, t: Seq<char>) -> Seq<Seq<char>>
    decreases nodes.len(),
{
    if nodes.len() == 0 {
        Seq::empty()
    } else if nodes.last().node_type@ == t {
        configured_of_type(nodes.drop_last(), t).push(nodes.last().name@)
    } else {
        configured_of_type(nodes.drop_last(), t)
    }
}

pub open spec fn all_settings(s: Settings) -> Seq<NodeSetting> {
    match s.guest {
        Some(g) => seq![s.host] + g@,
        None => seq![s.host],
    }
}

/// The runtime of `node`: federation nodes first, then node-agent nodes.
pub open spec fn kind_of_node(bluechi: Seq<Seq<char>>, agent: Seq<Seq<char>>, node: Seq<char>) -> Option<NodeKind> {
    if bluechi.contains(node) {
        Some(NodeKind::Bluechi)
    } else if agent.contains(node) {
        Some(NodeKind::NodeAgent)
    } else {
        None
    }
}

/// The unit that runs a model: `{model}.service`.
pub open spec fn unit_of(model: Seq<char>) -> Seq<char> {
    model + ".service"@
}

/// The commands for one model under a scenario action. Only federation nodes get
/// commands: the node-agent runtime accepts start and stop as no-ops, and
/// nodes of neither kind are skipped.
pub open spec fn model_commands(
    kind: Option<NodeKind>,
    action: Seq<char>,
    model: Seq<char>,
    node: Seq<char>,
    target: Seq<char>,
) -> Seq<CommandView> {
    if kind == Some(NodeKind::Bluechi) {
        if action == "launch"@ {
            seq![CommandView::Start(unit_of(model), node)]
        } else if action == "terminate"@ {
            seq![CommandView::Stop(unit_of(model), node)]
        } else if action == "update"@ || action == "rollback"@ {
            seq![
                CommandView::Stop(unit_of(model), node),
                CommandView::RemoveLink(model, node),
                CommandView::CreateLink(model, node, target),
                CommandView::Start(unit_of(model), node),
            ]
        } else {
            Seq::empty()
        }
    } else {
        Seq::empty()
    }
}

/// The commands for a list of models (name, node), in model order.
pub open spec fn planned_commands(
    bluechi: Seq<Seq<char>>,
    agent: Seq<Seq<char>>,
    action: Seq<char>,
    target: Seq<char>,
    models: Seq<crate::package::Model>,
) -> Seq<CommandView>
    decreases models.len(),
{
    if models.len() == 0 {
        Seq::empty()
    } else {
        let m = models.last();
        planned_commands(bluechi, agent, action, target, models.drop_last())
            + model_commands(kind_of_node(bluechi, agent, m.node@), action, m.name@, m.node@, target)
    }
}

/// Status of a scenario's workloads, as reconciliation sees it.
#[derive(Debug, Clone, Copy, PartialEq, Eq, Structural)]
pub enum Status {
    NotSet,
    Init,
    Ready,
    Running,
    Done,
    Failed,
    Unknown,
}

pub open spec fn is_sentinel(s: Status) -> bool {
    s == Status::NotSet || s == Status::Failed || s == Status::Unknown
}

/// Commands to bring every classified model of a package to running: a start on
/// each federation node.
pub open spec fn start_commands(bluechi: Seq<Seq<char>>, agent: Seq<Seq<char>>, models: Seq<crate::package::Model>) -> Seq<CommandView>
    decreases models.len(),
{
    if models.len() == 0 {
        Seq::empty()
    } else {
        let m = models.last();
        start_commands(bluechi, agent, models.drop_last())
            + if kind_of_node(bluechi, agent, m.node@) == Some(NodeKind::Bluechi) {
                seq![CommandView::Start(unit_of(m.name@), m.node@)]
            } else {
                Seq::empty()
            }
    }
}

/// True when `s` is one of `v`.
pub fn list_contains(v: &Vec<String>, s: &str) -> (r: bool)
    ensures
        r == names(v@).contains(s@),
{
    let mut i: usize = 0;
    while i < v.len()
        invariant
            i <= v@.len(),
            forall|j: int| 0 <= j < i ==> v@[j]@ != s@,
        decreases v@.len() - i,
    {
        if text_eq(v[i].as_str(), s) {
            assert(names(v@)[i as int] == s@);
            return true;
        }
        i = i + 1;
    }
    proof {
        if names(v@).contains(s@) {
            let j = choose|j: int| 0 <= j < names(v@).len() && names(v@)[j] == s@;
            assert(v@[j]@ == s@);
        }
    }
    false
}

pub struct ActionControllerManager {
    /// Nodes managed by the federation runtime.
    pub bluechi_nodes: Vec<String>,
    /// Nodes managed by a node agent.
    pub nodeagent_nodes: Vec<String>,
}

impl ActionControllerManager {
    /// A manager for the default deployment: one federation host.
    pub fn new() -> (r: ActionControllerManager)
        ensures
            names(r.bluechi_nodes@) == seq!["HPC"@],
            r.nodeagent_nodes@.len() == 0,
    {
        let s = Settings::default_settings();
        let r = Self::from_settings(&s);
        proof {
            reveal_strlit("bluechi");
            reveal_strlit("nodeagent");
            assert(all_settings(s) =~= seq![s.host]);
            assert(seq![s.host].drop_last() =~= Seq::<NodeSetting>::empty());
            assert(configured_of_type(Seq::<NodeSetting>::empty(), "bluechi"@) =~= Seq::<Seq<char>>::empty());
            assert(configured_of_type(Seq::<NodeSetting>::empty(), "nodeagent"@) =~= Seq::<Seq<char>>::empty());
            assert("bluechi"@.len() != "nodeagent"@.len());
            assert(configured_of_type(seq![s.host], "bluechi"@) =~= seq![s.host.name@]);
            assert(configured_of_type(seq![s.host], "nodeagent"@) =~= Seq::<Seq<char>>::empty());
        }
        r
    }

    /// A manager for the configured nodes: each goes to the runtime its type names.
    pub fn from_settings(settings: &Settings) -> (r: ActionControllerManager)
        ensures
            names(r.bluechi_nodes@) == configured_of_type(all_settings(*settings), "bluechi"@),
            names(r.nodeagent_nodes@) == configured_of_type(all_settings(*settings), "nodeagent"@),
    {
        let mut all: Vec<NodeSetting> = Vec::new();
        all.push(settings.host.duplicate());
        match &settings.guest {
            Some(g) => {
                let mut i: usize = 0;
                assert(g@.subrange(0, 0) =~= Seq::<NodeSetting>::empty());
                while i < g.len()
                    invariant
                        i <= g@.len(),
                        all@ =~= seq![settings.host] + g@.subrange(0, i as int),
                    decreases g@.len() - i,
                {
                    all.push(g[i].duplicate());
                    i = i + 1;
                }
                assert(g@.subrange(0, g@.len() as int) =~= g@);
            },
            None => {},
        }
        assert(all@ =~= all_settings(*settings));
        let mut bluechi_nodes: Vec<String> = Vec::new();
        let mut nodeagent_nodes: Vec<String> = Vec::new();
        proof {
            reveal_strlit("bluechi");
            reveal_strlit("nodeagent");
            assert("bluechi"@.len() != "nodeagent"@.len());
            assert(all@.subrange(0, 0) =~= Seq::<NodeSetting>::empty());
        }
        let mut i: usize = 0;
        while i < all.len()
            invariant
                i <= all@.len(),
                names(bluechi_nodes@) == configured_of_type(all@.subrange(0, i as int), "bluechi"@),
                names(nodeagent_nodes@) == configured_of_type(all@.subrange(0, i as int), "nodeagent"@),
                "bluechi"@ != "nodeagent"@,
            decreases all@.len() - i,
        {
            let n = &all[i];
            proof {
                assert(all@.subrange(0, i as int + 1).drop_last() =~= all@.subrange(0, i as int));
            }
            if text_eq(n.node_type.as_str(), "bluechi") {
                bluechi_nodes.push(n.name.clone());
                assert(names(bluechi_nodes@) =~= configured_of_type(all@.subrange(0, i as int), "bluechi"@).push(n.name@));
            } else if text_eq(n.node_type.as_str(), "nodeagent") {
                nodeagent_nodes.push(n.name.clone());
                assert(names(nodeagent_nodes@) =~= configured_of_type(all@.subrange(0, i as int), "nodeagent"@).push(n.name@));
            }
            i = i + 1;
        }
        assert(all@.subrange(0, all@.len() as int) =~= all@);
        ActionControllerManager { bluechi_nodes, nodeagent_nodes }
    }

    /// The runtime of a node, if it is configured.
    pub fn node_kind(&self, node: &str) -> (r: Option<NodeKind>)
        ensures
            r == kind_of_node(names(self.bluechi_nodes@), names(self.nodeagent_nodes@), node@),
    {
        if list_contains(&self.bluechi_nodes, node) {
            Some(NodeKind::Bluechi)
        } else if list_contains(&self.nodeagent_nodes, node) {
            Some(NodeKind::NodeAgent)
        } else {
            None
        }
    }
}


/// Directory of the federation's unit overlay.
pub const SYSTEMD_PATH: &'static str = "/etc/containers/systemd/";

/// The commands for one model under a scenario action.
fn commands_for_model(
    kind: Option<NodeKind>,
    action: &str,
    model: &String,
    node: &String,
    target: &String,
    out: &mut Vec<WorkloadCommand>,
)
    ensures
        command_views(final(out)@) == command_views(old(out)@) + model_commands(kind, action@, model@, node@, target@),
{
    let ghost start = out@;
    if kind == Some(NodeKind::Bluechi) {
        let mut unit = model.clone();
        unit.append(".service");
        if text_eq(action, "launch") {
            out.push(WorkloadCommand::UnitStart { unit, node: node.clone() });
        } else if text_eq(action, "terminate") {
            out.push(WorkloadCommand::UnitStop { unit, node: node.clone() });
        } else if text_eq(action, "update") || text_eq(action, "rollback") {
            out.push(WorkloadCommand::UnitStop { unit: unit.clone(), node: node.clone() });
            out.push(WorkloadCommand::RemoveUnitLink { model: model.clone(), node: node.clone() });
            out.push(WorkloadCommand::CreateUnitLink { model: model.clone(), node: node.clone(), target: target.clone() });
            out.push(WorkloadCommand::UnitStart { unit, node: node.clone() });
        }
    }
    assert(command_views(out@) =~= command_views(start) + model_commands(kind, action@, model@, node@, target@));
}

impl ActionControllerManager {
    /// Plans a scenario trigger from what the store held under `Scenario/{name}`
    /// and under `Package/{target}`. Empty names, a missing scenario and a
    /// missing package are errors; otherwise each model on a configured node
    /// gets the commands of the scenario's action, in model order.
    pub fn trigger_manager_action(
        &self,
        scenario_name: &str,
        scenario: Option<&Scenario>,
        package: Option<&Package>,
    ) -> (r: Result<Vec<WorkloadCommand>, String>)
        ensures
            crate::text::is_blank_spec(scenario_name@) ==> r is Err,
            !crate::text::is_blank_spec(scenario_name@) && scenario is None ==> r is Err
                && crate::text::holds_text(r->Err_0@, "not found"@),
            !crate::text::is_blank_spec(scenario_name@) && scenario is Some && package is None ==> r is Err
                && crate::text::holds_text(r->Err_0@, "not found"@),
            !crate::text::is_blank_spec(scenario_name@) && scenario is Some && package is Some ==> r is Ok
                && command_views(r->Ok_0@) == planned_commands(
                    names(self.bluechi_nodes@),
                    names(self.nodeagent_nodes@),
                    scenario->Some_0.action@,
                    scenario->Some_0.target@,
                    package->Some_0.spec.models@,
                ),
    {
        if crate::text::is_blank(scenario_name) {
            return Err(owned("Invalid scenario name: cannot be empty"));
        }
        let sc = match scenario {
            Some(sc) => sc,
            None => {
                let msg = join3("Scenario '", scenario_name, "' not found");
                proof { lemma_quoted_not_found(scenario_name@); }
                return Err(msg);
            },
        };
        let pkg = match package {
            Some(p) => p,
            None => {
                let msg = join3("Package '", sc.target.as_str(), "' not found");
                proof { lemma_quoted_not_found(sc.target@); }
                return Err(msg);
            },
        };
        let action = sc.get_actions();
        let target = sc.get_targets();
        let models = pkg.get_models();
        let mut out: Vec<WorkloadCommand> = Vec::new();
        let mut i: usize = 0;
        while i < models.len()
            invariant
                i <= models@.len(),
                models@ == pkg.spec.models@,
                action@ == sc.action@,
                target@ == sc.target@,
                command_views(out@) == planned_commands(
                    names(self.bluechi_nodes@), names(self.nodeagent_nodes@), action@, target@, models@.subrange(0, i as int)),
            decreases models@.len() - i,
        {
            let m = &models[i];
            let kind = self.node_kind(m.node.as_str());
            proof {
                assert(models@.subrange(0, i as int + 1).drop_last() =~= models@.subrange(0, i as int));
            }
            commands_for_model(kind, action.as_str(), &m.name, &m.node, &target, &mut out);
            i = i + 1;
        }
        assert(models@.subrange(0, models@.len() as int) =~= models@);
        Ok(out)
    }

    /// Plans a reconciliation from `current` to `desired`: nothing when they
    /// agree; an error when either is None, Failed or Unknown, or when the
    /// scenario or its package is missing; otherwise, when running is wanted,
    /// a start of each model on a federation node.
    pub fn reconcile_do(
        &self,
        scenario_name: String,
        current: Status,
        desired: Status,
        scenario: Option<&Scenario>,
        package: Option<&Package>,
    ) -> (r: Result<Vec<WorkloadCommand>, String>)
        ensures
            current == desired ==> r is Ok && r->Ok_0@.len() == 0,
            current != desired && (is_sentinel(current) || is_sentinel(desired)) ==> r is Err,
            current != desired && !is_sentinel(current) && !is_sentinel(desired) && (scenario is None || package is None)
                ==> r is Err,
            current != desired && !is_sentinel(current) && !is_sentinel(desired) && scenario is Some && package is Some ==> r is Ok
                && command_views(r->Ok_0@) == if desired == Status::Running {
                    start_commands(names(self.bluechi_nodes@), names(self.nodeagent_nodes@), package->Some_0.spec.models@)
                } else {
                    Seq::empty()
                },
    {
        if current == desired {
            return Ok(Vec::new());
        }
        if current == Status::NotSet || current == Status::Failed || current == Status::Unknown {
            return Err(owned("Invalid current status. Cannot reconcile from this state"));
        }
        if desired == Status::NotSet || desired == Status::Failed || desired == Status::Unknown {
            return Err(owned("Invalid desired status. Cannot set this as target state"));
        }
        let _ = scenario_name;
        let pkg = match (scenario, package) {
            (Some(_), Some(p)) => p,
            _ => return Err(owned("Scenario or package not found")),
        };
        let mut out: Vec<WorkloadCommand> = Vec::new();
        if desired != Status::Running {
            assert(command_views(out@) =~= Seq::<CommandView>::empty());
            return Ok(out);
        }
        let models = pkg.get_models();
        let mut i: usize = 0;
        while i < models.len()
            invariant
                i <= models@.len(),
                models@ == pkg.spec.models@,
                command_views(out@) == start_commands(
                    names(self.bluechi_nodes@), names(self.nodeagent_nodes@), models@.subrange(0, i as int)),
            decreases models@.len() - i,
        {
            let m = &models[i];
            let kind = self.node_kind(m.node.as_str());
            proof {
                assert(models@.subrange(0, i as int + 1).drop_last() =~= models@.subrange(0, i as int));
            }
            let ghost before = out@;
            if kind == Some(NodeKind::Bluechi) {
                let mut unit = m.name.clone();
                unit.append(".service");
                out.push(WorkloadCommand::UnitStart { unit, node: m.node.clone() });
            }
            assert(command_views(out@) =~= command_views(before) + if kind == Some(NodeKind::Bluechi) {
                seq![CommandView::Start(unit_of(m.name@), m.node@)]
            } else {
                Seq::<CommandView>::empty()
            });
            i = i + 1;
        }
        assert(models@.subrange(0, models@.len() as int) =~= models@);
        Ok(out)
    }

    /// The command that starts a model's unit on a node of the given type:
    /// a unit start for `bluechi`, nothing for `nodeagent`, an error otherwise.
    pub fn start_workload(&self, model_name: &str, node_name: &str, node_type: &str) -> (r: Result<Option<WorkloadCommand>, String>)
        ensures
            node_type@ == "bluechi"@ ==> r is Ok && r->Ok_0 is Some
                && command_view(r->Ok_0->Some_0) == CommandView::Start(model_name@, node_name@),
            node_type@ != "bluechi"@ && node_type@ == "nodeagent"@ ==> r == Ok::<Option<WorkloadCommand>, String>(None),
            node_type@ != "bluechi"@ && node_type@ != "nodeagent"@ ==> r is Err,
    {
        if text_eq(node_type, "bluechi") {
            Ok(Some(WorkloadCommand::UnitStart { unit: owned(model_name), node: owned(node_name) }))
        } else if text_eq(node_type, "nodeagent") {
            Ok(None)
        } else {
            Err(unsupported_node_type(model_name, node_name, node_type))
        }
    }

    /// The command that stops a model's unit on a node of the given type:
    /// a unit stop for `bluechi`, nothing for `nodeagent`, an error otherwise.
    pub fn stop_workload(&self, model_name: &str, node_name: &str, node_type: &str) -> (r: Result<Option<WorkloadCommand>, String>)
        ensures
            node_type@ == "bluechi"@ ==> r is Ok && r->Ok_0 is Some
                && command_view(r->Ok_0->Some_0) == CommandView::Stop(model_name@, node_name@),
            node_type@ != "bluechi"@ && node_type@ == "nodeagent"@ ==> r == Ok::<Option<WorkloadCommand>, String>(None),
            node_type@ != "bluechi"@ && node_type@ != "nodeagent"@ ==> r is Err,
    {
        if text_eq(node_type, "bluechi") {
            Ok(Some(WorkloadCommand::UnitStop { unit: owned(model_name), node: owned(node_name) }))
        } else if text_eq(node_type, "nodeagent") {
            Ok(None)
        } else {
            Err(unsupported_node_type(model_name, node_name, node_type))
        }
    }

    /// Creating a workload is not supported yet; it succeeds doing nothing.
    pub fn create_workload(&self, scenario_name: String) -> (r: Result<(), String>)
        ensures
            r is Ok,
    {
        Ok(())
    }

    /// Deleting a workload is not supported yet; it succeeds doing nothing.
    pub fn delete_workload(&self, scenario_name: String) -> (r: Result<(), String>)
        ensures
            r is Ok,
    {
        Ok(())
    }

    /// Restarting a workload is not supported yet; it succeeds doing nothing.
    pub fn restart_workload(&self, scenario_name: String) -> (r: Result<(), String>)
        ensures
            r is Ok,
    {
        Ok(())
    }

    /// Pausing a workload is not supported yet; it succeeds doing nothing.
    pub fn pause_workload(&self, scenario_name: String) -> (r: Result<(), String>)
        ensures
            r is Ok,
    {
        Ok(())
    }
}

fn unsupported_node_type(model_name: &str, node_name: &str, node_type: &str) -> (r: String) {
    let mut m = join3("Unsupported node type '", node_type, "' for workload '");
    m.append(model_name);
    m.append("' on node '");
    m.append(node_name);
    m.append("'");
    m
}

/// The link that mounts a model's unit: `/etc/containers/systemd/{model}.kube`.
pub fn unit_link_path(model_name: &str) -> (r: String)
    ensures
        r@ == "/etc/containers/systemd/"@ + model_name@ + ".kube"@,
{
    join3(SYSTEMD_PATH, model_name, ".kube")
}

/// The unit file a link points at: `{yaml_storage}/{target}.kube`.
pub fn unit_file_path(yaml_storage: &str, target_name: &str) -> (r: String)
    ensures
        r@ == yaml_storage@ + "/"@ + target_name@ + ".kube"@,
{
    let mut r = join3(yaml_storage, "/", target_name);
    r.append(".kube");
    r
}

/// The store key of a scenario: `Scenario/{name}`.
pub fn scenario_key(name: &str) -> (r: String)
    ensures
        r@ == "Scenario/"@ + name@,
{
    let mut r = owned("Scenario/");
    r.append(name);
    r
}

/// The store key of a package: `Package/{name}`.
pub fn package_key(name: &str) -> (r: String)
    ensures
        r@ == "Package/"@ + name@,
{
    let mut r = owned("Package/");
    r.append(name);
    r
}

/// `'{name}' not found` holds the words `not found`.
proof fn lemma_quoted_not_found(name: Seq<char>)
    ensures
        forall|head: Seq<char>| #[trigger] crate::text::holds_text(head + name + "' not found"@, "not found"@),
{
    reveal_strlit("' not found");
    reveal_strlit("not found");
    assert forall|head: Seq<char>| #[trigger] crate::text::holds_text(head + name + "' not found"@, "not found"@) by {
        let s = head + name + "' not found"@;
        let i: int = head.len() + name.len() + 2int;
        assert(s.subrange(i, i + 9int) =~= "not found"@);
    }
}

} // verus!
