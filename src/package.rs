//! Scenario and package artifacts as the controller reads them.
use vstd::prelude::*;

verus! {

/// A declarative rule: on trigger, apply `action` to the package `target`.
#[derive(Debug, Clone)]
pub struct Scenario {
    pub name: String,
    pub action: String,
    pub target: String,
    pub condition: Option<String>,
}

impl Scenario {
    /// The action to apply.
    pub fn get_actions(&self) -> (r: String)
        ensures
            r@ == self.action@,
    {
        self.action.clone()
    }

    /// The target package's name.
    pub fn get_targets(&self) -> (r: String)
        ensures
            r@ == self.target@,
    {
        self.target.clone()
    }
}

/// Optional volume and network a model uses.
#[derive(Debug, Clone)]
pub struct Resource {
    pub volume: Option<String>,
    pub network: Option<String>,
}

impl Resource {
    /// The volume's name, if any.
    pub fn get_volume(&self) -> (r: Option<String>)
        ensures
            r == self.volume,
    {
        match &self.volume {
            Some(v) => Some(v.clone()),
            None => None,
        }
    }

    /// The network's name, if any.
    pub fn get_network(&self) -> (r: Option<String>)
        ensures
            r == self.network,
    {
        match &self.network {
            Some(n) => Some(n.clone()),
            None => None,
        }
    }
}

/// A model of a package, placed on one node.
#[derive(Debug, Clone)]
pub struct Model {
    pub name: String,
    pub node: String,
    pub resources: Resource,
}

impl Model {
    /// The model's name.
    pub fn get_name(&self) -> (r: String)
        ensures
            r == self.name,
    {
        self.name.clone()
    }

    /// The node the model runs on.
    pub fn get_node(&self) -> (r: String)
        ensures
            r == self.node,
    {
        self.node.clone()
    }

    /// The model's volume and network.
    pub fn get_resources(&self) -> (r: Resource)
        ensures
            r.volume == self.resources.volume,
            r.network == self.resources.network,
    {
        Resource { volume: self.resources.get_volume(), network: self.resources.get_network() }
    }
}

/// State of one model as a package status reports it.
#[derive(Debug, Clone, Copy, PartialEq, Eq, Structural)]
pub enum ModelStatusState {
    NotSet,
    Running,
    Error,
}

/// Status line of one model.
#[derive(Debug, Clone)]
pub struct ModelStatus {
    pub name: String,
    pub state: ModelStatusState,
}

/// Reported status of a package.
#[derive(Debug, Clone)]
pub struct PackageStatus {
    pub model: Vec<ModelStatus>,
}

/// Deployment pattern of a package.
#[derive(Debug, Clone)]
pub struct Pattern {
    pub pattern_type: String,
}

/// What a package is made of.
#[derive(Debug, Clone)]
pub struct PackageSpec {
    pub pattern: Vec<Pattern>,
    pub models: Vec<Model>,
}

/// A deployable bundle of models.
#[derive(Debug, Clone)]
pub struct Package {
    pub api_version: String,
    pub kind: String,
    pub name: String,
    pub spec: PackageSpec,
    pub status: Option<PackageStatus>,
}

impl Package {
    /// The models, in order.
    pub fn get_models(&self) -> (r: &Vec<Model>)
        ensures
            r@ == self.spec.models@,
    {
        &self.spec.models
    }

    /// The models' names, in order.
    pub fn get_model_name(&self) -> (r: Vec<String>)
        ensures
            r@.len() == self.spec.models@.len(),
            forall|i: int| 0 <= i < r@.len() ==> #[trigger] r@[i] == self.spec.models@[i].name,
    {
        let mut r: Vec<String> = Vec::new();
        let mut i: usize = 0;
        while i < self.spec.models.len()
            invariant
                i <= self.spec.models@.len(),
                r@.len() == i,
                forall|j: int| 0 <= j < i ==> #[trigger] r@[j] == self.spec.models@[j].name,
            decreases self.spec.models@.len() - i,
        {
            r.push(self.spec.models[i].name.clone());
            i = i + 1;
        }
        r
    }

    /// The package's name.
    pub fn get_name(&self) -> (r: String)
        ensures
            r == self.name,
    {
        self.name.clone()
    }
}

} // verus!
