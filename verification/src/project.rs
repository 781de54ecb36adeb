//! Projects: a name, a description and the targets (name, chip, binary) that
//! the project flashes and debugs.

use vstd::prelude::*;

verus! {

/// Name and description of a project.
#[derive(Debug)]
pub struct ProjectInfo {
    /// Name of the project.
    pub name: String,
    /// Short description of the project.
    pub description: String,
}

/// A target of a project.
#[derive(Debug)]
pub struct TargetInfo {
    /// Name of the target.
    pub name: String,
    /// Chip of the target.
    pub target: String,
    /// Binary flashed to the target.
    pub binary: String,
}

/// A project as the database stores it.
#[derive(Debug)]
pub struct ProjectSerial {
    /// Name and description.
    pub info: ProjectInfo,
    /// Targets, in order.
    pub targets: Vec<TargetInfo>,
}

/// A target seen as values: name, chip, binary.
pub open spec fn target_view(t: TargetInfo) -> (Seq<char>, Seq<char>, Seq<char>) {
    (t.name@, t.target@, t.binary@)
}

/// A project seen as values: name, description and targets.
pub open spec fn project_view(p: ProjectSerial) -> (Seq<char>, Seq<char>, Seq<(Seq<char>, Seq<char>, Seq<char>)>) {
    (p.info.name@, p.info.description@, p.targets@.map_values(|t: TargetInfo| target_view(t)))
}

impl ProjectSerial {
    /// Creates an empty project: no name, no description, no target.
    pub fn new() -> (p: Self)
        ensures
            project_view(p) == (Seq::<char>::empty(), Seq::<char>::empty(), Seq::<(Seq<char>, Seq<char>, Seq<char>)>::empty()),
    {
        let p = ProjectSerial {
            info: ProjectInfo { name: String::new(), description: String::new() },
            targets: Vec::new(),
        };
        assert(p.targets@.map_values(|t: TargetInfo| target_view(t)) =~= Seq::empty());
        p
    }

    /// The name of the project.
    pub fn name(&self) -> (n: &String)
        ensures
            n@ == self.info.name@,
    {
        &self.info.name
    }

    /// The description of the project.
    pub fn description(&self) -> (d: &String)
        ensures
            d@ == self.info.description@,
    {
        &self.info.description
    }
}

} // verus!
