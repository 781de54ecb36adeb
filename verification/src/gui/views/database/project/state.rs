//! State of the project database view: the search input, and the project
//! being created or edited.

use vstd::prelude::*;

use crate::project::{project_view, target_view, ProjectInfo, ProjectSerial, TargetInfo};

verus! {

/// State of the search part of the view.
pub struct State {
    /// Current search input.
    pub currentsearch: String,
}

impl State {
    /// Builds a new state, with an empty search input.
    pub fn new() -> (s: Self)
        ensures
            s.currentsearch@ == Seq::<char>::empty(),
    {
        State { currentsearch: String::new() }
    }
}

/// A target being edited: name, chip, binary.
pub type TargetEntry = (String, String, String);

/// A target being edited, seen as values.
pub open spec fn entry_view(t: TargetEntry) -> (Seq<char>, Seq<char>, Seq<char>) {
    (t.0@, t.1@, t.2@)
}

/// The targets being edited, seen as values.
pub open spec fn entries_view(ts: Seq<TargetEntry>) -> Seq<(Seq<char>, Seq<char>, Seq<char>)> {
    ts.map_values(|t: TargetEntry| entry_view(t))
}

/// The project being created or edited.
pub struct ProjectState {
    /// Name of the project.
    pub name: String,
    /// Description of the project.
    pub description: String,
    /// Targets of the project.
    pub targets: Vec<TargetEntry>,
}

/// A project being edited, seen as values: name, description and targets.
pub open spec fn state_view(s: ProjectState) -> (Seq<char>, Seq<char>, Seq<(Seq<char>, Seq<char>, Seq<char>)>) {
    (s.name@, s.description@, entries_view(s.targets@))
}

/// A target carries the minimum information: a name and a chip.
pub open spec fn complete(t: (Seq<char>, Seq<char>, Seq<char>)) -> bool {
    t.0.len() > 0 && t.1.len() > 0
}

/// The project that an edited project gives: none without a name or
/// without targets, else the project with the complete targets only.
pub open spec fn rebuilt(
    s: (Seq<char>, Seq<char>, Seq<(Seq<char>, Seq<char>, Seq<char>)>),
) -> Option<(Seq<char>, Seq<char>, Seq<(Seq<char>, Seq<char>, Seq<char>)>)> {
    if s.0.len() == 0 || s.2.len() == 0 {
        None
    } else {
        Some((s.0, s.1, s.2.filter(|t: (Seq<char>, Seq<char>, Seq<char>)| complete(t))))
    }
}

impl ProjectState {
    /// Creates an empty project state.
    pub fn new() -> (s: Self)
        ensures
            state_view(s) == (Seq::<char>::empty(), Seq::<char>::empty(), Seq::<(Seq<char>, Seq<char>, Seq<char>)>::empty()),
    {
        let s = ProjectState { name: String::new(), description: String::new(), targets: Vec::new() };
        assert(entries_view(s.targets@) =~= Seq::empty());
        s
    }

    /// The state of an existing project, for editing.
    pub fn from(project: &ProjectSerial) -> (s: Self)
        ensures
            state_view(s) == project_view(*project),
    {
        let mut targets: Vec<TargetEntry> = Vec::new();
        let mut i: usize = 0;
        while i < project.targets.len()
            invariant
                i <= project.targets@.len(),
                entries_view(targets@) == project.targets@.take(i as int).map_values(
                    |t: TargetInfo| target_view(t),
                ),
            decreases project.targets@.len() - i,
        {
            let t = &project.targets[i];
            let e = (t.name.clone(), t.target.clone(), t.binary.clone());
            proof {
                crate::seqs::lemma_take_push(project.targets@, i as int);
                crate::seqs::lemma_map_push(project.targets@.take(i as int), *t, |t: TargetInfo| target_view(t));
                crate::seqs::lemma_map_push(targets@, e, |t: TargetEntry| entry_view(t));
            }
            targets.push(e);
            i = i + 1;
        }
        assert(project.targets@.take(project.targets@.len() as int) =~= project.targets@);
        ProjectState {
            name: project.info.name.clone(),
            description: project.info.description.clone(),
            targets,
        }
    }

    /// Appends an empty target.
    pub fn newtarget(&mut self)
        ensures
            state_view(*final(self)) == (
                old(self).name@,
                old(self).description@,
                entries_view(old(self).targets@).push((Seq::<char>::empty(), Seq::<char>::empty(), Seq::<char>::empty())),
            ),
    {
        let e = (String::new(), String::new(), String::new());
        proof {
            crate::seqs::lemma_map_push(self.targets@, e, |t: TargetEntry| entry_view(t));
        }
        self.targets.push(e);
    }

    /// Removes the target at position `i`.
    pub fn remove(&mut self, i: usize)
        requires
            i < old(self).targets@.len(),
        ensures
            state_view(*final(self)) == (
                old(self).name@,
                old(self).description@,
                entries_view(old(self).targets@).remove(i as int),
            ),
    {
        self.targets.remove(i);
        assert(entries_view(self.targets@) =~= entries_view(old(self).targets@).remove(i as int));
    }

    /// Sets the name (`part` 0), the chip (`part` 1) or the binary (`part`
    /// 2) of the target at position `i`.
    pub fn set_target(&mut self, i: usize, part: u8, value: String)
        requires
            i < old(self).targets@.len(),
            part < 3,
        ensures
            final(self).name == old(self).name,
            final(self).description == old(self).description,
            entries_view(final(self).targets@) == entries_view(old(self).targets@).update(
                i as int,
                if part == 0 {
                    (value@, old(self).targets@[i as int].1@, old(self).targets@[i as int].2@)
                } else if part == 1 {
                    (old(self).targets@[i as int].0@, value@, old(self).targets@[i as int].2@)
                } else {
                    (old(self).targets@[i as int].0@, old(self).targets@[i as int].1@, value@)
                },
            ),
    {
        let (n, c, b) = self.targets.remove(i);
        let e = if part == 0 {
            (value, c, b)
        } else if part == 1 {
            (n, value, b)
        } else {
            (n, c, value)
        };
        self.targets.insert(i, e);
        assert(entries_view(self.targets@) =~= entries_view(old(self).targets@).update(i as int, entry_view(e)));
    }

    /// Rebuilds the project from the state: none without a name or without
    /// targets; else the project, keeping only the targets that have a name
    /// and a chip.
    pub fn rebuild(&self) -> (p: Option<ProjectSerial>)
        ensures
            match p {
                Some(p) => rebuilt(state_view(*self)) == Some(project_view(p)),
                None => rebuilt(state_view(*self)) is None,
            },
    {
        if self.name.as_str().unicode_len() == 0 {
            return None;
        }
        if self.targets.len() == 0 {
            return None;
        }
        let ghost keep = |t: (Seq<char>, Seq<char>, Seq<char>)| complete(t);
        let ghost all = entries_view(self.targets@);
        let mut targets: Vec<TargetInfo> = Vec::new();
        let mut i: usize = 0;
        assert(all.take(0).filter(keep) =~= Seq::empty()) by {
            reveal_with_fuel(Seq::filter, 1);
        }
        assert(targets@.map_values(|t: TargetInfo| target_view(t)) =~= Seq::empty());
        while i < self.targets.len()
            invariant
                i <= self.targets@.len(),
                all == entries_view(self.targets@),
                keep == (|t: (Seq<char>, Seq<char>, Seq<char>)| complete(t)),
                targets@.map_values(|t: TargetInfo| target_view(t)) == all.take(i as int).filter(keep),
            decreases self.targets@.len() - i,
        {
            let t = &self.targets[i];
            proof {
                crate::seqs::lemma_filter_take_push(all, keep, i as int);
            }
            if !(t.0.as_str().unicode_len() == 0 || t.1.as_str().unicode_len() == 0) {
                let info = TargetInfo { name: t.0.clone(), target: t.1.clone(), binary: t.2.clone() };
                proof {
                    crate::seqs::lemma_map_push(targets@, info, |t: TargetInfo| target_view(t));
                }
                targets.push(info);
            }
            i = i + 1;
        }
        assert(all.take(all.len() as int) =~= all);
        Some(ProjectSerial {
            info: ProjectInfo { name: self.name.clone(), description: self.description.clone() },
            targets,
        })
    }
}

/// Editing a project and rebuilding it without a change gives the project
/// back, when it has a name and targets that all have a name and a chip.
pub proof fn law_rebuild_after_edit(p: ProjectSerial)
    requires
        p.info.name@.len() > 0,
        p.targets@.len() > 0,
        forall|i: int| 0 <= i < p.targets@.len() ==> complete(target_view(#[trigger] p.targets@[i])),
    ensures
        rebuilt(project_view(p)) == Some(project_view(p)),
{
    let ts = project_view(p).2;
    let keep = |t: (Seq<char>, Seq<char>, Seq<char>)| complete(t);
    assert forall|i: int| 0 <= i < ts.len() implies keep(#[trigger] ts[i]) by {
        assert(ts[i] == target_view(p.targets@[i]));
    }
    crate::seqs::lemma_filter_all(ts, keep);
}

} // verus!
