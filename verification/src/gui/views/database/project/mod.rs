//! Project database view: search the projects, create, edit and delete them.
//! The shared database stays with the caller, which reads it where an event
//! needs it and performs the effect that an update returns.

pub mod state;

use vstd::prelude::*;

use crate::project::{project_view, ProjectSerial};
use crate::text::{byte_len, text_len};

use self::state::{entries_view, rebuilt, state_view, ProjectState, State};

verus! {

/// What the view is doing.
#[derive(Clone, Copy, Debug, PartialEq, Eq, Structural)]
pub enum Action {
    /// Editing an existing project.
    Editing,
    /// Creating a new project.
    New,
    /// Searching the projects.
    Searching,
}

/// A message of the project database view.
#[derive(Clone, Debug)]
pub enum ProjectViewMessage {
    /// The search input changed.
    Search(String),
    /// Start creating a new project.
    NewEntry,
    /// Cancel the creation or edition of a project.
    Cancel,
    /// Create the project being edited.
    Create,
    /// Add a target to the project being edited.
    AddTarget,
    /// Remove the target at the given position.
    RemoveTarget(usize),
    /// The name of the project changed.
    ChangeName(String),
    /// The description of the project changed.
    Description(String),
    /// The name of the target at the given position changed.
    TargetName(usize, String),
    /// The chip of the target at the given position changed.
    TargetChip(usize, String),
    /// The binary of the target at the given position changed.
    TargetBinary(usize, String),
    /// The database changed: list its projects again.
    UpdateDatabase,
    /// Reading the database failed.
    DatabaseUpdateFailed,
    /// Creating a project failed.
    CreationFailed,
    /// Deleting a project failed.
    DeletionFailed,
    /// Edit the project at the given position.
    EditProject(usize),
    /// Update the project being edited.
    Update,
    /// Delete the project with the given name.
    DeleteProject(String),
    /// The references to the database arrived.
    DatabaseReference,
}

/// What the caller read from the shared database for a message.
pub enum DbData {
    /// Nothing was read.
    Nothing,
    /// The positions of the projects indexed under the search input, if any.
    Matches(Option<Vec<usize>>),
    /// The name and description of each project, in order.
    Listing(Vec<(String, String)>),
    /// The project at the position to edit.
    Project(ProjectSerial),
}

/// What the caller performs after an update.
pub enum ProjectEffect {
    /// Nothing.
    Nothing,
    /// Fetch the references to the database.
    FetchDatabase,
    /// Send the project to the database for creation.
    CreateProject(ProjectSerial),
    /// Ask the database to delete the project with this name.
    DeleteProject(String),
}

/// The database's reply to a command, by kind.
#[derive(Clone, Copy, Debug, PartialEq, Eq, Structural)]
pub enum Reply {
    /// The command was carried out.
    Done,
    /// The project named does not exist.
    DoesNotExist,
    /// The references to the projects and their search index.
    SearchEngine,
    /// Any other reply.
    Other,
}

/// The outcome of a command sent to the database, as a message.
#[derive(Clone, Copy, Debug, PartialEq, Eq, Structural)]
pub enum Outcome {
    /// The database changed: read it again.
    UpdateProjectDatabase,
    /// List the projects again.
    UpdateDatabase,
    /// Reading the database failed.
    DatabaseUpdateFailed,
    /// Creating a project failed.
    CreationFailed,
    /// Deleting a project failed.
    DeletionFailed,
    /// The references to the database arrived.
    DatabaseReference,
}

/// The outcome of a creation: done if the command was sent and the database
/// answered `Done`, failed otherwise.
pub fn createproject(sent: bool, reply: Option<Reply>) -> (o: Outcome)
    ensures
        o == if sent && reply == Some(Reply::Done) {
            Outcome::UpdateProjectDatabase
        } else {
            Outcome::CreationFailed
        },
{
    if !sent {
        return Outcome::CreationFailed;
    }
    match reply {
        Some(Reply::Done) => Outcome::UpdateProjectDatabase,
        _ => Outcome::CreationFailed,
    }
}

/// The outcome of a deletion: done if the command was sent and the database
/// answered `Done`, a new listing if the project did not exist, failed
/// otherwise.
pub fn deleteproject(sent: bool, reply: Option<Reply>) -> (o: Outcome)
    ensures
        o == if !sent {
            Outcome::DeletionFailed
        } else if reply == Some(Reply::Done) {
            Outcome::UpdateProjectDatabase
        } else if reply == Some(Reply::DoesNotExist) {
            Outcome::UpdateDatabase
        } else {
            Outcome::DeletionFailed
        },
{
    if !sent {
        return Outcome::DeletionFailed;
    }
    match reply {
        Some(Reply::Done) => Outcome::UpdateProjectDatabase,
        Some(Reply::DoesNotExist) => Outcome::UpdateDatabase,
        _ => Outcome::DeletionFailed,
    }
}

/// The outcome of a request for the database: its references if the command
/// was sent and the database answered with them, failed otherwise.
pub fn getdb(sent: bool, reply: Option<Reply>) -> (o: Outcome)
    ensures
        o == if sent && reply == Some(Reply::SearchEngine) {
            Outcome::DatabaseReference
        } else {
            Outcome::DatabaseUpdateFailed
        },
{
    if !sent {
        return Outcome::DatabaseUpdateFailed;
    }
    match reply {
        Some(Reply::SearchEngine) => Outcome::DatabaseReference,
        _ => Outcome::DatabaseUpdateFailed,
    }
}

/// A search input of two bytes or more is looked up in the index.
pub open spec fn searched(s: Seq<char>) -> bool {
    byte_len(s) >= 2
}

/// Whether a listed project shows: with no matches, when there is no active
/// search; else when it is among the matches.
pub open spec fn project_shown(idx: usize, matched: Seq<usize>, searching: bool) -> bool {
    if matched.len() == 0 {
        !searching
    } else {
        matched.contains(idx)
    }
}

/// The listing of the projects, seen as values.
pub open spec fn listing_view(l: Seq<(usize, String, String)>) -> Seq<(usize, Seq<char>, Seq<char>)> {
    l.map_values(|e: (usize, String, String)| (e.0, e.1@, e.2@))
}

/// The data that a message needs has been read.
pub open spec fn data_fits(msg: ProjectViewMessage, data: DbData) -> bool {
    match msg {
        ProjectViewMessage::Search(s) => searched(s@) ==> data is Matches,
        ProjectViewMessage::UpdateDatabase => data is Listing,
        ProjectViewMessage::EditProject(_) => data is Project,
        _ => true,
    }
}

/// The state of the project database view.
pub struct ProjectDatabaseView {
    /// State of the search part.
    pub state: State,
    /// Positions of the projects that match the search input.
    pub matched: Vec<usize>,
    /// The project being created or edited.
    pub project: ProjectState,
    /// Current action.
    pub action: Action,
    /// The projects listed: position, name and description.
    pub searchlist: Vec<(usize, String, String)>,
    /// Whether there is an active search.
    pub searching: bool,
    /// Whether the view has an interface to the database.
    pub connected: bool,
}

impl ProjectDatabaseView {
    /// The values of a new view: searching, with nothing listed and no
    /// interface.
    pub open spec fn new_spec() -> Model {
        (
            Seq::empty(),
            Seq::empty(),
            (Seq::empty(), Seq::empty(), Seq::empty()),
            Action::Searching,
            Seq::empty(),
            false,
            false,
        )
    }

    /// Creates the view: searching, with nothing listed and no interface.
    pub fn new() -> (v: Self)
        ensures
            model(v) == Self::new_spec(),
    {
        let v = ProjectDatabaseView {
            state: State::new(),
            matched: Vec::new(),
            project: ProjectState::new(),
            action: Action::Searching,
            searchlist: Vec::new(),
            searching: false,
            connected: false,
        };
        assert(listing_view(v.searchlist@) =~= Seq::empty());
        v
    }

    /// Takes the interface to the database; the references to the database
    /// are to be fetched.
    pub fn interface(&mut self) -> (e: ProjectEffect)
        ensures
            final(self).connected,
            e is FetchDatabase,
            final(self).state == old(self).state,
            final(self).matched == old(self).matched,
            final(self).project == old(self).project,
            final(self).action == old(self).action,
            final(self).searchlist == old(self).searchlist,
            final(self).searching == old(self).searching,
    {
        self.connected = true;
        ProjectEffect::FetchDatabase
    }

    /// Returns true if a search input is looked up in the index.
    pub fn search_needed(s: &String) -> (b: bool)
        ensures
            b == searched(s@),
    {
        text_len(s.as_str()) >= 2
    }

    /// Positions in the listing of the projects that show.
    pub fn shown(&self) -> (r: Vec<usize>)
        ensures
            r@ == shown_positions(*self),
    {
        let ghost all = Seq::new(self.searchlist@.len(), |p: int| p as usize);
        let ghost keep = |p: usize| project_shown(self.searchlist@[p as int].0, self.matched@, self.searching);
        let mut r: Vec<usize> = Vec::new();
        let mut p: usize = 0;
        assert(all.take(0).filter(keep) =~= Seq::empty()) by {
            reveal_with_fuel(Seq::filter, 1);
        }
        while p < self.searchlist.len()
            invariant
                p <= self.searchlist@.len(),
                all == Seq::new(self.searchlist@.len(), |p: int| p as usize),
                keep == (|p: usize| project_shown(self.searchlist@[p as int].0, self.matched@, self.searching)),
                r@ == all.take(p as int).filter(keep),
            decreases self.searchlist@.len() - p,
        {
            proof {
                crate::seqs::lemma_filter_take_push(all, keep, p as int);
            }
            let idx = self.searchlist[p].0;
            let show = if self.matched.len() == 0 {
                !self.searching
            } else {
                let mut found = false;
                let mut k: usize = 0;
                while k < self.matched.len()
                    invariant
                        k <= self.matched@.len(),
                        found == self.matched@.take(k as int).contains(idx),
                    decreases self.matched@.len() - k,
                {
                    proof {
                        let x = self.matched@[k as int];
                        assert(self.matched@.take(k + 1) =~= self.matched@.take(k as int) + seq![x]);
                        crate::seqs::lemma_add_contains(self.matched@.take(k as int), seq![x], idx);
                        if x == idx {
                            assert(seq![x][0] == idx);
                        }
                    }
                    if self.matched[k] == idx {
                        found = true;
                    }
                    k = k + 1;
                }
                assert(self.matched@.take(self.matched@.len() as int) =~= self.matched@);
                found
            };
            if show {
                r.push(p);
            }
            p = p + 1;
        }
        assert(all.take(all.len() as int) =~= all);
        r
    }
}

/// The project database view seen as values: search input, matches,
/// project being edited, action, listing, active search, interface.
pub type Model = (
    Seq<char>,
    Seq<usize>,
    (Seq<char>, Seq<char>, Seq<(Seq<char>, Seq<char>, Seq<char>)>),
    Action,
    Seq<(usize, Seq<char>, Seq<char>)>,
    bool,
    bool,
);

/// The values of a project database view.
pub open spec fn model(v: ProjectDatabaseView) -> Model {
    (
        v.state.currentsearch@,
        v.matched@,
        state_view(v.project),
        v.action,
        listing_view(v.searchlist@),
        v.searching,
        v.connected,
    )
}

/// A target with no name, chip or binary.
pub open spec fn blank() -> (Seq<char>, Seq<char>, Seq<char>) {
    (Seq::<char>::empty(), Seq::<char>::empty(), Seq::<char>::empty())
}

/// The listing of projects given by their names and descriptions.
pub open spec fn listed(l: Seq<(String, String)>) -> Seq<(usize, Seq<char>, Seq<char>)> {
    Seq::new(l.len(), |i: int| (i as usize, l[i].0@, l[i].1@))
}

/// The messages that the view takes in its current state: a target named by
/// position exists.
pub open spec fn accepts(m: Model, msg: ProjectViewMessage) -> bool {
    match msg {
        ProjectViewMessage::RemoveTarget(i) => i < m.2.2.len(),
        ProjectViewMessage::TargetName(i, _) => i < m.2.2.len(),
        ProjectViewMessage::TargetChip(i, _) => i < m.2.2.len(),
        ProjectViewMessage::TargetBinary(i, _) => i < m.2.2.len(),
        _ => true,
    }
}

/// The view after a message, with the data read for it.
pub open spec fn next_model(m: Model, msg: ProjectViewMessage, data: DbData) -> Model {
    let (search, matched, project, action, list, searching, connected) = m;
    let (name, desc, targets) = project;
    match msg {
        ProjectViewMessage::Search(s) => if searched(s@) {
            (
                s@,
                match data {
                    DbData::Matches(Some(v)) => v@,
                    _ => Seq::empty(),
                },
                project,
                Action::Searching,
                list,
                true,
                connected,
            )
        } else {
            (s@, Seq::empty(), project, Action::Searching, list, false, connected)
        },
        ProjectViewMessage::NewEntry => (
            Seq::empty(),
            matched,
            (Seq::empty(), Seq::empty(), Seq::empty()),
            Action::New,
            list,
            searching,
            connected,
        ),
        ProjectViewMessage::Cancel => (search, matched, project, Action::Searching, list, searching, connected),
        ProjectViewMessage::Create => if rebuilt(project) is Some && connected {
            (search, matched, project, Action::Editing, list, searching, connected)
        } else {
            m
        },
        ProjectViewMessage::AddTarget => (
            search,
            matched,
            (name, desc, targets.push(blank())),
            action,
            list,
            searching,
            connected,
        ),
        ProjectViewMessage::RemoveTarget(i) => (
            search,
            matched,
            (name, desc, targets.remove(i as int)),
            action,
            list,
            searching,
            connected,
        ),
        ProjectViewMessage::ChangeName(s) => (search, matched, (s@, desc, targets), action, list, searching, connected),
        ProjectViewMessage::Description(s) => (search, matched, (name, s@, targets), action, list, searching, connected),
        ProjectViewMessage::TargetName(i, s) => (
            search,
            matched,
            (name, desc, targets.update(i as int, (s@, targets[i as int].1, targets[i as int].2))),
            action,
            list,
            searching,
            connected,
        ),
        ProjectViewMessage::TargetChip(i, s) => (
            search,
            matched,
            (name, desc, targets.update(i as int, (targets[i as int].0, s@, targets[i as int].2))),
            action,
            list,
            searching,
            connected,
        ),
        ProjectViewMessage::TargetBinary(i, s) => (
            search,
            matched,
            (name, desc, targets.update(i as int, (targets[i as int].0, targets[i as int].1, s@))),
            action,
            list,
            searching,
            connected,
        ),
        ProjectViewMessage::UpdateDatabase => (
            search,
            matched,
            project,
            action,
            match data {
                DbData::Listing(l) => listed(l@),
                _ => list,
            },
            searching,
            connected,
        ),
        ProjectViewMessage::CreationFailed => (
            search,
            matched,
            project,
            if action == Action::Editing {
                Action::New
            } else {
                action
            },
            list,
            searching,
            connected,
        ),
        ProjectViewMessage::EditProject(_) => (
            search,
            matched,
            match data {
                DbData::Project(p) => project_view(p),
                _ => project,
            },
            Action::Editing,
            list,
            searching,
            connected,
        ),
        _ => m,
    }
}

/// The effect of a message: a complete project is sent for creation and a
/// deletion is asked, when the view has an interface to the database.
pub open spec fn effect_fits(m: Model, msg: ProjectViewMessage, e: ProjectEffect) -> bool {
    match msg {
        ProjectViewMessage::Create => if rebuilt(m.2) is Some && m.6 {
            e matches ProjectEffect::CreateProject(p) && rebuilt(m.2) == Some(project_view(p))
        } else {
            e is Nothing
        },
        ProjectViewMessage::DeleteProject(name) => if m.6 {
            e matches ProjectEffect::DeleteProject(n) && n@ == name@
        } else {
            e is Nothing
        },
        _ => e is Nothing,
    }
}

impl ProjectDatabaseView {
    /// Processes a message, with the data the caller read from the database
    /// for it, and returns what the caller performs next.
    pub fn update(&mut self, msg: ProjectViewMessage, data: DbData) -> (e: ProjectEffect)
        requires
            data_fits(msg, data),
            accepts(model(*old(self)), msg),
        ensures
            model(*final(self)) == next_model(model(*old(self)), msg, data),
            effect_fits(model(*old(self)), msg, e),
    {
        let ghost pre = model(*self);
        match msg {
            ProjectViewMessage::Search(s) => {
                if Self::search_needed(&s) {
                    self.matched = match data {
                        DbData::Matches(Some(v)) => v,
                        _ => Vec::new(),
                    };
                    self.searching = true;
                } else {
                    self.matched = Vec::new();
                    self.searching = false;
                }
                self.state.currentsearch = s;
                self.action = Action::Searching;
                ProjectEffect::Nothing
            },
            ProjectViewMessage::NewEntry => {
                self.state.currentsearch = String::new();
                self.action = Action::New;
                self.project = ProjectState::from(&ProjectSerial::new());
                ProjectEffect::Nothing
            },
            ProjectViewMessage::Cancel => {
                self.action = Action::Searching;
                ProjectEffect::Nothing
            },
            ProjectViewMessage::Create => {
                match self.project.rebuild() {
                    None => ProjectEffect::Nothing,
                    Some(p) => {
                        if !self.connected {
                            return ProjectEffect::Nothing;
                        }
                        self.action = Action::Editing;
                        ProjectEffect::CreateProject(p)
                    },
                }
            },
            ProjectViewMessage::AddTarget => {
                self.project.newtarget();
                ProjectEffect::Nothing
            },
            ProjectViewMessage::RemoveTarget(i) => {
                self.project.remove(i);
                ProjectEffect::Nothing
            },
            ProjectViewMessage::ChangeName(s) => {
                self.project.name = s;
                ProjectEffect::Nothing
            },
            ProjectViewMessage::Description(s) => {
                self.project.description = s;
                ProjectEffect::Nothing
            },
            ProjectViewMessage::TargetName(i, s) => {
                self.project.set_target(i, 0, s);
                ProjectEffect::Nothing
            },
            ProjectViewMessage::TargetChip(i, s) => {
                self.project.set_target(i, 1, s);
                ProjectEffect::Nothing
            },
            ProjectViewMessage::TargetBinary(i, s) => {
                self.project.set_target(i, 2, s);
                ProjectEffect::Nothing
            },
            ProjectViewMessage::UpdateDatabase => {
                match data {
                    DbData::Listing(l) => {
                        let mut list: Vec<(usize, String, String)> = Vec::new();
                        let mut i: usize = 0;
                        while i < l.len()
                            invariant
                                i <= l@.len(),
                                listing_view(list@) == listed(l@).take(i as int),
                            decreases l@.len() - i,
                        {
                            let e = (i, l[i].0.clone(), l[i].1.clone());
                            proof {
                                crate::seqs::lemma_map_push(list@, e, |e: (usize, String, String)| (e.0, e.1@, e.2@));
                                assert(listed(l@).take(i + 1) =~= listed(l@).take(i as int).push((i, l@[i as int].0@, l@[i as int].1@)));
                            }
                            list.push(e);
                            i = i + 1;
                        }
                        assert(listed(l@).take(l@.len() as int) =~= listed(l@));
                        self.searchlist = list;
                    },
                    _ => {},
                }
                ProjectEffect::Nothing
            },
            ProjectViewMessage::CreationFailed => {
                if self.action == Action::Editing {
                    self.action = Action::New;
                }
                ProjectEffect::Nothing
            },
            ProjectViewMessage::EditProject(_) => {
                match data {
                    DbData::Project(p) => {
                        self.project = ProjectState::from(&p);
                    },
                    _ => {},
                }
                self.action = Action::Editing;
                ProjectEffect::Nothing
            },
            ProjectViewMessage::DeleteProject(name) => {
                if !self.connected {
                    return ProjectEffect::Nothing;
                }
                ProjectEffect::DeleteProject(name)
            },
            _ => ProjectEffect::Nothing,
        }
    }
}

/// A project is sent for creation only with a name, and with targets that
/// all have a name and a chip.
pub proof fn law_created_projects_complete(m: Model, msg: ProjectViewMessage, e: ProjectEffect)
    requires
        effect_fits(m, msg, e),
        e is CreateProject,
    ensures
        e matches ProjectEffect::CreateProject(p) && p.info.name@.len() > 0 && forall|i: int|
            0 <= i < p.targets@.len() ==> state::complete(
                crate::project::target_view(#[trigger] p.targets@[i]),
            ),
{
    if let ProjectEffect::CreateProject(p) = e {
        let ts = m.2.2;
        let keep = |t: (Seq<char>, Seq<char>, Seq<char>)| state::complete(t);
        let v = project_view(p);
        assert forall|i: int| 0 <= i < p.targets@.len() implies state::complete(
            crate::project::target_view(#[trigger] p.targets@[i]),
        ) by {
            assert(v.2[i] == crate::project::target_view(p.targets@[i]));
            ts.lemma_filter_pred(keep, i);
        }
    }
}

/// A search input of two bytes or more starts a search with the matches
/// read for it (none when nothing matched); a shorter one ends any search
/// and clears the matches. Either way the input is kept, the view goes back
/// to the list, and the form stays as it was.
pub proof fn law_search_threshold(m: Model, s: String, data: DbData)
    ensures
        crate::text::byte_len(s@) >= 2 ==> next_model(m, ProjectViewMessage::Search(s), data).5 && next_model(
            m,
            ProjectViewMessage::Search(s),
            data,
        ).1 == match data {
            DbData::Matches(Some(v)) => v@,
            _ => Seq::<usize>::empty(),
        },
        crate::text::byte_len(s@) < 2 ==> !next_model(m, ProjectViewMessage::Search(s), data).5 && next_model(
            m,
            ProjectViewMessage::Search(s),
            data,
        ).1.len() == 0,
        next_model(m, ProjectViewMessage::Search(s), data).0 == s@,
        next_model(m, ProjectViewMessage::Search(s), data).2 == m.2,
        next_model(m, ProjectViewMessage::Search(s), data).3 == Action::Searching,
{
}

/// Starting a new entry empties the form whatever it held before: no name,
/// no description, no target. The view is then creating, its search input
/// is cleared, and the matches, listing and interface stay as they were.
pub proof fn law_new_entry_empties_form(m: Model, data: DbData)
    ensures
        next_model(m, ProjectViewMessage::NewEntry, data).2.0.len() == 0,
        next_model(m, ProjectViewMessage::NewEntry, data).2.1.len() == 0,
        next_model(m, ProjectViewMessage::NewEntry, data).2.2.len() == 0,
        next_model(m, ProjectViewMessage::NewEntry, data).3 == Action::New,
        next_model(m, ProjectViewMessage::NewEntry, data).0.len() == 0,
        next_model(m, ProjectViewMessage::NewEntry, data).1 == m.1,
        next_model(m, ProjectViewMessage::NewEntry, data).4 == m.4,
        next_model(m, ProjectViewMessage::NewEntry, data).6 == m.6,
{
}

/// Creating right after starting a new entry sends nothing and leaves the
/// view as it is: the form holds no project to create, whatever was edited
/// before.
pub proof fn law_create_after_new_entry_sends_nothing(m: Model, d1: DbData, d2: DbData, e: ProjectEffect)
    requires
        effect_fits(next_model(m, ProjectViewMessage::NewEntry, d1), ProjectViewMessage::Create, e),
    ensures
        e is Nothing,
        next_model(next_model(m, ProjectViewMessage::NewEntry, d1), ProjectViewMessage::Create, d2)
            == next_model(m, ProjectViewMessage::NewEntry, d1),
{
}

/// Adding a target and then removing the last target gives the view back.
pub proof fn law_add_then_remove_target(m: Model, d1: DbData, d2: DbData)
    requires
        m.2.2.len() < usize::MAX,
    ensures
        next_model(
            next_model(m, ProjectViewMessage::AddTarget, d1),
            ProjectViewMessage::RemoveTarget(m.2.2.len() as usize),
            d2,
        ) == m,
{
    let mid = next_model(m, ProjectViewMessage::AddTarget, d1);
    assert(mid.2.2 == m.2.2.push(blank()));
    assert(mid.2.2.remove(m.2.2.len() as int) =~= m.2.2);
}

/// Adding a target appends one with no name, chip or binary after the
/// others, which stay as they were.
pub proof fn law_add_target_appends_blank(m: Model, data: DbData)
    ensures
        next_model(m, ProjectViewMessage::AddTarget, data).2.2.len() == m.2.2.len() + 1,
        forall|i: int| 0 <= i < m.2.2.len() ==> #[trigger] next_model(m, ProjectViewMessage::AddTarget, data).2.2[i] == m.2.2[i],
        next_model(m, ProjectViewMessage::AddTarget, data).2.2.last().0.len() == 0,
        next_model(m, ProjectViewMessage::AddTarget, data).2.2.last().1.len() == 0,
        next_model(m, ProjectViewMessage::AddTarget, data).2.2.last().2.len() == 0,
{
}

/// Editing a project read from the database loads its name, description
/// and targets into the form, in order, and switches to editing.
pub proof fn law_edit_loads_project(m: Model, i: usize, p: ProjectSerial)
    ensures
        next_model(m, ProjectViewMessage::EditProject(i), DbData::Project(p)).3 == Action::Editing,
        next_model(m, ProjectViewMessage::EditProject(i), DbData::Project(p)).2.0 == p.info.name@,
        next_model(m, ProjectViewMessage::EditProject(i), DbData::Project(p)).2.1 == p.info.description@,
        next_model(m, ProjectViewMessage::EditProject(i), DbData::Project(p)).2.2.len() == p.targets@.len(),
        forall|k: int|
            0 <= k < p.targets@.len() ==> {
                let t = #[trigger] next_model(m, ProjectViewMessage::EditProject(i), DbData::Project(p)).2.2[k];
                &&& t.0 == p.targets@[k].name@
                &&& t.1 == p.targets@[k].target@
                &&& t.2 == p.targets@[k].binary@
            },
{
}

/// The positions in the listing of the projects that show.
pub open spec fn shown_positions(v: ProjectDatabaseView) -> Seq<usize> {
    Seq::new(v.searchlist@.len(), |p: int| p as usize).filter(
        |p: usize| project_shown(v.searchlist@[p as int].0, v.matched@, v.searching),
    )
}

/// The project list shows listing positions only, each of a project that
/// is among the matches when there are matches; with no matches it shows
/// every project when no search is active and none during a search.
pub proof fn law_shown_projects(v: ProjectDatabaseView)
    requires
        v.searchlist@.len() <= usize::MAX,
    ensures
        forall|t: int| 0 <= t < shown_positions(v).len() ==> #[trigger] shown_positions(v)[t] < v.searchlist@.len(),
        v.matched@.len() > 0 ==> forall|p: int|
            0 <= p < v.searchlist@.len() ==> (shown_positions(v).contains(p as usize) <==> v.matched@.contains(
                #[trigger] v.searchlist@[p].0,
            )),
        v.matched@.len() == 0 && !v.searching ==> shown_positions(v) == Seq::new(
            v.searchlist@.len(),
            |p: int| p as usize,
        ),
        v.matched@.len() == 0 && v.searching ==> shown_positions(v).len() == 0,
{
    let all = Seq::new(v.searchlist@.len(), |p: int| p as usize);
    let keep = |p: usize| project_shown(v.searchlist@[p as int].0, v.matched@, v.searching);
    let r = all.filter(keep);
    assert(r == shown_positions(v));
    assert forall|t: int| 0 <= t < r.len() implies #[trigger] r[t] < v.searchlist@.len() by {
        all.lemma_filter_contains_rev(keep, r[t]);
    }
    if v.matched@.len() > 0 {
        assert forall|p: int| 0 <= p < v.searchlist@.len() implies (r.contains(p as usize) <==> v.matched@.contains(
            #[trigger] v.searchlist@[p].0,
        )) by {
            if r.contains(p as usize) {
                let t = choose|t: int| 0 <= t < r.len() && r[t] == p as usize;
                all.lemma_filter_pred(keep, t);
                all.lemma_filter_contains_rev(keep, r[t]);
                let u = choose|u: int| 0 <= u < all.len() && all[u] == r[t];
                assert(u == p);
            }
            if v.matched@.contains(v.searchlist@[p].0) {
                all.lemma_filter_contains(keep, p);
                assert(all[p] == p as usize);
            }
        }
    } else if !v.searching {
        crate::seqs::lemma_filter_all(all, keep);
    } else {
        all.lemma_all_neg_filter_empty(keep);
    }
}

/// The message of a field of a target entry: its name (`part` 0), chip
/// (`part` 1) or binary (`part` 2) changed to `value`.
pub open spec fn target_field_message(i: usize, part: u8, value: String) -> ProjectViewMessage {
    if part == 0 {
        ProjectViewMessage::TargetName(i, value)
    } else if part == 1 {
        ProjectViewMessage::TargetChip(i, value)
    } else {
        ProjectViewMessage::TargetBinary(i, value)
    }
}

impl ProjectDatabaseView {
    /// The rows of the project list: each project that shows, in the order
    /// of the listing, with its position, name and description, the message
    /// of its Edit button (edit the project at that position) and that of
    /// its Delete button (delete the project with that name).
    pub fn project_rows(&self) -> (r: Vec<(usize, String, String, ProjectViewMessage, ProjectViewMessage)>)
        ensures
            r@.len() == shown_positions(*self).len(),
            forall|t: int|
                #![trigger r@[t]]
                0 <= t < r@.len() ==> {
                    let e = self.searchlist@[shown_positions(*self)[t] as int];
                    &&& shown_positions(*self)[t] < self.searchlist@.len()
                    &&& r@[t].0 == e.0
                    &&& r@[t].1@ == e.1@
                    &&& r@[t].2@ == e.2@
                    &&& r@[t].3 == ProjectViewMessage::EditProject(e.0)
                    &&& r@[t].4 matches ProjectViewMessage::DeleteProject(n) && n@ == e.1@
                },
    {
        let shown = self.shown();
        let ghost all = Seq::new(self.searchlist@.len(), |p: int| p as usize);
        let ghost keep = |p: usize| project_shown(self.searchlist@[p as int].0, self.matched@, self.searching);
        proof {
            assert forall|t: int| 0 <= t < shown@.len() implies #[trigger] shown@[t] < self.searchlist@.len() by {
                all.lemma_filter_contains_rev(keep, shown@[t]);
                let u = choose|u: int| 0 <= u < all.len() && all[u] == shown@[t];
            }
        }
        let mut r: Vec<(usize, String, String, ProjectViewMessage, ProjectViewMessage)> = Vec::new();
        let mut t: usize = 0;
        while t < shown.len()
            invariant
                t <= shown@.len(),
                shown@ == shown_positions(*self),
                forall|u: int| 0 <= u < shown@.len() ==> #[trigger] shown@[u] < self.searchlist@.len(),
                r@.len() == t,
                forall|u: int|
                    #![trigger r@[u]]
                    0 <= u < t ==> {
                        let e = self.searchlist@[shown@[u] as int];
                        &&& r@[u].0 == e.0
                        &&& r@[u].1@ == e.1@
                        &&& r@[u].2@ == e.2@
                        &&& r@[u].3 == ProjectViewMessage::EditProject(e.0)
                        &&& r@[u].4 matches ProjectViewMessage::DeleteProject(n) && n@ == e.1@
                    },
            decreases shown@.len() - t,
        {
            let p = shown[t];
            let e = &self.searchlist[p];
            let row = (
                e.0,
                e.1.clone(),
                e.2.clone(),
                ProjectViewMessage::EditProject(e.0),
                ProjectViewMessage::DeleteProject(e.1.clone()),
            );
            r.push(row);
            t = t + 1;
        }
        r
    }

    /// The message of the confirm button of the project form: `Create` for
    /// a new project, `Update` for an edited one; there is no form while
    /// searching.
    pub fn confirm_message(&self) -> (m: Option<ProjectViewMessage>)
        ensures
            m == match self.action {
                Action::New => Some(ProjectViewMessage::Create),
                Action::Editing => Some(ProjectViewMessage::Update),
                Action::Searching => None::<ProjectViewMessage>,
            },
    {
        match self.action {
            Action::New => Some(ProjectViewMessage::Create),
            Action::Editing => Some(ProjectViewMessage::Update),
            Action::Searching => None,
        }
    }

    /// The messages of the Remove buttons of the target entries: the one of
    /// the entry at position `i` removes the target at `i`.
    pub fn remove_messages(&self) -> (m: Vec<ProjectViewMessage>)
        ensures
            m@.len() == self.project.targets@.len(),
            forall|i: int| 0 <= i < m@.len() ==> #[trigger] m@[i] == ProjectViewMessage::RemoveTarget(i as usize),
    {
        let mut m: Vec<ProjectViewMessage> = Vec::new();
        let mut i: usize = 0;
        while i < self.project.targets.len()
            invariant
                i <= self.project.targets@.len(),
                m@.len() == i,
                forall|j: int| 0 <= j < i ==> #[trigger] m@[j] == ProjectViewMessage::RemoveTarget(j as usize),
            decreases self.project.targets@.len() - i,
        {
            m.push(ProjectViewMessage::RemoveTarget(i));
            i = i + 1;
        }
        m
    }

    /// The message of a field of the target entry at position `i` when its
    /// text changes to `value`: name (`part` 0), chip (`part` 1) or binary
    /// (`part` 2).
    pub fn target_message(i: usize, part: u8, value: String) -> (m: ProjectViewMessage)
        requires
            part < 3,
        ensures
            m == target_field_message(i, part, value),
    {
        if part == 0 {
            ProjectViewMessage::TargetName(i, value)
        } else if part == 1 {
            ProjectViewMessage::TargetChip(i, value)
        } else {
            ProjectViewMessage::TargetBinary(i, value)
        }
    }
}

} // verus!
