use defmthost::gui::views::database::project::state::{ProjectState, State};
use defmthost::gui::views::database::project::{
    createproject, deleteproject, getdb, Action, DbData, Outcome, ProjectDatabaseView, ProjectEffect,
    ProjectViewMessage, Reply,
};
use defmthost::gui::views::database::{DatabaseView, DatabaseViewMessage, View};
use defmthost::gui::Message;
use defmthost::project::{ProjectInfo, ProjectSerial, TargetInfo};

fn target(name: &str, chip: &str, binary: &str) -> TargetInfo {
    TargetInfo { name: name.to_string(), target: chip.to_string(), binary: binary.to_string() }
}

fn project(name: &str, targets: Vec<TargetInfo>) -> ProjectSerial {
    ProjectSerial {
        info: ProjectInfo { name: name.to_string(), description: String::from("a project") },
        targets,
    }
}

fn targets_of(p: &ProjectSerial) -> Vec<(String, String, String)> {
    p.targets.iter().map(|t| (t.name.clone(), t.target.clone(), t.binary.clone())).collect()
}

fn entry(a: &str, b: &str, c: &str) -> (String, String, String) {
    (a.to_string(), b.to_string(), c.to_string())
}

#[test]
fn rebuild_needs_a_name_and_targets() {
    let mut s = ProjectState::new();
    assert!(s.rebuild().is_none());
    s.name = String::from("fw");
    assert!(s.rebuild().is_none());
    s.newtarget();
    let p = s.rebuild().expect("a project");
    assert_eq!(p.info.name, "fw");
    assert!(p.targets.is_empty());
}

#[test]
fn rebuild_keeps_targets_with_a_name_and_a_chip() {
    let mut s = ProjectState::new();
    s.name = String::from("fw");
    s.description = String::from("desc");
    s.targets = vec![
        entry("board", "nrf52840", "fw.elf"),
        entry("", "stm32f4", "a.elf"),
        entry("spare", "", "b.elf"),
        entry("nobin", "rp2040", ""),
    ];
    let p = s.rebuild().expect("a project");
    assert_eq!(p.info.description, "desc");
    assert_eq!(targets_of(&p), vec![entry("board", "nrf52840", "fw.elf"), entry("nobin", "rp2040", "")]);
}

#[test]
fn editing_and_rebuilding_gives_the_project_back() {
    let p = project("fw", vec![target("a", "chip-a", "a.elf"), target("b", "chip-b", "")]);
    let s = ProjectState::from(&p);
    let q = s.rebuild().expect("a project");
    assert_eq!(q.info.name, p.info.name);
    assert_eq!(q.info.description, p.info.description);
    assert_eq!(targets_of(&q), targets_of(&p));
}

#[test]
fn targets_are_added_set_and_removed() {
    let mut s = ProjectState::new();
    s.newtarget();
    s.newtarget();
    s.set_target(0, 0, String::from("n"));
    s.set_target(0, 1, String::from("c"));
    s.set_target(1, 2, String::from("bin"));
    assert_eq!(s.targets, vec![entry("n", "c", ""), entry("", "", "bin")]);
    s.remove(0);
    assert_eq!(s.targets, vec![entry("", "", "bin")]);
}

#[test]
fn new_views_start_searching() {
    let v = ProjectDatabaseView::new();
    assert_eq!(v.action, Action::Searching);
    assert!(!v.searching && !v.connected);
    assert!(v.state.currentsearch.is_empty());
    assert!(State::new().currentsearch.is_empty());
}

#[test]
fn short_searches_show_every_project() {
    let mut v = ProjectDatabaseView::new();
    let listing = vec![(String::from("alpha"), String::from("first")), (String::from("beta"), String::from("second"))];
    v.update(ProjectViewMessage::UpdateDatabase, DbData::Listing(listing));
    assert_eq!(v.searchlist.len(), 2);
    assert_eq!(v.searchlist[1], (1, String::from("beta"), String::from("second")));
    assert_eq!(v.shown(), vec![0, 1]);
    assert!(!ProjectDatabaseView::search_needed(&String::from("a")));
    v.update(ProjectViewMessage::Search(String::from("a")), DbData::Nothing);
    assert!(!v.searching);
    assert_eq!(v.shown(), vec![0, 1]);
}

#[test]
fn searches_show_the_matches() {
    let mut v = ProjectDatabaseView::new();
    let listing = vec![(String::from("alpha"), String::new()), (String::from("beta"), String::new())];
    v.update(ProjectViewMessage::UpdateDatabase, DbData::Listing(listing));
    assert!(ProjectDatabaseView::search_needed(&String::from("et")));
    v.update(ProjectViewMessage::Search(String::from("et")), DbData::Matches(Some(vec![1])));
    assert!(v.searching);
    assert_eq!(v.state.currentsearch, "et");
    assert_eq!(v.shown(), vec![1]);
    v.update(ProjectViewMessage::Search(String::from("zz")), DbData::Matches(None));
    assert!(v.searching);
    assert!(v.shown().is_empty());
}

#[test]
fn creation_needs_a_complete_project_and_an_interface() {
    let mut v = ProjectDatabaseView::new();
    v.update(ProjectViewMessage::NewEntry, DbData::Nothing);
    assert_eq!(v.action, Action::New);
    v.update(ProjectViewMessage::ChangeName(String::from("fw")), DbData::Nothing);
    v.update(ProjectViewMessage::Description(String::from("d")), DbData::Nothing);
    v.update(ProjectViewMessage::AddTarget, DbData::Nothing);
    v.update(ProjectViewMessage::TargetName(0, String::from("t")), DbData::Nothing);
    v.update(ProjectViewMessage::TargetChip(0, String::from("c")), DbData::Nothing);
    v.update(ProjectViewMessage::TargetBinary(0, String::from("b")), DbData::Nothing);
    // No interface yet: nothing happens.
    assert!(matches!(v.update(ProjectViewMessage::Create, DbData::Nothing), ProjectEffect::Nothing));
    assert_eq!(v.action, Action::New);
    assert!(matches!(v.interface(), ProjectEffect::FetchDatabase));
    match v.update(ProjectViewMessage::Create, DbData::Nothing) {
        ProjectEffect::CreateProject(p) => {
            assert_eq!(p.info.name, "fw");
            assert_eq!(p.info.description, "d");
            assert_eq!(targets_of(&p), vec![entry("t", "c", "b")]);
        },
        _ => panic!("expected a creation"),
    }
    assert_eq!(v.action, Action::Editing);
    v.update(ProjectViewMessage::CreationFailed, DbData::Nothing);
    assert_eq!(v.action, Action::New);
    v.update(ProjectViewMessage::RemoveTarget(0), DbData::Nothing);
    assert!(matches!(v.update(ProjectViewMessage::Create, DbData::Nothing), ProjectEffect::Nothing));
    v.update(ProjectViewMessage::Cancel, DbData::Nothing);
    assert_eq!(v.action, Action::Searching);
}

#[test]
fn editing_and_deleting() {
    let mut v = ProjectDatabaseView::new();
    let p = project("fw", vec![target("a", "b", "c")]);
    v.update(ProjectViewMessage::EditProject(0), DbData::Project(p));
    assert_eq!(v.action, Action::Editing);
    assert_eq!(v.project.name, "fw");
    assert_eq!(v.project.targets, vec![entry("a", "b", "c")]);
    assert!(matches!(v.update(ProjectViewMessage::DeleteProject(String::from("fw")), DbData::Nothing), ProjectEffect::Nothing));
    v.interface();
    match v.update(ProjectViewMessage::DeleteProject(String::from("fw")), DbData::Nothing) {
        ProjectEffect::DeleteProject(n) => assert_eq!(n, "fw"),
        _ => panic!("expected a deletion"),
    }
    v.update(ProjectViewMessage::Update, DbData::Nothing);
    assert_eq!(v.action, Action::Editing);
}

#[test]
fn database_replies_become_messages() {
    assert_eq!(createproject(false, Some(Reply::Done)), Outcome::CreationFailed);
    assert_eq!(createproject(true, Some(Reply::Done)), Outcome::UpdateProjectDatabase);
    assert_eq!(createproject(true, Some(Reply::DoesNotExist)), Outcome::CreationFailed);
    assert_eq!(createproject(true, None), Outcome::CreationFailed);
    assert_eq!(deleteproject(false, Some(Reply::Done)), Outcome::DeletionFailed);
    assert_eq!(deleteproject(true, Some(Reply::Done)), Outcome::UpdateProjectDatabase);
    assert_eq!(deleteproject(true, Some(Reply::DoesNotExist)), Outcome::UpdateDatabase);
    assert_eq!(deleteproject(true, Some(Reply::Other)), Outcome::DeletionFailed);
    assert_eq!(deleteproject(true, None), Outcome::DeletionFailed);
    assert_eq!(getdb(false, Some(Reply::SearchEngine)), Outcome::DatabaseUpdateFailed);
    assert_eq!(getdb(true, Some(Reply::SearchEngine)), Outcome::DatabaseReference);
    assert_eq!(getdb(true, Some(Reply::Done)), Outcome::DatabaseUpdateFailed);
    assert_eq!(getdb(true, None), Outcome::DatabaseUpdateFailed);
}

#[test]
fn database_view_switches_and_routes() {
    let mut v = DatabaseView::new();
    assert_eq!(v.topbar.buttons.len(), 4);
    let labels: Vec<&str> = v.topbar.buttons.iter().map(|(_, l)| l.as_str()).collect();
    assert_eq!(labels, vec!["Chip", "Regex", "Theme", "Project"]);
    assert!(matches!(v.topbar.buttons[3].0, Message::Database(DatabaseViewMessage::ChangeToProject)));
    assert!(v.current.is_none());
    v.update(DatabaseViewMessage::ChangeToRegex, DbData::Nothing);
    assert_eq!(v.current, Some(View::Regex));
    v.update(DatabaseViewMessage::ChangeToProject, DbData::Nothing);
    assert_eq!(v.current, Some(View::Project));
    assert!(matches!(v.update(DatabaseViewMessage::InterfacesCreated, DbData::Nothing), ProjectEffect::FetchDatabase));
    assert!(v.project.connected);
    v.update(DatabaseViewMessage::Project(ProjectViewMessage::NewEntry), DbData::Nothing);
    assert_eq!(v.project.action, Action::New);
    assert_eq!(v.current, Some(View::Project));
    assert!(v.topbar.press(0, true).is_some());
    assert!(v.topbar.press(0, false).is_none());
}

#[test]
fn empty_project_has_nothing() {
    let p = ProjectSerial::new();
    assert!(p.name().is_empty());
    assert!(p.description().is_empty());
    assert!(p.targets.is_empty());
}

#[test]
fn project_rows_carry_edit_and_delete_messages() {
    let mut v = ProjectDatabaseView::new();
    let listing = vec![(String::from("alpha"), String::from("first")), (String::from("beta"), String::from("second"))];
    v.update(ProjectViewMessage::UpdateDatabase, DbData::Listing(listing));
    v.update(ProjectViewMessage::Search(String::from("et")), DbData::Matches(Some(vec![1])));
    let rows = v.project_rows();
    assert_eq!(rows.len(), 1);
    let (idx, name, desc, edit, delete) = &rows[0];
    assert_eq!((*idx, name.as_str(), desc.as_str()), (1, "beta", "second"));
    assert!(matches!(edit, ProjectViewMessage::EditProject(1)));
    assert!(matches!(delete, ProjectViewMessage::DeleteProject(n) if n == "beta"));
    v.update(ProjectViewMessage::Search(String::from("a")), DbData::Nothing);
    let rows = v.project_rows();
    assert_eq!(rows.len(), 2);
    assert!(matches!(rows[0].3, ProjectViewMessage::EditProject(0)));
    assert!(matches!(&rows[0].4, ProjectViewMessage::DeleteProject(n) if n == "alpha"));
}

#[test]
fn form_buttons_send_their_messages() {
    let mut v = ProjectDatabaseView::new();
    assert!(v.confirm_message().is_none());
    v.update(ProjectViewMessage::NewEntry, DbData::Nothing);
    assert!(matches!(v.confirm_message(), Some(ProjectViewMessage::Create)));
    assert!(v.remove_messages().is_empty());
    v.update(ProjectViewMessage::AddTarget, DbData::Nothing);
    v.update(ProjectViewMessage::AddTarget, DbData::Nothing);
    let removes = v.remove_messages();
    assert_eq!(removes.len(), 2);
    assert!(matches!(removes[0], ProjectViewMessage::RemoveTarget(0)));
    assert!(matches!(removes[1], ProjectViewMessage::RemoveTarget(1)));
    v.update(ProjectViewMessage::EditProject(0), DbData::Project(project("fw", vec![])));
    assert!(matches!(v.confirm_message(), Some(ProjectViewMessage::Update)));
}

#[test]
fn target_fields_send_their_messages() {
    let m = ProjectDatabaseView::target_message(3, 0, String::from("n"));
    assert!(matches!(m, ProjectViewMessage::TargetName(3, ref s) if s == "n"));
    let m = ProjectDatabaseView::target_message(3, 1, String::from("c"));
    assert!(matches!(m, ProjectViewMessage::TargetChip(3, ref s) if s == "c"));
    let m = ProjectDatabaseView::target_message(2, 2, String::from("b"));
    assert!(matches!(m, ProjectViewMessage::TargetBinary(2, ref s) if s == "b"));
}
