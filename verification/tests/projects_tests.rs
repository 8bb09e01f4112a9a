use ratatoist::app::App;
use ratatoist::models::{Folder, Project, Workspace};
use ratatoist::projects::{collect_project_subtree, ordered_projects};
use ratatoist::state::{ProjectEntry, ProjectNavItem};
use ratatoist::strmap::{StrMap, StrSet};

fn pr(id: &str, order: i32) -> Project {
    let mut p = Project::default();
    p.id = id.to_string();
    p.name = id.to_string();
    p.child_order = order;
    p
}

fn pr_in(id: &str, order: i32, ws: &str, folder: Option<&str>) -> Project {
    let mut p = pr(id, order);
    p.workspace_id = Some(ws.to_string());
    p.folder_id = folder.map(|f| f.to_string());
    p
}

fn ws(id: &str) -> Workspace {
    Workspace { id: id.to_string(), name: id.to_string(), is_deleted: false }
}

fn fo(id: &str, ws: &str, order: i32) -> Folder {
    Folder {
        id: id.to_string(),
        name: id.to_string(),
        workspace_id: ws.to_string(),
        child_order: order,
        is_deleted: false,
    }
}

fn order_of(ps: &[Project]) -> Vec<String> {
    ps.iter().map(|p| p.id.clone()).collect()
}

fn big_fixture() -> (Vec<Project>, Vec<Workspace>, Vec<Folder>) {
    let mut inbox = pr("inbox", 9);
    inbox.inbox_project = Some(true);
    let mut fav = pr("fav", 8);
    fav.is_favorite = true;
    let plain1 = pr("plain1", 1);
    let plain2 = pr("plain2", 2);
    let mut child_b = pr("child_b", 2);
    child_b.parent_id = Some("plain1".to_string());
    let mut child_a = pr("child_a", 1);
    child_a.parent_id = Some("plain1".to_string());
    let mut grand = pr("grand", 1);
    grand.parent_id = Some("child_a".to_string());
    let w2_loose = pr_in("w2_loose", 1, "w2", None);
    let w1_loose = pr_in("w1_loose", 1, "w1", None);
    let w1_f2 = pr_in("w1_f2", 1, "w1", Some("f2"));
    let w1_f1b = pr_in("w1_f1b", 2, "w1", Some("f1"));
    let w1_f1a = pr_in("w1_f1a", 1, "w1", Some("f1"));
    let dangling_ws = pr_in("dangling_ws", 1, "nowhere", None);
    let dangling_folder = pr_in("dangling_folder", 1, "w1", Some("nofolder"));
    let mut orphan = pr("orphan", 1);
    orphan.parent_id = Some("missing".to_string());
    let ps = vec![
        grand, w2_loose, plain2, child_b, w1_f2, dangling_ws, inbox, w1_f1b, orphan, plain1, fav,
        w1_loose, child_a, w1_f1a, dangling_folder,
    ];
    (ps, vec![ws("w1"), ws("w2")], vec![fo("f2", "w1", 2), fo("f1", "w1", 1), fo("fx", "w2", 1)])
}

#[test]
fn projects_are_put_in_display_order() {
    let (ps, wss, folders) = big_fixture();
    let sorted = ordered_projects(&ps, &wss, &folders);
    assert_eq!(
        order_of(&sorted),
        vec![
            "fav", "inbox", "plain1", "child_a", "grand", "child_b", "plain2", "w1_loose",
            "w1_f1a", "w1_f1b", "w1_f2", "w2_loose", "dangling_ws", "orphan", "dangling_folder",
        ]
    );
}

#[test]
fn ordering_twice_changes_nothing() {
    let (ps, wss, folders) = big_fixture();
    let once = ordered_projects(&ps, &wss, &folders);
    let twice = ordered_projects(&once, &wss, &folders);
    assert_eq!(order_of(&once), order_of(&twice));
}

#[test]
fn pinned_projects_keep_their_child_order_among_themselves() {
    let mut a = pr("a", 2);
    a.is_favorite = true;
    let mut b = pr("b", 1);
    b.inbox_project = Some(true);
    let c = pr("c", 0);
    let sorted = ordered_projects(&vec![a, c, b], &vec![], &vec![]);
    assert_eq!(order_of(&sorted), vec!["b", "a", "c"]);
}

#[test]
fn subtrees_are_collected_below_a_parent() {
    let (ps, _, _) = big_fixture();
    let all: Vec<&Project> = ps.iter().collect();
    let mut out = Vec::new();
    collect_project_subtree(Some("plain1"), &all, &mut out);
    assert_eq!(order_of(&out), vec!["child_a", "grand", "child_b"]);
    let mut out = Vec::new();
    collect_project_subtree(Some("nobody"), &all, &mut out);
    assert!(out.is_empty());
}

#[test]
fn cursor_follows_the_selected_project() {
    let (ps, wss, folders) = big_fixture();
    let mut app = App::new(vec![], 0, "*".to_string(), 300, false, true, 0);
    app.project_store = ps.clone();
    app.projects = ps;
    app.workspaces = wss;
    app.folders = folders;
    app.selected_project = 2;
    app.sort_projects();
    assert_eq!(app.project_store.len(), app.projects.len());
    assert_eq!(app.project_store[2].id, "plain2");
    assert_eq!(app.projects[app.selected_project].id, "plain2");
    assert_eq!(app.selected_project, 6);
    assert!(app.projects[1].is_inbox());
    assert!(!app.projects[0].is_inbox());
    assert_eq!(app.project_depth("grand"), 2);
    assert_eq!(app.project_depth("plain1"), 0);
    assert_eq!(app.project_depth("nobody"), 0);
    let grand = app.projects[4].clone();
    assert_eq!(app.project_indent(&grand), 3);
    let filed = app.projects[8].clone();
    assert_eq!(app.project_indent(&filed), 3);
}

#[test]
fn project_list_has_headers_and_separators() {
    let mut app = App::new(vec![], 0, "*".to_string(), 300, false, true, 0);
    app.workspaces = vec![ws("w1"), ws("w2")];
    app.folders = vec![fo("f2", "w1", 2), fo("f1", "w1", 1)];
    app.projects = vec![
        pr("a", 1),
        pr("b", 2),
        pr_in("w1_loose", 1, "w1", None),
        pr_in("w1_f1a", 1, "w1", Some("f1")),
        pr_in("w1_f1b", 2, "w1", Some("f1")),
        pr_in("w1_f2", 1, "w1", Some("f2")),
        pr_in("w2_loose", 1, "w2", None),
        pr_in("lost", 1, "nowhere", Some("nofolder")),
    ];
    let entries = app.project_list_entries();
    assert_eq!(
        entries,
        vec![
            ProjectEntry::PersonalHeader,
            ProjectEntry::Project(0),
            ProjectEntry::Project(1),
            ProjectEntry::Separator,
            ProjectEntry::WorkspaceHeader(0),
            ProjectEntry::Project(2),
            ProjectEntry::FolderHeader(1),
            ProjectEntry::Project(3),
            ProjectEntry::Project(4),
            ProjectEntry::FolderHeader(0),
            ProjectEntry::Project(5),
            ProjectEntry::Separator,
            ProjectEntry::WorkspaceHeader(1),
            ProjectEntry::Project(6),
            ProjectEntry::Separator,
            ProjectEntry::Project(7),
        ]
    );
    app.collapsed_folders.insert("f1".to_string());
    let nav = app.visible_nav_items();
    assert_eq!(
        nav,
        vec![
            ProjectNavItem::Project(0),
            ProjectNavItem::Project(1),
            ProjectNavItem::Project(2),
            ProjectNavItem::Folder(1),
            ProjectNavItem::Folder(0),
            ProjectNavItem::Project(5),
            ProjectNavItem::Project(6),
            ProjectNavItem::Project(7),
        ]
    );
}

#[test]
fn folder_folds_are_toggled() {
    let mut app = App::new(vec![], 0, "*".to_string(), 300, false, true, 0);
    app.workspaces = vec![ws("w1")];
    app.folders = vec![fo("f2", "w1", 2), fo("f1", "w1", 1)];
    app.projects = vec![pr("a", 1), pr_in("x", 1, "w1", Some("f1"))];
    app.selected_project = 0;
    app.toggle_folder_collapse();
    assert_eq!(app.collapsed_folders.len(), 0);
    app.selected_project = 1;
    app.toggle_folder_collapse();
    assert!(app.collapsed_folders.contains("f1"));
    assert_eq!(app.folder_cursor, Some(1));
    app.toggle_folder_collapse();
    assert!(!app.collapsed_folders.contains("f1"));
    app.folder_cursor = Some(0);
    app.toggle_folder_collapse();
    assert!(app.collapsed_folders.contains("f2"));
    app.folder_cursor = Some(5);
    app.toggle_folder_collapse();
    assert_eq!(app.collapsed_folders.len(), 1);
}

#[test]
fn text_maps_behave_like_maps() {
    let mut m: StrMap<i32> = StrMap::new();
    assert_eq!(m.len(), 0);
    assert!(m.get("a").is_none());
    m.insert("a".to_string(), 1);
    m.insert("b".to_string(), 2);
    m.insert("a".to_string(), 3);
    assert_eq!(m.len(), 2);
    assert_eq!(m.get("a"), Some(&3));
    assert!(m.contains_key("b"));
    assert_eq!(m.remove("a"), Some(3));
    assert_eq!(m.remove("a"), None);
    assert_eq!(m.len(), 1);
    m.clear();
    assert!(!m.contains_key("b"));
    let mut s = StrSet::new();
    assert!(s.insert("x".to_string()));
    assert!(!s.insert("x".to_string()));
    assert!(s.contains("x"));
    assert!(s.remove("x"));
    assert!(!s.remove("x"));
    assert_eq!(s.len(), 0);
    s.insert("y".to_string());
    s.clear();
    assert!(!s.contains("y"));
}
