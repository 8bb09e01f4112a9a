use ratatoist::app::{App, Effect};
use ratatoist::coordinator::BgResult;
use ratatoist::models::{Comment, Due, Label, Project, Section, Task, UserInfo, Workspace};
use ratatoist::state::{SortMode, TaskFilter};
use ratatoist::sync::SyncResponse;

const NOW: u64 = 1_736_328_600;

fn sync_app() -> App {
    App::new(vec!["rose-pine".to_string()], 0, "*".to_string(), 300, false, false, NOW)
}

fn sync_task(id: &str, content: &str, project: &str) -> Task {
    let mut t = Task::default();
    t.id = id.to_string();
    t.content = content.to_string();
    t.project_id = project.to_string();
    t.priority = 1;
    t
}

fn sync_project(id: &str, name: &str) -> Project {
    let mut p = Project::default();
    p.id = id.to_string();
    p.name = name.to_string();
    p
}

fn first_run_reply() -> SyncResponse {
    let mut r = SyncResponse::empty(true, "T1".to_string());
    let a = sync_task("i1", "A", "p1");
    let mut b = sync_task("i2", "B", "p1");
    b.parent_id = Some("i1".to_string());
    r.items = Some(vec![a, b]);
    let mut inbox = sync_project("p1", "Inbox");
    inbox.inbox_project = Some(true);
    r.projects = Some(vec![inbox]);
    r
}

fn contents(app: &App) -> Vec<String> {
    app.visible_tasks().iter().map(|t| t.content.clone()).collect()
}

fn ids(tasks: &[Task]) -> Vec<String> {
    tasks.iter().map(|t| t.id.clone()).collect()
}

#[test]
fn first_run_shows_tasks_in_tree_order() {
    let mut app = sync_app();
    assert_eq!(app.sync_token, "*");
    app.start();
    let effects = app.take_effects();
    assert_eq!(effects.len(), 1);
    match &effects[0] {
        Effect::FullSync(req) => {
            assert_eq!(req.sync_token, "*");
            assert_eq!(req.resource_types.len(), 9);
            assert_eq!(req.resource_types[0], "items");
            assert_eq!(req.resource_types[8], "user");
            assert!(req.commands.is_empty());
        }
        _ => panic!("the first effect must be the full sync"),
    }
    app.handle(BgResult::InitialSync(first_run_reply()));
    assert_eq!(app.sync_token, "T1");
    assert_eq!(app.task_filter, TaskFilter::Active);
    assert_eq!(app.sort_mode, SortMode::Default);
    assert_eq!(contents(&app), vec!["A", "B"]);
    assert_eq!(app.last_sync_at, Some(NOW));
}

#[test]
fn full_sync_persists_the_token_once() {
    let mut app = sync_app();
    app.apply_sync_delta(first_run_reply());
    let effects = app.take_effects();
    assert_eq!(effects.len(), 1);
    match &effects[0] {
        Effect::SaveSyncToken(t) => assert_eq!(t, "T1"),
        _ => panic!("the token must be written"),
    }
}

#[test]
fn ephemeral_mode_writes_nothing() {
    let mut app = App::new(vec![], 0, "*".to_string(), 300, false, true, NOW);
    app.apply_sync_delta(first_run_reply());
    assert_eq!(app.sync_token, "T1");
    assert!(app.take_effects().is_empty());
}

#[test]
fn full_sync_drops_tombstones() {
    let mut app = sync_app();
    let mut r = SyncResponse::empty(true, "T1".to_string());
    let mut gone = sync_task("i9", "gone", "p1");
    gone.is_deleted = true;
    r.items = Some(vec![sync_task("i1", "A", "p1"), gone]);
    let mut dead_project = sync_project("p2", "Old");
    dead_project.is_deleted = Some(true);
    r.projects = Some(vec![sync_project("p1", "Inbox"), dead_project]);
    let mut dead_label = Label::default();
    dead_label.id = "l2".to_string();
    dead_label.is_deleted = Some(true);
    let mut live_label = Label::default();
    live_label.id = "l1".to_string();
    r.labels = Some(vec![dead_label, live_label]);
    let mut dead_section = Section::default();
    dead_section.id = "s1".to_string();
    dead_section.is_deleted = Some(true);
    r.sections = Some(vec![dead_section]);
    let mut dead_ws = Workspace::default();
    dead_ws.id = "w1".to_string();
    dead_ws.is_deleted = true;
    r.workspaces = Some(vec![dead_ws]);
    let mut dead_note = Comment::default();
    dead_note.id = "c1".to_string();
    dead_note.item_id = Some("i1".to_string());
    dead_note.is_deleted = true;
    let mut live_note = Comment::default();
    live_note.id = "c2".to_string();
    live_note.item_id = Some("i1".to_string());
    r.notes = Some(vec![dead_note, live_note]);
    app.apply_sync_delta(r);
    assert_eq!(ids(&app.tasks), vec!["i1"]);
    assert_eq!(app.projects.len(), 1);
    assert_eq!(app.projects[0].id, "p1");
    assert_eq!(app.labels.len(), 1);
    assert_eq!(app.labels[0].id, "l1");
    assert!(app.sections.is_empty());
    assert!(app.workspaces.is_empty());
    let bucket = app.comments_by_task.get("i1").unwrap();
    assert_eq!(bucket.len(), 1);
    assert_eq!(bucket[0].id, "c2");
}

#[test]
fn full_sync_replaces_what_was_there() {
    let mut app = sync_app();
    app.apply_sync_delta(first_run_reply());
    let mut r = SyncResponse::empty(true, "T2".to_string());
    r.items = Some(vec![sync_task("i7", "Z", "p1")]);
    app.apply_sync_delta(r);
    assert_eq!(ids(&app.tasks), vec!["i7"]);
    assert_eq!(app.projects.len(), 1);
    assert_eq!(app.sync_token, "T2");
}

#[test]
fn delta_upserts_and_deletes_by_id() {
    let mut app = sync_app();
    app.apply_sync_delta(first_run_reply());
    let mut r = SyncResponse::empty(false, "T2".to_string());
    let mut changed = sync_task("i1", "A2", "p1");
    changed.priority = 4;
    let added = sync_task("i3", "C", "p1");
    let mut removed = sync_task("i2", "B", "p1");
    removed.is_deleted = true;
    r.items = Some(vec![changed, added, removed]);
    app.apply_sync_delta(r);
    assert_eq!(ids(&app.tasks), vec!["i1", "i3"]);
    assert_eq!(app.tasks[0].content, "A2");
    assert_eq!(app.tasks[0].priority, 4);
    assert_eq!(app.sync_token, "T2");
}

#[test]
fn delta_applied_twice_changes_nothing_more() {
    let mut app = sync_app();
    app.apply_sync_delta(first_run_reply());
    let delta = || {
        let mut r = SyncResponse::empty(false, "T2".to_string());
        let mut removed = sync_task("i2", "B", "p1");
        removed.is_deleted = true;
        r.items = Some(vec![sync_task("i1", "A2", "p1"), sync_task("i3", "C", "p1"), removed]);
        let mut note = Comment::default();
        note.id = "c1".to_string();
        note.item_id = Some("i1".to_string());
        note.content = "hello".to_string();
        r.notes = Some(vec![note]);
        let mut l = Label::default();
        l.id = "l1".to_string();
        l.name = "home".to_string();
        r.labels = Some(vec![l]);
        r
    };
    app.apply_sync_delta(delta());
    let once_tasks: Vec<(String, String)> =
        app.tasks.iter().map(|t| (t.id.clone(), t.content.clone())).collect();
    let once_notes = app.comments_by_task.get("i1").unwrap().len();
    let once_labels = app.labels.len();
    app.apply_sync_delta(delta());
    let twice_tasks: Vec<(String, String)> =
        app.tasks.iter().map(|t| (t.id.clone(), t.content.clone())).collect();
    assert_eq!(once_tasks, twice_tasks);
    assert_eq!(app.comments_by_task.get("i1").unwrap().len(), once_notes);
    assert_eq!(app.labels.len(), once_labels);
    assert_eq!(app.sync_token, "T2");
}

#[test]
fn empty_token_leaves_the_token() {
    let mut app = sync_app();
    app.apply_sync_delta(first_run_reply());
    app.take_effects();
    let r = SyncResponse::empty(false, String::new());
    app.apply_sync_delta(r);
    assert_eq!(app.sync_token, "T1");
    assert!(app.take_effects().is_empty());
}

#[test]
fn failed_sync_leaves_the_token() {
    let mut app = sync_app();
    app.apply_sync_delta(first_run_reply());
    app.take_effects();
    app.handle(BgResult::SyncFailed("network unreachable".to_string()));
    app.handle(BgResult::FlushFailed("timeout".to_string()));
    assert_eq!(app.sync_token, "T1");
    assert!(app.take_effects().is_empty());
    assert_eq!(ids(&app.tasks), vec!["i1", "i2"]);
}

#[test]
fn token_follows_the_last_applied_reply() {
    let mut app = sync_app();
    app.drain_bg_results(vec![
        BgResult::InitialSync(first_run_reply()),
        BgResult::SyncDelta(SyncResponse::empty(false, "T2".to_string())),
        BgResult::SyncFailed("boom".to_string()),
        BgResult::CommandResults(SyncResponse::empty(false, "T3".to_string())),
        BgResult::SyncDelta(SyncResponse::empty(false, String::new())),
    ]);
    assert_eq!(app.sync_token, "T3");
}

#[test]
fn recurring_completion_comes_back_with_the_next_date() {
    let mut app = sync_app();
    let mut r = SyncResponse::empty(true, "T1".to_string());
    let mut t = sync_task("i9", "R", "p1");
    t.due = Some(Due {
        date: "2025-01-01".to_string(),
        is_recurring: true,
        timezone: None,
        string: None,
        datetime: None,
        lang: None,
    });
    r.items = Some(vec![t]);
    r.projects = Some(vec![sync_project("p1", "Inbox")]);
    app.apply_sync_delta(r);
    app.take_effects();
    app.complete_selected_task();
    assert!(app.tasks[0].checked);
    assert_eq!(app.tasks[0].due.as_ref().unwrap().date, "2025-01-01");
    let effects = app.take_effects();
    assert_eq!(effects.len(), 1);
    match &effects[0] {
        Effect::Flush(req) => {
            assert_eq!(req.commands.len(), 1);
            assert_eq!(req.commands[0].kind, "item_complete");
            assert_eq!(req.commands[0].args.id.as_deref(), Some("i9"));
            assert!(req.resource_types.is_empty());
            assert_eq!(req.sync_token, "T1");
        }
        _ => panic!("the command must be flushed"),
    }
    let mut delta = SyncResponse::empty(false, "T2".to_string());
    let mut next = sync_task("i9", "R", "p1");
    next.due = Some(Due {
        date: "2025-01-08".to_string(),
        is_recurring: true,
        timezone: None,
        string: None,
        datetime: None,
        lang: None,
    });
    delta.items = Some(vec![next]);
    app.apply_sync_delta(delta);
    assert_eq!(app.tasks.len(), 1);
    assert!(!app.tasks[0].checked);
    assert_eq!(app.tasks[0].due.as_ref().unwrap().date, "2025-01-08");
    assert_eq!(contents(&app), vec!["R"]);
}

#[test]
fn non_recurring_completion_closes_the_task() {
    let mut app = sync_app();
    app.apply_sync_delta(first_run_reply());
    app.take_effects();
    app.selected_task = 1;
    app.complete_selected_task();
    assert!(app.tasks[1].checked);
    match &app.take_effects()[0] {
        Effect::Flush(req) => assert_eq!(req.commands[0].kind, "item_close"),
        _ => panic!("the command must be flushed"),
    }
    assert_eq!(contents(&app), vec!["A", "B"]);
    assert_eq!(app.selected_task, 1);
    app.selected_task = 0;
    app.complete_selected_task();
    assert!(app.tasks[0].checked);
    assert!(contents(&app).is_empty());
    app.task_filter = TaskFilter::Done;
    assert_eq!(contents(&app), vec!["A", "B"]);
    app.complete_selected_task();
    assert!(!app.tasks[0].checked);
    match &app.take_effects()[1] {
        Effect::Flush(req) => assert_eq!(req.commands[0].kind, "item_reopen"),
        _ => panic!("the command must be flushed"),
    }
}

#[test]
fn user_of_the_reply_is_noted() {
    let mut app = sync_app();
    let mut r = SyncResponse::empty(true, "T1".to_string());
    r.user = Some(UserInfo {
        id: "u1".to_string(),
        full_name: Some("Ada".to_string()),
        email: Some("ada@example.org".to_string()),
        websocket_url: Some("wss://push.example.org/ws".to_string()),
    });
    app.handle(BgResult::InitialSync(r));
    assert_eq!(app.current_user_id.as_deref(), Some("u1"));
    assert_eq!(app.current_user_name.as_deref(), Some("Ada"));
    assert_eq!(app.user_names.get("u1").unwrap().display, "Ada - ada@example.org");
    let effects = app.take_effects();
    assert_eq!(effects.len(), 2);
    match &effects[1] {
        Effect::StartPush(url) => assert_eq!(url, "wss://push.example.org/ws"),
        _ => panic!("the push channel must be started"),
    }
}

#[test]
fn initial_sync_failure_is_shown() {
    let mut app = sync_app();
    app.handle(BgResult::InitialSyncFailed("no route to host".to_string()));
    let e = app.error.as_ref().unwrap();
    assert_eq!(e.title, "Initial sync failed");
    assert_eq!(e.message, "no route to host");
    assert!(e.suggestion.is_none());
    assert!(e.recoverable);
    assert_eq!(app.sync_token, "*");
}

#[test]
fn delta_comments_reach_the_open_detail() {
    let mut app = sync_app();
    app.apply_sync_delta(first_run_reply());
    app.open_detail();
    assert!(app.comments.is_empty());
    let mut delta = SyncResponse::empty(false, "T2".to_string());
    let mut note = Comment::default();
    note.id = "c1".to_string();
    note.item_id = Some("i1".to_string());
    note.content = "first".to_string();
    delta.notes = Some(vec![note]);
    app.apply_sync_delta(delta);
    assert_eq!(app.comments.len(), 1);
    assert_eq!(app.comments[0].content, "first");
    let mut gone = Comment::default();
    gone.id = "c1".to_string();
    gone.item_id = Some("i1".to_string());
    gone.is_deleted = true;
    let mut delta = SyncResponse::empty(false, "T3".to_string());
    delta.notes = Some(vec![gone]);
    app.apply_sync_delta(delta);
    assert!(app.comments.is_empty());
}

#[test]
fn cursor_is_clamped_after_a_sync() {
    let mut app = sync_app();
    app.apply_sync_delta(first_run_reply());
    app.selected_task = 1;
    let mut delta = SyncResponse::empty(false, "T2".to_string());
    let mut removed = sync_task("i2", "B", "p1");
    removed.is_deleted = true;
    delta.items = Some(vec![removed]);
    app.apply_sync_delta(delta);
    assert_eq!(app.selected_task, 0);
    assert_eq!(app.visible_len(), 1);
}

#[test]
fn project_order_is_the_same_after_a_second_delta() {
    let mut app = sync_app();
    let mut first = SyncResponse::empty(true, "T1".to_string());
    let mut a = sync_project("a", "A");
    a.child_order = 2;
    let mut b = sync_project("b", "B");
    b.child_order = 1;
    let mut child = sync_project("c", "C");
    child.parent_id = Some("a".to_string());
    first.projects = Some(vec![a, b, child]);
    app.apply_sync_delta(first);
    let shown = |app: &App| -> Vec<String> { app.projects.iter().map(|p| p.id.clone()).collect() };
    let stored =
        |app: &App| -> Vec<String> { app.project_store.iter().map(|p| p.id.clone()).collect() };
    assert_eq!(shown(&app), vec!["b", "a", "c"]);
    assert_eq!(stored(&app), vec!["a", "b", "c"]);
    let delta = || {
        let mut r = SyncResponse::empty(false, "T2".to_string());
        let mut a = sync_project("a", "A");
        a.child_order = 1;
        let mut d = sync_project("d", "D");
        d.child_order = 1;
        r.projects = Some(vec![a, d]);
        r
    };
    app.apply_sync_delta(delta());
    assert_eq!(stored(&app), vec!["a", "b", "c", "d"]);
    assert_eq!(shown(&app), vec!["a", "c", "b", "d"]);
    app.apply_sync_delta(delta());
    assert_eq!(stored(&app), vec!["a", "b", "c", "d"]);
    assert_eq!(shown(&app), vec!["a", "c", "b", "d"]);
}

#[test]
fn a_delta_that_names_entities_twice_can_be_applied_again() {
    let mut app = sync_app();
    app.apply_sync_delta(first_run_reply());
    let delta = || {
        let mut r = SyncResponse::empty(false, "T2".to_string());
        let mut gone = sync_task("i4", "D", "p1");
        gone.is_deleted = true;
        let mut removed = sync_task("i2", "B", "p1");
        removed.is_deleted = true;
        r.items = Some(vec![
            sync_task("i1", "A2", "p1"),
            sync_task("i4", "D", "p1"),
            sync_task("i5", "E", "p1"),
            sync_task("i1", "A3", "p1"),
            gone,
            removed.clone(),
            removed,
        ]);
        let note = |id: &str, task: &str, text: &str, deleted: bool| {
            let mut c = Comment::default();
            c.id = id.to_string();
            c.item_id = Some(task.to_string());
            c.content = text.to_string();
            c.is_deleted = deleted;
            c
        };
        r.notes = Some(vec![
            note("c1", "i1", "one", false),
            note("c2", "i5", "two", false),
            note("c1", "i1", "one again", false),
            note("c2", "i5", "two", true),
            note("c3", "i9", "three", true),
        ]);
        r
    };
    let state = |app: &App| -> (Vec<(String, String)>, Vec<(String, Vec<String>)>) {
        let tasks = app.tasks.iter().map(|t| (t.id.clone(), t.content.clone())).collect();
        let mut buckets = Vec::new();
        for task in ["i1", "i5", "i9"] {
            if let Some(list) = app.comments_by_task.get(task) {
                buckets.push((task.to_string(), list.iter().map(|c| c.content.clone()).collect()));
            }
        }
        (tasks, buckets)
    };
    app.apply_sync_delta(delta());
    let once = state(&app);
    assert_eq!(
        once.0,
        vec![("i1".to_string(), "A3".to_string()), ("i5".to_string(), "E".to_string())]
    );
    assert_eq!(
        once.1,
        vec![("i1".to_string(), vec!["one again".to_string()]), ("i5".to_string(), vec![])]
    );
    app.apply_sync_delta(delta());
    assert_eq!(state(&app), once);
}

#[test]
fn a_delta_that_brings_back_what_it_deleted_moves_it_to_the_end() {
    let mut app = sync_app();
    let delta = || {
        let mut r = SyncResponse::empty(false, "T2".to_string());
        let mut gone = sync_task("x", "X", "p1");
        gone.is_deleted = true;
        r.items = Some(vec![gone, sync_task("x", "X", "p1"), sync_task("y", "Y", "p1")]);
        r
    };
    app.apply_sync_delta(delta());
    assert_eq!(ids(&app.tasks), vec!["x", "y"]);
    app.apply_sync_delta(delta());
    assert_eq!(ids(&app.tasks), vec!["y", "x"]);
}
