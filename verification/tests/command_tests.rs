use ratatoist::app::{App, CommandKind, Effect};
use ratatoist::commands::{new_temp_id, new_uuid};
use ratatoist::coordinator::BgResult;
use ratatoist::models::{Comment, Project, Task};
use ratatoist::state::{InputMode, OptimisticOp, TaskForm, VimState};
use ratatoist::sync::{SyncCommandError, SyncCommandResult, SyncRequest, SyncResponse};

const NOW: u64 = 1_736_328_600;

fn cmd_task(id: &str, content: &str) -> Task {
    let mut t = Task::default();
    t.id = id.to_string();
    t.content = content.to_string();
    t.project_id = "p1".to_string();
    t.priority = 1;
    t
}

fn cmd_app() -> App {
    let mut app = App::new(vec!["nord".to_string()], 0, "*".to_string(), 300, false, true, NOW);
    let mut r = SyncResponse::empty(true, "T1".to_string());
    let a = cmd_task("i1", "A");
    let mut b = cmd_task("i2", "B");
    b.parent_id = Some("i1".to_string());
    r.items = Some(vec![a, b]);
    let mut inbox = Project::default();
    inbox.id = "p1".to_string();
    inbox.name = "Inbox".to_string();
    inbox.inbox_project = Some(true);
    r.projects = Some(vec![inbox]);
    app.apply_sync_delta(r);
    app
}

fn cmd_contents(app: &App) -> Vec<String> {
    app.visible_tasks().iter().map(|t| t.content.clone()).collect()
}

fn only_flush(app: &mut App) -> SyncRequest {
    let mut effects = app.take_effects();
    assert_eq!(effects.len(), 1);
    match effects.remove(0) {
        Effect::Flush(req) => req,
        _ => panic!("a flush was expected"),
    }
}

fn add_c(app: &mut App) -> SyncRequest {
    app.start_input();
    let mut form = app.task_form.take().unwrap();
    form.content = "C".to_string();
    app.task_form = Some(form);
    app.submit_task_form();
    only_flush(app)
}

fn rejected(uuid: &str, message: &str, tag: Option<&str>) -> SyncResponse {
    let mut r = SyncResponse::empty(false, String::new());
    r.sync_status = vec![(
        uuid.to_string(),
        SyncCommandResult::Rejected(SyncCommandError {
            error_code: 15,
            error: message.to_string(),
            error_tag: tag.map(|t| t.to_string()),
        }),
    )];
    r
}

#[test]
fn uuids_and_temp_ids_have_their_shape() {
    assert_eq!(new_uuid(0xabc, 1), "00000abc-0000000000000001-4000-8000-000000000000");
    assert_eq!(
        new_uuid(u32::MAX, u64::MAX),
        "ffffffff-ffffffffffffffff-4000-8000-000000000000"
    );
    assert_eq!(new_temp_id(0), "tmp_0");
    assert_eq!(new_temp_id(1234), "tmp_1234");
}

#[test]
fn optimistic_add_then_accept() {
    let mut app = cmd_app();
    let req = add_c(&mut app);
    assert_eq!(cmd_contents(&app), vec!["A", "B", "C"]);
    assert_eq!(req.sync_token, "T1");
    assert!(req.resource_types.is_empty());
    assert_eq!(req.commands.len(), 1);
    let cmd = &req.commands[0];
    assert_eq!(cmd.kind, "item_add");
    assert_eq!(cmd.temp_id.as_deref(), Some("tmp_0"));
    assert_eq!(cmd.uuid, "00000000-0000000000000001-4000-8000-000000000000");
    assert_eq!(cmd.args.content.as_deref(), Some("C"));
    assert_eq!(cmd.args.project_id.as_deref(), Some("p1"));
    assert!(cmd.args.priority.is_none());
    assert!(cmd.args.due_string.is_none());
    assert!(app.temp_id_pending.contains_key(&cmd.uuid));
    assert!(app.task_form.is_none());
    assert!(!app.show_input);
    assert_eq!(app.input_mode, InputMode::Vim(VimState::Normal));

    let mut reply = SyncResponse::empty(false, "T1b".to_string());
    reply.sync_status = vec![(cmd.uuid.clone(), SyncCommandResult::Accepted("ok".to_string()))];
    reply.temp_id_mapping = vec![("tmp_0".to_string(), "i3".to_string())];
    app.handle(BgResult::CommandResults(reply));
    assert!(app.error.is_none());
    assert!(!app.temp_id_pending.contains_key(&cmd.uuid));
    assert_eq!(app.tasks.iter().filter(|t| t.id == "tmp_0").count(), 0);
    assert_eq!(app.tasks.iter().filter(|t| t.id == "i3").count(), 1);
    assert_eq!(app.sync_token, "T1b");

    let mut delta = SyncResponse::empty(false, "T2".to_string());
    delta.items = Some(vec![cmd_task("i3", "C")]);
    app.apply_sync_delta(delta);
    assert_eq!(app.tasks.iter().filter(|t| t.id == "i3").count(), 1);
    assert_eq!(app.tasks.iter().filter(|t| t.id == "tmp_0").count(), 0);
    assert_eq!(app.tasks.len(), 3);
    assert_eq!(app.sync_token, "T2");
    assert_eq!(cmd_contents(&app), vec!["A", "B", "C"]);
}

#[test]
fn optimistic_add_then_reject() {
    let mut app = cmd_app();
    let req = add_c(&mut app);
    assert_eq!(cmd_contents(&app), vec!["A", "B", "C"]);
    let uuid = req.commands[0].uuid.clone();
    app.handle(BgResult::CommandResults(rejected(&uuid, "name too long", Some("BAD_REQUEST"))));
    assert_eq!(cmd_contents(&app), vec!["A", "B"]);
    let e = app.error.as_ref().unwrap();
    assert_eq!(e.title, "Create task failed");
    assert_eq!(e.message, "name too long");
    assert!(e.suggestion.as_ref().unwrap().contains("natural language"));
    assert!(e.recoverable);
    assert!(!app.temp_id_pending.contains_key(&uuid));
    assert_eq!(app.sync_token, "T1");
}

#[test]
fn form_with_due_text_and_priority_sends_both() {
    let mut app = cmd_app();
    let mut form = TaskForm::new("p1".to_string());
    form.content = "  pay rent ".to_string();
    form.due_string = "tomorrow".to_string();
    form.priority = 3;
    app.task_form = Some(form);
    app.submit_task_form();
    let req = only_flush(&mut app);
    assert_eq!(req.commands[0].args.content.as_deref(), Some("  pay rent "));
    assert_eq!(req.commands[0].args.due_string.as_deref(), Some("tomorrow"));
    assert_eq!(req.commands[0].args.priority, Some(3));
    let added = app.tasks.last().unwrap();
    assert_eq!(added.priority, 3);
    assert!(added.due.is_none());
    assert!(!added.checked);
    assert_eq!(added.project_id, "p1");
}

#[test]
fn blank_form_is_dropped() {
    let mut app = cmd_app();
    let mut form = TaskForm::new("p1".to_string());
    form.content = " \t ".to_string();
    app.task_form = Some(form);
    app.show_input = true;
    app.submit_task_form();
    assert_eq!(app.tasks.len(), 2);
    assert!(app.task_form.is_none());
    assert!(!app.show_input);
    assert!(app.take_effects().is_empty());
    app.submit_task_form();
    assert!(app.take_effects().is_empty());
}

#[test]
fn rollback_restores_an_updated_task() {
    let mut app = cmd_app();
    app.tasks[0].labels = vec!["home".to_string()];
    app.selected_task = 0;
    app.detail_field = 0;
    app.submit_field_edit("A changed".to_string());
    assert_eq!(app.tasks[0].content, "A changed");
    let req = only_flush(&mut app);
    assert_eq!(req.commands[0].kind, "item_update");
    assert_eq!(req.commands[0].args.id.as_deref(), Some("i1"));
    assert_eq!(req.commands[0].args.content.as_deref(), Some("A changed"));
    app.handle(BgResult::CommandResults(rejected(&req.commands[0].uuid, "no", Some("FORBIDDEN"))));
    assert_eq!(app.tasks[0].content, "A");
    assert_eq!(app.tasks[0].labels, vec!["home"]);
    assert_eq!(app.tasks.len(), 2);
    let e = app.error.as_ref().unwrap();
    assert_eq!(e.title, "Update task failed");
    assert_eq!(e.suggestion.as_deref(), Some("You don't have permission for this action."));
}

#[test]
fn rollback_restores_priority_description_and_completion() {
    let mut app = cmd_app();
    app.apply_priority(4);
    assert_eq!(app.tasks[0].priority, 4);
    let req = only_flush(&mut app);
    assert_eq!(req.commands[0].args.priority, Some(4));
    app.handle(BgResult::CommandResults(rejected(&req.commands[0].uuid, "no", None)));
    assert_eq!(app.tasks[0].priority, 1);
    assert!(app.error.as_ref().unwrap().suggestion.is_none());

    app.apply_priority(1);
    assert!(app.take_effects().is_empty());

    app.detail_field = 3;
    app.submit_field_edit("notes".to_string());
    assert_eq!(app.tasks[0].description, "notes");
    let req = only_flush(&mut app);
    assert_eq!(req.commands[0].args.description.as_deref(), Some("notes"));
    app.handle(BgResult::CommandResults(rejected(&req.commands[0].uuid, "no", None)));
    assert_eq!(app.tasks[0].description, "");

    app.detail_field = 2;
    app.submit_field_edit("next monday".to_string());
    assert!(app.tasks[0].due.is_none());
    let req = only_flush(&mut app);
    assert_eq!(req.commands[0].args.due_string.as_deref(), Some("next monday"));

    app.detail_field = 1;
    app.submit_field_edit("ignored".to_string());
    assert!(app.take_effects().is_empty());

    app.complete_selected_task();
    assert!(app.tasks[0].checked);
    let req = only_flush(&mut app);
    app.handle(BgResult::CommandResults(rejected(&req.commands[0].uuid, "no", Some("NOT_FOUND"))));
    assert!(!app.tasks[0].checked);
    let e = app.error.as_ref().unwrap();
    assert_eq!(e.title, "Complete task failed");
    assert_eq!(e.suggestion.as_deref(), Some("The item may have been deleted. Try refreshing."));
}

#[test]
fn comment_add_and_rollback() {
    let mut app = cmd_app();
    app.current_user_id = Some("u1".to_string());
    app.open_detail();
    app.take_effects();
    let seq_before = app.comments_fetch_seq;
    app.submit_comment("looks good".to_string());
    assert_eq!(app.comments.len(), 1);
    let c = &app.comments[0];
    assert_eq!(c.id, "tmp_0");
    assert_eq!(c.content, "looks good");
    assert_eq!(c.item_id.as_deref(), Some("i1"));
    assert_eq!(c.task_id.as_deref(), Some("i1"));
    assert_eq!(c.posted_by_uid.as_deref(), Some("u1"));
    assert_eq!(c.posted_at.as_deref(), Some("2025-01-08T09:30:00+00:00"));
    assert_eq!(app.comments_fetch_seq, seq_before + 1);
    let req = only_flush(&mut app);
    assert_eq!(req.commands[0].kind, "note_add");
    assert_eq!(req.commands[0].args.item_id.as_deref(), Some("i1"));
    assert_eq!(req.commands[0].args.content.as_deref(), Some("looks good"));
    assert_eq!(req.commands[0].temp_id.as_deref(), Some("tmp_0"));
    app.handle(BgResult::CommandResults(rejected(&req.commands[0].uuid, "no", Some("UNAUTHORIZED"))));
    assert!(app.comments.is_empty());
    let e = app.error.as_ref().unwrap();
    assert_eq!(e.title, "Add comment failed");
    assert_eq!(
        e.suggestion.as_deref(),
        Some("Your API token may have expired. Check your config.")
    );
}

#[test]
fn accepted_comment_refreshes_the_open_detail() {
    let mut app = cmd_app();
    app.open_detail();
    app.submit_comment("hi".to_string());
    let effects = app.take_effects();
    let uuid = match &effects[1] {
        Effect::Flush(req) => req.commands[0].uuid.clone(),
        _ => panic!("a flush was expected"),
    };
    let seq = app.comments_fetch_seq;
    let mut reply = SyncResponse::empty(false, "T2".to_string());
    reply.sync_status = vec![(uuid, SyncCommandResult::Accepted("ok".to_string()))];
    reply.temp_id_mapping = vec![("tmp_0".to_string(), "c77".to_string())];
    app.handle(BgResult::CommandResults(reply));
    assert_eq!(app.comments[0].id, "c77");
    let effects = app.take_effects();
    assert_eq!(effects.len(), 1);
    match &effects[0] {
        Effect::FetchComments { task_id, fetch_seq } => {
            assert_eq!(task_id, "i1");
            assert_eq!(*fetch_seq, seq + 1);
        }
        _ => panic!("the comments must be fetched"),
    }
}

#[test]
fn temp_id_mapping_renames_tasks_and_comments() {
    let mut app = cmd_app();
    app.tasks.push(cmd_task("tmp_5", "new"));
    let mut c = Comment::default();
    c.id = "tmp_6".to_string();
    c.item_id = Some("tmp_5".to_string());
    let mut d = Comment::default();
    d.id = "c1".to_string();
    d.item_id = Some("i1".to_string());
    app.comments = vec![c, d];
    app.apply_temp_id_mapping("tmp_5", "i9");
    assert_eq!(app.tasks[2].id, "i9");
    assert_eq!(app.tasks[2].content, "new");
    assert_eq!(app.comments[0].item_id.as_deref(), Some("i9"));
    assert_eq!(app.comments[0].id, "tmp_6");
    assert_eq!(app.comments[1].item_id.as_deref(), Some("i1"));
    app.apply_temp_id_mapping("tmp_6", "c9");
    assert_eq!(app.comments[0].id, "c9");
    assert!(app.tasks.iter().all(|t| !t.id.starts_with("tmp_")));
}

#[test]
fn star_and_rollback() {
    let mut app = cmd_app();
    let mut work = Project::default();
    work.id = "p2".to_string();
    work.name = "Work".to_string();
    work.child_order = 2;
    let mut home = Project::default();
    home.id = "p3".to_string();
    home.name = "Home".to_string();
    home.child_order = 1;
    let mut r = SyncResponse::empty(false, "T2".to_string());
    r.projects = Some(vec![work, home]);
    app.apply_sync_delta(r);
    let order: Vec<&str> = app.projects.iter().map(|p| p.id.as_str()).collect();
    assert_eq!(order, vec!["p1", "p3", "p2"]);
    app.selected_project = 2;
    app.star_selected_project();
    let order: Vec<&str> = app.projects.iter().map(|p| p.id.as_str()).collect();
    assert_eq!(order, vec!["p1", "p2", "p3"]);
    assert_eq!(app.selected_project, 1);
    assert!(app.projects[1].is_favorite);
    let req = only_flush(&mut app);
    assert_eq!(req.commands[0].kind, "project_update");
    assert_eq!(req.commands[0].args.id.as_deref(), Some("p2"));
    assert_eq!(req.commands[0].args.is_favorite, Some(true));
    app.handle(BgResult::CommandResults(rejected(&req.commands[0].uuid, "no", None)));
    let order: Vec<&str> = app.projects.iter().map(|p| p.id.as_str()).collect();
    assert_eq!(order, vec!["p1", "p3", "p2"]);
    assert!(!app.projects[2].is_favorite);
    assert_eq!(app.selected_project, 2);
    assert_eq!(app.error.as_ref().unwrap().title, "Update project failed");
}

#[test]
fn copies_of_tasks_keep_their_json_values() {
    let mut t = cmd_task("i1", "A");
    t.deadline = serde_json::from_str("{\"date\":\"2025-02-01\",\"n\":[1,2]}").ok();
    t.labels = vec!["x".to_string(), "y".to_string()];
    let copy = t.clone();
    assert!(copy.deadline.is_some());
    assert_eq!(copy.deadline, t.deadline);
    assert_eq!(copy.labels, t.labels);
    assert_eq!(copy.id, "i1");
    assert!(copy.duration.is_none());
}

#[test]
fn revert_puts_a_removed_task_back() {
    let mut app = cmd_app();
    app.revert_optimistic(OptimisticOp::TaskRemoved { snapshot: cmd_task("i5", "E") });
    assert_eq!(app.tasks.len(), 3);
    assert_eq!(app.tasks[2].id, "i5");
    app.revert_optimistic(OptimisticOp::TaskAdded { temp_id: "i5".to_string() });
    assert_eq!(app.tasks.len(), 2);
}

#[test]
fn unknown_uuid_shows_a_plain_error() {
    let mut app = cmd_app();
    app.handle(BgResult::CommandResults(rejected("nobody", "bad", Some("INVALID_DATE_FORMAT"))));
    let e = app.error.as_ref().unwrap();
    assert_eq!(e.title, "Command failed");
    assert_eq!(e.message, "bad");
    assert!(e.suggestion.as_ref().unwrap().contains("next monday"));
    assert_eq!(app.tasks.len(), 2);
}

#[test]
fn outcome_helpers_tell_rejections_apart() {
    let ok = SyncCommandResult::Accepted("ok".to_string());
    let bad = SyncCommandResult::Rejected(SyncCommandError {
        error_code: 1,
        error: "nope".to_string(),
        error_tag: None,
    });
    assert!(!ok.is_err());
    assert!(bad.is_err());
    assert_eq!(ok.error_message(), None);
    assert_eq!(bad.error_message(), Some("nope"));
    assert_eq!(CommandKind::TaskAdd, CommandKind::TaskAdd);
}

#[test]
fn commands_count_up() {
    let mut app = cmd_app();
    app.task_filter = ratatoist::state::TaskFilter::Both;
    app.complete_selected_task();
    app.complete_selected_task();
    let effects = app.take_effects();
    let uuids: Vec<String> = effects
        .iter()
        .map(|e| match e {
            Effect::Flush(r) => r.commands[0].uuid.clone(),
            _ => panic!("a flush was expected"),
        })
        .collect();
    assert_eq!(uuids.len(), 2);
    assert_ne!(uuids[0], uuids[1]);
    assert_eq!(app.command_counter, 2);
    assert!(app.pending_commands.is_empty());
}

#[test]
fn star_rollback_restores_the_order_of_equal_siblings() {
    let mut app = cmd_app();
    let mut a = Project::default();
    a.id = "a".to_string();
    a.child_order = 5;
    let mut b = Project::default();
    b.id = "b".to_string();
    b.child_order = 5;
    let mut r = SyncResponse::empty(false, "T2".to_string());
    r.projects = Some(vec![a, b]);
    app.apply_sync_delta(r);
    let order: Vec<&str> = app.projects.iter().map(|p| p.id.as_str()).collect();
    assert_eq!(order, vec!["p1", "a", "b"]);
    app.selected_project = 2;
    app.star_selected_project();
    let order: Vec<&str> = app.projects.iter().map(|p| p.id.as_str()).collect();
    assert_eq!(order, vec!["p1", "b", "a"]);
    let stored: Vec<&str> = app.project_store.iter().map(|p| p.id.as_str()).collect();
    assert_eq!(stored, vec!["p1", "a", "b"]);
    assert!(app.project_store[2].is_favorite);
    let req = only_flush(&mut app);
    app.handle(BgResult::CommandResults(rejected(&req.commands[0].uuid, "no", None)));
    let order: Vec<&str> = app.projects.iter().map(|p| p.id.as_str()).collect();
    assert_eq!(order, vec!["p1", "a", "b"]);
    assert!(!app.project_store[2].is_favorite);
    assert!(!app.projects[2].is_favorite);
    assert_eq!(app.selected_project, 2);
}

#[test]
fn temp_id_mapping_reaches_the_comment_buckets() {
    let mut app = cmd_app();
    let note = |id: &str, task: &str| {
        let mut c = Comment::default();
        c.id = id.to_string();
        c.item_id = Some(task.to_string());
        c.task_id = Some(task.to_string());
        c
    };
    app.comments = vec![note("c5", "tmp_5")];
    app.comments_by_task.insert("tmp_5".to_string(), vec![note("c5", "tmp_5"), note("tmp_7", "tmp_5")]);
    app.comments_by_task.insert("i9".to_string(), vec![note("c1", "i9")]);
    app.comments_by_task.insert("i1".to_string(), vec![note("c2", "i1"), note("c3", "tmp_5")]);
    app.apply_temp_id_mapping("tmp_5", "i9");
    assert_eq!(app.comments[0].item_id.as_deref(), Some("i9"));
    assert_eq!(app.comments[0].task_id.as_deref(), Some("i9"));
    assert!(!app.comments_by_task.contains_key("tmp_5"));
    assert_eq!(app.comments_by_task.len(), 2);
    let moved = app.comments_by_task.get("i9").unwrap();
    let ids: Vec<&str> = moved.iter().map(|c| c.id.as_str()).collect();
    assert_eq!(ids, vec!["c1", "c5", "tmp_7"]);
    assert!(moved.iter().all(|c| c.item_id.as_deref() == Some("i9")));
    assert!(moved.iter().all(|c| c.task_id.as_deref() == Some("i9")));
    let other = app.comments_by_task.get("i1").unwrap();
    assert_eq!(other[0].item_id.as_deref(), Some("i1"));
    assert_eq!(other[1].id, "c3");
    assert_eq!(other[1].item_id.as_deref(), Some("i9"));
    assert_eq!(other[1].task_id.as_deref(), Some("i9"));
    app.apply_temp_id_mapping("tmp_7", "c8");
    let ids: Vec<&str> =
        app.comments_by_task.get("i9").unwrap().iter().map(|c| c.id.as_str()).collect();
    assert_eq!(ids, vec!["c1", "c5", "c8"]);
    app.apply_temp_id_mapping("i1", "i1");
    assert_eq!(app.comments_by_task.get("i1").unwrap().len(), 2);
}

#[test]
fn a_refused_comment_leaves_whatever_row_is_selected() {
    let mut app = cmd_app();
    app.open_detail();
    app.take_effects();
    app.submit_comment("wrong place".to_string());
    let req = only_flush(&mut app);
    assert_eq!(app.comments.len(), 1);
    app.selected_task = 1;
    assert_eq!(app.selected_task().unwrap().id, "i2");
    app.handle(BgResult::CommandResults(rejected(&req.commands[0].uuid, "no", None)));
    assert!(app.comments.is_empty());
    assert_eq!(app.error.as_ref().unwrap().title, "Add comment failed");
}

#[test]
fn a_comment_is_stamped_with_the_clock_reading() {
    let mut app = cmd_app();
    app.open_detail();
    app.now_nanos = 0;
    app.submit_comment("one".to_string());
    assert_eq!(app.comments[0].posted_at.as_deref(), Some("2025-01-08T09:30:00+00:00"));
    app.now_nanos = 250_000_000;
    app.submit_comment("two".to_string());
    assert_eq!(app.comments[1].posted_at.as_deref(), Some("2025-01-08T09:30:00.250+00:00"));
    app.set_clock(0);
    app.submit_comment("three".to_string());
    assert_eq!(app.comments[2].posted_at.as_deref(), Some("1970-01-01T00:00:00.250+00:00"));
}
