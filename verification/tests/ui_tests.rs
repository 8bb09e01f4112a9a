use ratatoist::app::{App, Effect};
use ratatoist::models::{Comment, Due, Project, Task};
use ratatoist::state::{
    dock_items, DockItem, InputMode, Pane, SortMode, TaskFilter, TaskForm, UserRecord, VimState,
};
use ratatoist::sync::SyncResponse;
use ratatoist::theme::{is_color, parse_hex, Base16Scheme, Rgb, Theme};

const NOW: u64 = 1_736_328_600;

fn ui_app() -> App {
    let mut app = App::new(vec!["nord".to_string()], 0, "*".to_string(), 300, false, true, NOW);
    let mut r = SyncResponse::empty(true, "T1".to_string());
    let mut t = Task::default();
    t.id = "i1".to_string();
    t.content = "A".to_string();
    t.description = "about A".to_string();
    t.project_id = "p1".to_string();
    t.priority = 2;
    t.due = Some(Due {
        date: "2025-01-09".to_string(),
        is_recurring: false,
        timezone: None,
        string: Some("tomorrow".to_string()),
        datetime: None,
        lang: None,
    });
    r.items = Some(vec![t]);
    let mut p1 = Project::default();
    p1.id = "p1".to_string();
    p1.name = "Inbox".to_string();
    p1.child_order = 1;
    let mut p2 = Project::default();
    p2.id = "p2".to_string();
    p2.name = "Work".to_string();
    p2.child_order = 2;
    r.projects = Some(vec![p1, p2]);
    app.apply_sync_delta(r);
    app
}

#[test]
fn labels_of_modes_filters_and_sorts() {
    assert_eq!(InputMode::Standard.label(), "STANDARD");
    assert_eq!(InputMode::Vim(VimState::Normal).label(), "NORMAL");
    assert_eq!(InputMode::Vim(VimState::Visual).label(), "VISUAL");
    assert_eq!(InputMode::Vim(VimState::Insert).label(), "INSERT");
    assert!(InputMode::Vim(VimState::Insert).is_vim());
    assert!(!InputMode::Standard.is_vim());
    assert_eq!(TaskFilter::Active.next(), TaskFilter::Done);
    assert_eq!(TaskFilter::Done.next(), TaskFilter::Both);
    assert_eq!(TaskFilter::Both.next(), TaskFilter::Active);
    assert_eq!(SortMode::Default.label(), "order");
    assert_eq!(SortMode::Priority.label(), "priority");
    assert_eq!(SortMode::DueDate.label(), "due");
    assert_eq!(SortMode::Created.label(), "created");
    assert_eq!(SortMode::Default.next(), SortMode::Priority);
    assert_eq!(SortMode::Priority.next(), SortMode::DueDate);
    assert_eq!(SortMode::DueDate.next(), SortMode::Created);
    assert_eq!(SortMode::Created.next(), SortMode::Default);
    assert_eq!(DockItem::DueOverdue.hint(), "overdue");
    assert_eq!(DockItem::DueToday.hint(), "due today");
    assert_eq!(DockItem::DueWeek.hint(), "due this week");
    assert_eq!(DockItem::Priority(4).hint(), "urgent (P1)");
    assert_eq!(DockItem::Priority(3).hint(), "high (P2)");
    assert_eq!(DockItem::Priority(2).hint(), "medium (P3)");
    assert_eq!(DockItem::Priority(1).hint(), "no priority");
    assert_eq!(DockItem::Priority(0).hint(), "by priority");
    let items = dock_items();
    assert_eq!(items[0], DockItem::DueOverdue);
    assert_eq!(items[3], DockItem::Priority(4));
    assert_eq!(items[6], DockItem::Priority(1));
}

#[test]
fn user_records_pick_a_display_name() {
    let u = UserRecord::new("u1".to_string(), Some("Ada".to_string()), Some("a@x.org".to_string()));
    assert_eq!(u.display, "Ada - a@x.org");
    assert_eq!(u.full_name, "Ada");
    assert_eq!(u.email, "a@x.org");
    let u = UserRecord::new("u1".to_string(), Some("Ada".to_string()), None);
    assert_eq!(u.display, "Ada");
    let u = UserRecord::new("u1".to_string(), Some(String::new()), Some("a@x.org".to_string()));
    assert_eq!(u.display, "a@x.org");
    let u = UserRecord::new("u1".to_string(), None, None);
    assert_eq!(u.display, "u1");
    assert_eq!(u.id, "u1");
}

#[test]
fn forms_start_empty() {
    let f = TaskForm::new("p1".to_string());
    assert_eq!(f.content, "");
    assert_eq!(f.priority, 1);
    assert_eq!(f.due_string, "");
    assert_eq!(f.project_id, "p1");
    assert_eq!(f.active_field, 0);
    assert!(f.editing);
    assert_eq!(TaskForm::field_count(), 4);
}

#[test]
fn form_is_filled_field_by_field() {
    let mut app = ui_app();
    app.start_input();
    assert!(app.show_input);
    assert_eq!(app.input_mode, InputMode::Vim(VimState::Insert));
    assert_eq!(app.task_form.as_ref().unwrap().project_id, "p1");
    app.input_buffer = "  buy milk ".to_string();
    app.submit_input();
    let form = app.task_form.as_ref().unwrap();
    assert_eq!(form.content, "buy milk");
    assert!(!form.editing);
    assert!(!app.show_input);
    assert_eq!(app.input_buffer, "");
    assert_eq!(app.input_mode, InputMode::Vim(VimState::Normal));
    app.form_field_up();
    assert_eq!(app.task_form.as_ref().unwrap().active_field, 3);
    app.form_edit_field();
    assert_eq!(app.task_form.as_ref().unwrap().project_id, "p2");
    app.form_edit_field();
    assert_eq!(app.task_form.as_ref().unwrap().project_id, "p1");
    app.form_field_down();
    assert_eq!(app.task_form.as_ref().unwrap().active_field, 0);
    app.form_field_down();
    app.form_edit_field();
    assert!(app.show_priority_picker);
    assert_eq!(app.priority_selection, 1);
    app.priority_selection = 4;
    app.select_priority();
    assert_eq!(app.task_form.as_ref().unwrap().priority, 4);
    assert!(!app.show_priority_picker);
    app.form_field_down();
    app.form_edit_field();
    assert!(app.task_form.as_ref().unwrap().editing);
    assert!(app.show_input);
    app.form_field_down();
    assert_eq!(app.task_form.as_ref().unwrap().active_field, 2);
    app.input_buffer = "friday".to_string();
    app.submit_input();
    assert_eq!(app.task_form.as_ref().unwrap().due_string, "friday");
    app.submit_task_form();
    assert_eq!(app.tasks.len(), 2);
    assert_eq!(app.tasks[1].content, "buy milk");
    assert_eq!(app.tasks[1].priority, 4);
    match &app.take_effects()[0] {
        Effect::Flush(req) => {
            assert_eq!(req.commands[0].args.due_string.as_deref(), Some("friday"));
            assert_eq!(req.commands[0].args.priority, Some(4));
        }
        _ => panic!("a flush was expected"),
    }
}

#[test]
fn input_line_submits_comments_and_edits() {
    let mut app = ui_app();
    app.open_detail();
    app.take_effects();
    app.start_comment_input();
    assert!(app.comment_input);
    app.input_buffer = "  ".to_string();
    app.submit_input();
    assert!(app.comments.is_empty());
    assert!(!app.comment_input);
    assert!(app.take_effects().is_empty());
    app.start_comment_input();
    app.input_buffer = " nice ".to_string();
    app.submit_input();
    assert_eq!(app.comments.len(), 1);
    assert_eq!(app.comments[0].content, "nice");
    assert!(!app.show_input);
    app.take_effects();

    app.detail_field = 0;
    app.start_field_edit();
    assert!(app.editing_field);
    assert_eq!(app.input_buffer, "A");
    app.input_buffer = "A!".to_string();
    app.submit_input();
    assert_eq!(app.tasks[0].content, "A!");
    assert!(!app.editing_field);
    app.detail_field = 2;
    app.start_field_edit();
    assert_eq!(app.input_buffer, "tomorrow");
    app.cancel_input();
    assert_eq!(app.input_buffer, "");
    app.detail_field = 3;
    app.start_field_edit();
    assert_eq!(app.input_buffer, "about A");
    app.cancel_input();
    app.detail_field = 1;
    app.start_field_edit();
    assert!(app.show_priority_picker);
    assert_eq!(app.priority_selection, 2);
    assert!(!app.show_input);
    app.submit_input();
    assert!(!app.show_input);
}

#[test]
fn detail_shows_cached_comments_at_once() {
    let mut app = ui_app();
    let mut c = Comment::default();
    c.id = "c1".to_string();
    c.content = "kept".to_string();
    app.comments_by_task.insert("i1".to_string(), vec![c]);
    app.detail_scroll = 4;
    app.detail_field = 2;
    app.open_detail();
    assert_eq!(app.active_pane, Pane::Detail);
    assert_eq!(app.detail_scroll, 0);
    assert_eq!(app.detail_field, 0);
    assert_eq!(app.comments.len(), 1);
    assert_eq!(app.comments[0].content, "kept");
    match &app.take_effects()[0] {
        Effect::FetchComments { task_id, fetch_seq } => {
            assert_eq!(task_id, "i1");
            assert_eq!(*fetch_seq, 1);
        }
        _ => panic!("the comments must be fetched"),
    }
    app.selected_task = 5;
    app.active_pane = Pane::Tasks;
    app.open_detail();
    assert_eq!(app.active_pane, Pane::Tasks);
    app.selected_task = 0;
    app.selected_project = 1;
    app.dock_filter = Some(DockItem::Priority(2));
    app.open_detail();
    assert_eq!(app.selected_project, 0);
}

#[test]
fn small_steps_of_the_interface() {
    let mut app = ui_app();
    app.selected_task = 3;
    app.detail_scroll = 2;
    app.switch_to_project_tasks();
    assert_eq!((app.selected_task, app.detail_scroll), (0, 0));
    app.toggle_input_mode();
    assert_eq!(app.input_mode, InputMode::Standard);
    app.start_input();
    assert_eq!(app.input_mode, InputMode::Standard);
    app.cancel_input();
    app.toggle_input_mode();
    assert_eq!(app.input_mode, InputMode::Vim(VimState::Normal));
    app.move_detail_field(-1);
    assert_eq!(app.detail_field, 3);
    app.move_detail_field(1);
    assert_eq!(app.detail_field, 0);
    app.move_detail_field(6);
    assert_eq!(app.detail_field, 2);
    assert_eq!(app.theme(), "nord");
    assert_eq!(app.sync_age_label(0), "2025-01-08 09:30");
    assert_eq!(app.sync_age_label(3600), "2025-01-08 10:30");
    assert_eq!(app.sync_age_label(-36_000), "2025-01-07 23:30");
    assert_eq!(app.sync_age_label(86_400), "--");
    let fresh = App::new(vec![], 0, "*".to_string(), 300, false, true, NOW);
    assert_eq!(fresh.sync_age_label(0), "--");
    let mut fresh = fresh;
    fresh.save_ui_settings();
    assert!(fresh.take_effects().is_empty());
}

#[test]
fn colors_are_read_from_hex() {
    assert_eq!(parse_hex("#ff8000"), Rgb { r: 255, g: 128, b: 0 });
    assert_eq!(parse_hex("0A0b0C"), Rgb { r: 10, g: 11, b: 12 });
    assert_eq!(parse_hex("##123456"), Rgb { r: 0x12, g: 0x34, b: 0x56 });
    assert_eq!(parse_hex("#zz+1-1"), Rgb { r: 0, g: 1, b: 0 });
    assert_eq!(parse_hex("#1234567"), Rgb { r: 0x12, g: 0x34, b: 0x56 });
    assert!(is_color("#000000"));
    assert!(!is_color("#00000"));
    assert!(!is_color(""));
}

#[test]
fn themes_take_their_colors_from_the_scheme() {
    let s = Base16Scheme {
        name: "test".to_string(),
        base00: "#000001".to_string(),
        base01: "#000002".to_string(),
        base02: "#000003".to_string(),
        base03: "#000004".to_string(),
        base04: "#000005".to_string(),
        base05: "#000006".to_string(),
        base06: "#000007".to_string(),
        base07: "#000008".to_string(),
        base08: "#000009".to_string(),
        base09: "#00000a".to_string(),
        base0a: "#00000b".to_string(),
        base0b: "#00000c".to_string(),
        base0c: "#00000d".to_string(),
        base0d: "#00000e".to_string(),
        base0e: "#00000f".to_string(),
        base0f: "#640010".to_string(),
    };
    assert!(s.is_well_formed());
    let t = Theme::from_scheme(&s);
    assert_eq!(t.name, "test");
    assert_eq!(t.base.b, 1);
    assert_eq!(t.muted.b, 4);
    assert_eq!(t.red.b, 9);
    assert_eq!(t.yellow.b, 11);
    assert_eq!(t.maroon, Rgb { r: 100, g: 0, b: 16 });
    assert_eq!(t.priority_color(4), t.red);
    assert_eq!(t.priority_color(3), t.orange);
    assert_eq!(t.priority_color(2), t.yellow);
    assert_eq!(t.priority_color(1), t.muted);
    assert_eq!(Theme::priority_dot(3), "● ");
    assert_eq!(Theme::priority_dot(1), "  ");
    let (front, back) = t.dim_overlay();
    assert_eq!(front, t.muted);
    assert_eq!(back, Rgb { r: 0, g: 0, b: 0 });
    let mut bad = s;
    bad.base05 = "#fff".to_string();
    assert!(!bad.is_well_formed());
}
