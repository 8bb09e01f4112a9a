use ratatoist::app::App;
use ratatoist::models::{Due, Project, Section, Task};
use ratatoist::state::{DockItem, SortMode, TaskFilter};
use ratatoist::sync::SyncResponse;

const NOW: u64 = 1_736_328_600;

fn sel_task(id: &str, project: &str, order: i32) -> Task {
    let mut t = Task::default();
    t.id = id.to_string();
    t.content = id.to_string();
    t.project_id = project.to_string();
    t.child_order = order;
    t.priority = 1;
    t
}

fn sel_due(date: &str) -> Option<Due> {
    Some(Due {
        date: date.to_string(),
        is_recurring: false,
        timezone: None,
        string: None,
        datetime: None,
        lang: None,
    })
}

fn sel_project(id: &str, order: i32) -> Project {
    let mut p = Project::default();
    p.id = id.to_string();
    p.name = id.to_string();
    p.child_order = order;
    p
}

fn sel_app(tasks: Vec<Task>) -> App {
    let mut app = App::new(vec![], 0, "*".to_string(), 300, false, true, NOW);
    let mut r = SyncResponse::empty(true, "T".to_string());
    r.items = Some(tasks);
    r.projects = Some(vec![sel_project("p1", 1), sel_project("p2", 2)]);
    app.apply_sync_delta(r);
    app
}

fn row_ids(app: &App) -> Vec<String> {
    app.visible_tasks().iter().map(|t| t.id.clone()).collect()
}

fn ordering_fixture() -> Vec<Task> {
    let mut a = sel_task("a", "p1", 3);
    a.priority = 2;
    a.due = sel_due("2025-03-01");
    a.added_at = Some("2025-01-03T00:00:00Z".to_string());
    let mut b = sel_task("b", "p1", 1);
    b.priority = 4;
    b.added_at = Some("2025-01-01T00:00:00Z".to_string());
    let mut c = sel_task("c", "p1", 2);
    c.priority = 2;
    c.due = sel_due("2025-02-01");
    c.added_at = Some("2025-01-02T00:00:00Z".to_string());
    let mut d = sel_task("d", "p1", 4);
    d.priority = 1;
    d.due = sel_due("2025-02-01");
    vec![a, b, c, d]
}

#[test]
fn default_sort_orders_by_section_then_child_order() {
    let mut tasks = ordering_fixture();
    tasks[1].section_id = Some("s2".to_string());
    tasks[2].section_id = Some("s1".to_string());
    tasks[3].section_id = Some("unknown".to_string());
    let mut app = sel_app(tasks);
    let mut s1 = Section::default();
    s1.id = "s1".to_string();
    s1.project_id = "p1".to_string();
    s1.section_order = Some(1);
    let mut s2 = Section::default();
    s2.id = "s2".to_string();
    s2.project_id = "p1".to_string();
    s2.section_order = Some(2);
    app.sections = vec![s2, s1];
    assert_eq!(row_ids(&app), vec!["a", "d", "c", "b"]);
}

#[test]
fn default_sort_without_sections_is_child_order() {
    let app = sel_app(ordering_fixture());
    assert_eq!(row_ids(&app), vec!["b", "c", "a", "d"]);
}

#[test]
fn priority_sort_puts_the_most_urgent_first_and_is_stable() {
    let mut app = sel_app(ordering_fixture());
    app.sort_mode = SortMode::Priority;
    assert_eq!(row_ids(&app), vec!["b", "a", "c", "d"]);
}

#[test]
fn due_date_sort_puts_missing_dates_last() {
    let mut app = sel_app(ordering_fixture());
    app.sort_mode = SortMode::DueDate;
    assert_eq!(row_ids(&app), vec!["c", "d", "a", "b"]);
}

#[test]
fn created_sort_puts_the_newest_first() {
    let mut app = sel_app(ordering_fixture());
    app.sort_mode = SortMode::Created;
    assert_eq!(row_ids(&app), vec!["a", "c", "b", "d"]);
}

#[test]
fn only_the_selected_project_is_shown() {
    let mut tasks = ordering_fixture();
    tasks.push(sel_task("z", "p2", 1));
    let mut app = sel_app(tasks);
    assert_eq!(row_ids(&app), vec!["b", "c", "a", "d"]);
    app.selected_project = 1;
    assert_eq!(row_ids(&app), vec!["z"]);
    app.selected_project = 7;
    assert!(row_ids(&app).is_empty());
}

fn tree_fixture() -> Vec<Task> {
    let root = sel_task("r", "p1", 1);
    let mut k2 = sel_task("k2", "p1", 2);
    k2.parent_id = Some("r".to_string());
    let mut k1 = sel_task("k1", "p1", 1);
    k1.parent_id = Some("r".to_string());
    let mut g = sel_task("g", "p1", 1);
    g.parent_id = Some("k1".to_string());
    let other = sel_task("o", "p1", 2);
    vec![root, k2, k1, g, other]
}

#[test]
fn children_follow_their_parent_in_child_order() {
    let app = sel_app(tree_fixture());
    assert_eq!(row_ids(&app), vec!["r", "k1", "g", "k2", "o"]);
    assert_eq!(app.visible_len(), 5);
}

#[test]
fn collapsed_subtrees_are_skipped() {
    let mut app = sel_app(tree_fixture());
    app.collapsed.insert("k1".to_string());
    assert_eq!(row_ids(&app), vec!["r", "k1", "k2", "o"]);
    app.collapsed.insert("r".to_string());
    assert_eq!(row_ids(&app), vec!["r", "o"]);
}

#[test]
fn toggle_collapse_folds_parents_and_leaves() {
    let mut app = sel_app(tree_fixture());
    app.selected_task = 0;
    app.toggle_collapse();
    assert!(app.is_collapsed("r"));
    assert_eq!(row_ids(&app), vec!["r", "o"]);
    app.toggle_collapse();
    assert!(!app.is_collapsed("r"));
    app.selected_task = 2;
    app.toggle_collapse();
    assert!(app.is_collapsed("k1"));
    assert_eq!(app.selected_task, 1);
    assert_eq!(row_ids(&app), vec!["r", "k1", "k2", "o"]);
    app.selected_task = 3;
    app.toggle_collapse();
    assert_eq!(row_ids(&app), vec!["r", "k1", "k2", "o"]);
    assert_eq!(app.selected_task, 3);
}

#[test]
fn close_and_open_all_folds() {
    let mut app = sel_app(tree_fixture());
    app.close_all_folds();
    assert!(app.is_collapsed("r"));
    assert!(app.is_collapsed("k1"));
    assert!(!app.is_collapsed("k2"));
    assert!(!app.is_collapsed("o"));
    assert_eq!(app.collapsed.len(), 2);
    assert_eq!(row_ids(&app), vec!["r", "o"]);
    app.open_all_folds();
    assert_eq!(app.collapsed.len(), 0);
    assert_eq!(row_ids(&app), vec!["r", "k1", "g", "k2", "o"]);
}

#[test]
fn done_filter_shows_completed_tasks_with_their_context() {
    let mut tasks = tree_fixture();
    tasks[3].checked = true;
    let mut app = sel_app(tasks);
    app.task_filter = TaskFilter::Done;
    assert_eq!(row_ids(&app), vec!["r", "k1", "g"]);
    let rows = app.visible_tasks();
    assert!(app.is_context_task(rows[0]));
    assert!(app.is_context_task(rows[1]));
    assert!(!app.is_context_task(rows[2]));
    app.task_filter = TaskFilter::Active;
    assert_eq!(row_ids(&app), vec!["r", "k1", "g", "k2", "o"]);
    app.task_filter = TaskFilter::Both;
    assert_eq!(row_ids(&app), vec!["r", "k1", "g", "k2", "o"]);
}

#[test]
fn completed_cache_is_appended_with_one_context_row() {
    let mut tasks = tree_fixture();
    tasks[0].checked = false;
    let mut app = sel_app(tasks);
    let mut c1 = sel_task("c1", "p1", 2);
    c1.checked = true;
    c1.parent_id = Some("o".to_string());
    let mut c2 = sel_task("c2", "p1", 1);
    c2.checked = true;
    c2.parent_id = Some("o".to_string());
    let mut c3 = sel_task("c3", "p1", 1);
    c3.checked = true;
    c3.parent_id = Some("c1".to_string());
    let mut c4 = sel_task("c4", "p1", 5);
    c4.checked = true;
    app.store_completed("p1".to_string(), vec![c1, c2, c3, c4]);
    app.task_filter = TaskFilter::Done;
    assert_eq!(row_ids(&app), vec!["o", "c2", "c1", "c3", "c4"]);
    let rows = app.visible_tasks();
    assert!(app.is_context_task(rows[0]));
    app.task_filter = TaskFilter::Both;
    assert_eq!(
        row_ids(&app),
        vec!["r", "k1", "g", "k2", "o", "c2", "c1", "c3", "c4"]
    );
    app.task_filter = TaskFilter::Active;
    assert_eq!(row_ids(&app), vec!["r", "k1", "g", "k2", "o"]);
}

#[test]
fn a_task_that_is_also_fetched_as_completed_is_shown_once() {
    let mut tasks = tree_fixture();
    tasks[4].checked = true;
    let mut app = sel_app(tasks);
    let mut again = sel_task("o", "p1", 2);
    again.checked = true;
    let mut more = sel_task("c9", "p1", 3);
    more.checked = true;
    app.store_completed("p1".to_string(), vec![again, more]);
    app.task_filter = TaskFilter::Both;
    assert_eq!(row_ids(&app), vec!["r", "k1", "g", "k2", "o", "c9"]);
    app.task_filter = TaskFilter::Done;
    assert_eq!(row_ids(&app), vec!["o", "c9"]);
    let twin = sel_task("r", "p1", 9);
    app.tasks.push(twin);
    app.task_filter = TaskFilter::Active;
    let rows = row_ids(&app);
    assert_eq!(rows.iter().filter(|id| id.as_str() == "r").count(), 1);
    assert_eq!(rows.iter().filter(|id| id.as_str() == "k1").count(), 1);
}

#[test]
fn no_row_appears_twice() {
    let mut app = sel_app(tree_fixture());
    let mut c1 = sel_task("c1", "p1", 1);
    c1.checked = true;
    c1.parent_id = Some("k2".to_string());
    let mut c2 = sel_task("c2", "p1", 2);
    c2.checked = true;
    c2.parent_id = Some("k2".to_string());
    app.store_completed("p1".to_string(), vec![c1, c2]);
    for filter in [TaskFilter::Active, TaskFilter::Done, TaskFilter::Both] {
        app.task_filter = filter;
        let mut seen = row_ids(&app);
        let n = seen.len();
        seen.sort();
        seen.dedup();
        assert_eq!(seen.len(), n);
    }
}

fn dock_fixture() -> Vec<Task> {
    let mut late = sel_task("late", "p2", 2);
    late.due = sel_due("2025-01-07");
    let mut today = sel_task("today", "p1", 1);
    today.due = sel_due("2025-01-08");
    let mut soon = sel_task("soon", "p1", 3);
    soon.due = sel_due("2025-01-14");
    let mut far = sel_task("far", "p2", 1);
    far.due = sel_due("2025-01-15");
    far.priority = 4;
    let mut done = sel_task("done", "p1", 0);
    done.due = sel_due("2025-01-01");
    done.checked = true;
    done.priority = 4;
    let mut child = sel_task("child", "p1", 0);
    child.due = sel_due("2025-01-08");
    child.parent_id = Some("today".to_string());
    vec![late, today, soon, far, done, child]
}

#[test]
fn dock_filters_select_across_projects() {
    let mut app = sel_app(dock_fixture());
    assert_eq!(app.today, "2025-01-08");
    assert_eq!(app.week_end, "2025-01-14");
    app.dock_filter = Some(DockItem::DueOverdue);
    assert_eq!(row_ids(&app), vec!["late"]);
    app.dock_filter = Some(DockItem::DueToday);
    assert_eq!(row_ids(&app), vec!["today"]);
    app.dock_filter = Some(DockItem::DueWeek);
    assert_eq!(row_ids(&app), vec!["today", "soon"]);
    app.dock_filter = Some(DockItem::Priority(4));
    assert_eq!(row_ids(&app), vec!["far"]);
    app.dock_filter = Some(DockItem::Priority(1));
    assert_eq!(row_ids(&app), vec!["today", "late", "soon"]);
}

#[test]
fn dock_rows_with_equal_child_order_go_by_project() {
    let a = sel_task("a", "p2", 1);
    let b = sel_task("b", "p1", 1);
    let c = sel_task("c", "p1", 0);
    let mut app = sel_app(vec![a, b, c]);
    app.dock_filter = Some(DockItem::Priority(1));
    assert_eq!(row_ids(&app), vec!["c", "b", "a"]);
}

#[test]
fn overview_counts_open_tasks() {
    let app = sel_app(dock_fixture());
    let stats = app.overview_stats();
    assert_eq!(stats.overdue, 1);
    assert_eq!(stats.due_today, 2);
    assert_eq!(stats.due_week, 3);
    assert_eq!(stats.by_priority, [0, 4, 0, 0, 1]);
}

#[test]
fn selected_task_follows_the_cursor() {
    let mut app = sel_app(tree_fixture());
    app.selected_task = 2;
    assert_eq!(app.selected_task().unwrap().id, "g");
    app.selected_task = 9;
    assert!(app.selected_task().is_none());
    app.clamp_selection();
    assert_eq!(app.selected_task, 4);
    assert!(app.has_children("r"));
    assert!(!app.has_children("g"));
    assert_eq!(app.selected_project_name(), "p1");
    let g = app.tasks[3].clone();
    assert_eq!(app.task_depth(&g), 2);
}

#[test]
fn dock_rows_keep_their_order_under_every_sort_mode() {
    let mut urgent = sel_task("urgent", "p1", 2);
    urgent.priority = 4;
    urgent.due = sel_due("2025-01-08");
    urgent.added_at = Some("2025-01-05T00:00:00Z".to_string());
    let mut plain = sel_task("plain", "p1", 1);
    plain.due = sel_due("2025-01-08");
    plain.added_at = Some("2025-01-01T00:00:00Z".to_string());
    let mut app = sel_app(vec![urgent, plain]);
    app.dock_filter = Some(DockItem::DueToday);
    for mode in [SortMode::Default, SortMode::Priority, SortMode::DueDate, SortMode::Created] {
        app.sort_mode = mode;
        assert_eq!(row_ids(&app), vec!["plain", "urgent"]);
    }
    app.dock_filter = None;
    app.sort_mode = SortMode::Priority;
    assert_eq!(row_ids(&app), vec!["urgent", "plain"]);
}

#[test]
fn a_missing_due_date_comes_after_every_date() {
    let mut far = sel_task("far", "p1", 1);
    far.due = sel_due("9999-12-31");
    let none = sel_task("none", "p1", 2);
    let mut near = sel_task("near", "p1", 3);
    near.due = sel_due("2025-01-09");
    let mut app = sel_app(vec![none, far, near]);
    app.sort_mode = SortMode::DueDate;
    assert_eq!(row_ids(&app), vec!["near", "far", "none"]);
}
