use ratatoist::app::{App, Effect};
use ratatoist::coordinator::BgResult;
use ratatoist::keys::KeyAction;
use ratatoist::models::{Comment, Project, Task};
use ratatoist::push::{PushAction, PushChannel, PushEvent, PushSignal, PushState, push_origin};
use ratatoist::retry::{RetryDecision, RetryState};
use ratatoist::state::{Pane, SortMode, TaskFilter, DockItem};
use ratatoist::sync::SyncResponse;
use ratatoist::transport::TransportError;

const NOW: u64 = 1_736_328_600;

fn co_app(idle_timeout: u64) -> App {
    let mut app = App::new(vec!["nord".to_string(), "dracula".to_string()], 0, "*".to_string(), idle_timeout, true, false, NOW);
    let mut r = SyncResponse::empty(true, "T1".to_string());
    let mut t = Task::default();
    t.id = "i1".to_string();
    t.content = "A".to_string();
    t.project_id = "p1".to_string();
    t.priority = 1;
    r.items = Some(vec![t]);
    let mut p = Project::default();
    p.id = "p1".to_string();
    p.name = "Inbox".to_string();
    r.projects = Some(vec![p]);
    app.apply_sync_delta(r);
    app.take_effects();
    app
}

fn count_syncs(effects: &[Effect]) -> usize {
    effects.iter().filter(|e| matches!(e, Effect::Sync(_))).count()
}

#[test]
fn idle_pushes_are_coalesced_into_one_sync() {
    let mut app = co_app(5);
    app.set_clock(NOW + 10);
    assert!(app.is_idle());
    for _ in 0..4 {
        app.handle(BgResult::WebSocketEvent);
    }
    assert!(app.websocket_connected);
    assert!(app.pending_ws_sync);
    assert_eq!(count_syncs(&app.take_effects()), 0);
    app.note_activity();
    let effects = app.take_effects();
    assert_eq!(effects.len(), 1);
    match &effects[0] {
        Effect::Sync(req) => {
            assert_eq!(req.sync_token, "T1");
            assert_eq!(req.resource_types, vec!["items", "projects", "sections", "labels", "notes"]);
            assert!(req.commands.is_empty());
        }
        _ => panic!("an incremental sync was expected"),
    }
    assert!(!app.pending_ws_sync);
    assert!(!app.is_idle());
    app.note_activity();
    assert!(app.take_effects().is_empty());
}

#[test]
fn active_pushes_sync_each_time() {
    let mut app = co_app(5);
    app.set_clock(NOW + 4);
    assert!(!app.is_idle());
    for _ in 0..3 {
        app.on_push_event();
    }
    assert_eq!(count_syncs(&app.take_effects()), 3);
    assert!(!app.pending_ws_sync);
}

#[test]
fn idle_needs_a_timeout_and_time() {
    let mut app = co_app(0);
    app.set_clock(NOW + 100_000);
    assert!(!app.is_idle());
    let mut app = co_app(300);
    app.set_clock(NOW + 299);
    assert!(!app.is_idle());
    app.set_clock(NOW + 300);
    assert!(app.is_idle());
    app.set_clock(NOW - 50);
    assert!(!app.is_idle());
}

#[test]
fn clock_moves_today_along() {
    let mut app = co_app(300);
    assert_eq!(app.today, "2025-01-08");
    app.set_clock(NOW + 86_400);
    assert_eq!(app.today, "2025-01-09");
    assert_eq!(app.week_end, "2025-01-15");
    app.set_clock(u64::MAX);
    assert_eq!(app.now_secs, u64::MAX);
    assert_eq!(app.today, "2025-01-09");
}

#[test]
fn push_connection_state_is_noted() {
    let mut app = co_app(300);
    app.handle(BgResult::WebSocketConnected);
    assert!(app.websocket_connected);
    app.handle(BgResult::WebSocketDisconnected);
    assert!(!app.websocket_connected);
}

#[test]
fn stale_comment_replies_are_dropped() {
    let mut app = co_app(300);
    app.open_detail();
    assert_eq!(app.active_pane, Pane::Detail);
    let first = app.comments_fetch_seq;
    app.spawn_comments_fetch("i1".to_string());
    let latest = app.comments_fetch_seq;
    assert_eq!(latest, first + 1);
    let mut old = Comment::default();
    old.id = "c1".to_string();
    old.content = "old".to_string();
    app.handle(BgResult::Comments {
        task_id: "i1".to_string(),
        comments: Ok(vec![old]),
        fetch_seq: first,
    });
    assert!(app.comments.is_empty());
    assert_eq!(app.comments_by_task.get("i1").unwrap().len(), 1);
    assert_eq!(app.tasks[0].note_count, Some(1));
    let mut a = Comment::default();
    a.id = "c1".to_string();
    let mut b = Comment::default();
    b.id = "c2".to_string();
    app.handle(BgResult::Comments {
        task_id: "i1".to_string(),
        comments: Ok(vec![a, b]),
        fetch_seq: latest,
    });
    assert_eq!(app.comments.len(), 2);
    assert_eq!(app.tasks[0].note_count, Some(2));
    app.handle(BgResult::Comments {
        task_id: "i1".to_string(),
        comments: Err("Todoist API error (500): {\"error\":\"down\",\"error_tag\":\"X\"}".to_string()),
        fetch_seq: latest,
    });
    let e = app.error.as_ref().unwrap();
    assert_eq!(e.title, "Load comments failed");
    assert_eq!(e.message, "down");
    assert!(e.suggestion.is_none());
}

#[test]
fn completed_tasks_are_cached_per_project() {
    let mut app = co_app(300);
    app.cycle_task_filter();
    assert_eq!(app.task_filter, TaskFilter::Done);
    let effects = app.take_effects();
    assert_eq!(effects.len(), 1);
    match &effects[0] {
        Effect::FetchCompleted { project_id } => assert_eq!(project_id, "p1"),
        _ => panic!("the completed tasks must be fetched"),
    }
    let mut done = Task::default();
    done.id = "d1".to_string();
    done.content = "D".to_string();
    done.project_id = "p1".to_string();
    done.checked = true;
    app.handle(BgResult::CompletedTasks { project_id: "p1".to_string(), records: Ok(vec![done]) });
    assert_eq!(app.visible_len(), 1);
    app.cycle_task_filter();
    assert_eq!(app.task_filter, TaskFilter::Both);
    assert!(app.take_effects().is_empty());
    assert_eq!(app.visible_len(), 2);
    app.cycle_task_filter();
    assert_eq!(app.task_filter, TaskFilter::Active);
    app.handle(BgResult::CompletedTasks {
        project_id: "p1".to_string(),
        records: Err("boom".to_string()),
    });
    assert_eq!(app.error.as_ref().unwrap().title, "Load completed tasks failed");
    assert_eq!(app.error.as_ref().unwrap().message, "boom");
}

#[test]
fn rate_limited_flush_is_retried_and_updates_the_token_once() {
    let mut app = co_app(300);
    app.complete_selected_task();
    let effects = app.take_effects();
    assert_eq!(effects.len(), 1);
    let mut retry = RetryState::new();
    let first = TransportError::RateLimited { retry_after_secs: Some(2) };
    let decision = retry.on_failure(&first, 700);
    assert_eq!(decision, RetryDecision::Wait { millis: 2700 });
    assert_eq!(retry.attempts, 1);
    assert_eq!(retry.base_delay_secs, 2);
    assert_eq!(app.sync_token, "T1");
    app.handle(BgResult::CommandResults(SyncResponse::empty(false, "T2".to_string())));
    assert_eq!(app.sync_token, "T2");
    let saves: Vec<String> = app
        .take_effects()
        .into_iter()
        .filter_map(|e| match e {
            Effect::SaveSyncToken(t) => Some(t),
            _ => None,
        })
        .collect();
    assert_eq!(saves, vec!["T2"]);
}

#[test]
fn retries_back_off_and_give_up() {
    let mut retry = RetryState::new();
    assert_eq!(retry.on_rate_limited(None, 0), RetryDecision::Wait { millis: 1000 });
    assert_eq!(retry.on_rate_limited(Some(1), 5000), RetryDecision::Wait { millis: 4000 });
    assert_eq!(retry.on_rate_limited(Some(90), 1), RetryDecision::Wait { millis: 90_001 });
    assert_eq!(retry.base_delay_secs, 8);
    assert_eq!(retry.attempts, 3);
    assert_eq!(retry.on_rate_limited(Some(1), 0), RetryDecision::GiveUp);
    assert_eq!(retry.attempts, 3);
    let mut retry = RetryState { attempts: 0, base_delay_secs: 40 };
    retry.on_rate_limited(None, 0);
    assert_eq!(retry.base_delay_secs, 60);
    assert_eq!(retry.on_rate_limited(Some(u64::MAX), 9), RetryDecision::Wait { millis: u64::MAX });
}

#[test]
fn other_failures_are_not_retried() {
    let mut retry = RetryState::new();
    let e = TransportError::Status { status: 500, body: "down".to_string() };
    assert_eq!(retry.on_failure(&e, 100), RetryDecision::GiveUp);
    assert_eq!(retry.attempts, 0);
    let e = TransportError::Network("unreachable".to_string());
    assert_eq!(retry.on_failure(&e, 100), RetryDecision::GiveUp);
    assert!(!e.is_rate_limit());
}

#[test]
fn push_channel_walks_through_its_states() {
    let mut ch = PushChannel::new();
    assert_eq!(ch.state, PushState::Disconnected);
    assert_eq!(ch.backoff_secs, 5);
    let a = ch.step(PushEvent::TimerExpired);
    assert_eq!(a, PushAction { signal: None, connect: true, wait_secs: None });
    assert_eq!(ch.state, PushState::Connecting);
    let a = ch.step(PushEvent::HandshakeFailed);
    assert_eq!(a, PushAction { signal: None, connect: false, wait_secs: Some(5) });
    assert_eq!(ch.state, PushState::Disconnected);
    assert_eq!(ch.backoff_secs, 10);
    for expected in [10, 20, 40, 60, 60] {
        ch.step(PushEvent::TimerExpired);
        let a = ch.step(PushEvent::HandshakeFailed);
        assert_eq!(a.wait_secs, Some(expected));
    }
    assert_eq!(ch.backoff_secs, 60);
    ch.step(PushEvent::TimerExpired);
    let a = ch.step(PushEvent::HandshakeOk);
    assert_eq!(a.signal, Some(PushSignal::Connected));
    assert_eq!(ch.state, PushState::Connected);
    assert_eq!(ch.backoff_secs, 5);
    let a = ch.step(PushEvent::Frame);
    assert_eq!(a, PushAction { signal: Some(PushSignal::Event), connect: false, wait_secs: None });
    let a = ch.step(PushEvent::Closed);
    assert_eq!(a, PushAction { signal: Some(PushSignal::Disconnected), connect: false, wait_secs: Some(1) });
    assert_eq!(ch.state, PushState::Disconnected);
    assert_eq!(ch.backoff_secs, 5);
    let a = ch.step(PushEvent::Frame);
    assert_eq!(a, PushAction { signal: None, connect: false, wait_secs: None });
    assert_eq!(ch.state, PushState::Disconnected);
    assert_eq!(push_origin(), "https://app.todoist.com");
}

#[test]
fn intents_are_carried_out() {
    let mut app = co_app(300);
    app.perform(KeyAction::CycleSort);
    assert_eq!(app.sort_mode, SortMode::Priority);
    app.perform(KeyAction::ToggleHelp);
    assert!(app.show_help);
    app.perform(KeyAction::ToggleSettings);
    assert!(app.show_settings);
    assert_eq!(app.active_pane, Pane::Settings);
    app.perform(KeyAction::ToggleSettings);
    assert_eq!(app.active_pane, Pane::Projects);
    app.perform(KeyAction::OpenThemePicker);
    assert!(app.show_theme_picker);
    app.theme_selection = 1;
    app.perform(KeyAction::SelectTheme);
    assert_eq!(app.theme_idx, 1);
    assert!(!app.show_theme_picker);
    match &app.take_effects()[0] {
        Effect::SaveUiSettings { theme, idle_timeout_secs } => {
            assert_eq!(theme, "dracula");
            assert_eq!(*idle_timeout_secs, 300);
        }
        _ => panic!("the settings must be written"),
    }
    app.perform(KeyAction::OpenPriorityPicker);
    assert!(app.show_priority_picker);
    assert_eq!(app.priority_selection, 1);
    app.priority_selection = 3;
    app.perform(KeyAction::SelectPriority);
    assert!(!app.show_priority_picker);
    assert_eq!(app.tasks[0].priority, 3);
    app.perform(KeyAction::Ignored);
    app.perform(KeyAction::Consumed);
    app.perform(KeyAction::DetailFieldUp);
    assert_eq!(app.detail_field, 3);
    app.perform(KeyAction::DetailFieldDown);
    assert_eq!(app.detail_field, 0);
    app.perform(KeyAction::Quit);
    assert!(!app.running);
}

#[test]
fn leaving_the_task_pane_drops_the_dock_filter() {
    let mut app = co_app(300);
    app.active_pane = Pane::Tasks;
    app.dock_filter = Some(DockItem::DueToday);
    app.perform(KeyAction::ToggleHelp);
    assert_eq!(app.dock_filter, Some(DockItem::DueToday));
    app.perform(KeyAction::ToggleSettings);
    assert_eq!(app.dock_filter, None);
}

#[test]
fn errors_are_dismissed() {
    let mut app = co_app(300);
    app.set_error("plain failure", "Sync");
    assert_eq!(app.error.as_ref().unwrap().title, "Sync failed");
    assert_eq!(app.error.as_ref().unwrap().message, "plain failure");
    app.handle_error_dismiss();
    assert!(app.error.is_none());
    assert!(app.running);
    app.set_error("fatal", "Start");
    let mut e = app.error.take().unwrap();
    e.recoverable = false;
    app.error = Some(e);
    app.handle_error_dismiss();
    assert!(!app.running);
    app.handle_error_dismiss();
}

#[test]
fn pending_z_is_taken_once() {
    let mut app = co_app(300);
    assert!(!app.take_pending_z());
    app.set_pending_z();
    assert!(app.take_pending_z());
    assert!(!app.take_pending_z());
}

#[test]
fn idle_timeout_cycles_through_its_options() {
    let mut app = co_app(300);
    app.cycle_idle_timeout();
    assert_eq!(app.idle_timeout_secs, 600);
    app.idle_timeout_secs = 1800;
    app.cycle_idle_timeout();
    assert_eq!(app.idle_timeout_secs, 5);
    app.idle_forcer = false;
    app.idle_timeout_secs = 1800;
    app.cycle_idle_timeout();
    assert_eq!(app.idle_timeout_secs, 60);
    app.idle_timeout_secs = 77;
    app.cycle_idle_timeout();
    assert_eq!(app.idle_timeout_secs, 600);
    assert_eq!(app.take_effects().len(), 4);
}
