use ratatoist::config::{
    initial_sync_token, load_idle_timeout_secs, load_theme_idx, ui_settings_text, Config,
    ConfigError, SyncState,
};
use ratatoist::errors::parse_api_error;
use ratatoist::models::{
    format_priority, priority_label, CompletedRecord, CompletedTasksResponse, Paginated, Task,
};
use ratatoist::state::AppError;
use ratatoist::transport::{
    base_url, bearer, classify_reply, comments_endpoint, completed_endpoint, endpoint_url,
    page_url, reply_outcome, TransportError,
};

#[test]
fn success_statuses_are_ok() {
    assert!(classify_reply(200, None, "{}").is_ok());
    assert!(classify_reply(204, Some("5"), "").is_ok());
    assert!(classify_reply(299, None, "x").is_ok());
}

#[test]
fn rate_limit_reads_the_header_first() {
    match classify_reply(429, Some(" 2 "), "{\"error_extra\":{\"retry_after\":9}}") {
        Err(TransportError::RateLimited { retry_after_secs }) => assert_eq!(retry_after_secs, Some(2)),
        _ => panic!("the rate limit was expected"),
    }
    match classify_reply(429, None, "{\"error\":\"slow down\",\"error_extra\":{\"retry_after\":9}}") {
        Err(TransportError::RateLimited { retry_after_secs }) => assert_eq!(retry_after_secs, Some(9)),
        _ => panic!("the rate limit was expected"),
    }
    match classify_reply(429, Some("soon"), "{\"error_extra\":{\"retry_after\":7}}") {
        Err(TransportError::RateLimited { retry_after_secs }) => assert_eq!(retry_after_secs, Some(7)),
        _ => panic!("the rate limit was expected"),
    }
    match classify_reply(429, None, "not json") {
        Err(TransportError::RateLimited { retry_after_secs }) => assert_eq!(retry_after_secs, None),
        _ => panic!("the rate limit was expected"),
    }
    match classify_reply(429, Some("-3"), "{\"error_extra\":{\"retry_after\":\"9\"}}") {
        Err(TransportError::RateLimited { retry_after_secs }) => assert_eq!(retry_after_secs, None),
        _ => panic!("the rate limit was expected"),
    }
}

#[test]
fn other_statuses_carry_status_and_body() {
    match classify_reply(403, Some("2"), "denied") {
        Err(TransportError::Status { status, body }) => {
            assert_eq!(status, 403);
            assert_eq!(body, "denied");
        }
        _ => panic!("a status error was expected"),
    }
    match reply_outcome(199, Some(1), Some(2), "early") {
        Err(TransportError::Status { status, .. }) => assert_eq!(status, 199),
        _ => panic!("a status error was expected"),
    }
    match reply_outcome(429, None, Some(2), "") {
        Err(e) => assert!(e.is_rate_limit()),
        _ => panic!("the rate limit was expected"),
    }
}

#[test]
fn failures_read_well() {
    let e = TransportError::Status { status: 400, body: "{\"error\":\"bad\"}".to_string() };
    assert_eq!(e.describe(), "Todoist API error (400): {\"error\":\"bad\"}");
    let e = TransportError::Network("dns".to_string());
    assert_eq!(e.describe(), "failed to reach Todoist API: dns");
    let e = TransportError::Parse("eof".to_string());
    assert_eq!(e.describe(), "failed to parse response: eof");
    let e = TransportError::RateLimited { retry_after_secs: None };
    assert_eq!(e.describe(), "rate limited by Todoist API");
    let shown = e.to_app_error("Sync");
    assert_eq!(shown.title, "Sync failed");
    assert_eq!(shown.message, "rate limited by Todoist API");
    let e = TransportError::Status {
        status: 404,
        body: "{\"error\":\"gone\",\"error_tag\":\"NOT_FOUND\"}".to_string(),
    };
    let shown = e.to_app_error("Load comments");
    assert_eq!(shown.title, "Load comments failed");
    assert_eq!(shown.message, "gone");
    assert_eq!(
        shown.suggestion.as_deref(),
        Some("The item may have been deleted. Try refreshing.")
    );
}

#[test]
fn api_errors_are_read_out_of_the_message() {
    let raw = "Todoist API error (400): {\"error\":\"Invalid date\",\"error_tag\":\"INVALID_DATE_FORMAT\",\"error_code\":1}";
    let (title, message, hint) = parse_api_error(raw, "Update task");
    assert_eq!(title, "Update task failed");
    assert_eq!(message, "Invalid date");
    assert_eq!(
        hint.as_deref(),
        Some("Try natural language like \"tomorrow\", \"next monday\", or \"Feb 28\"")
    );
    let (_, message, hint) = parse_api_error("x {\"error_tag\":\"NOT_FOUND\"}", "Load");
    assert_eq!(message, "Unknown error");
    assert_eq!(hint.as_deref(), Some("The item may have been deleted. Try refreshing."));
    let (_, message, hint) = parse_api_error("x {\"error\":7}", "Load");
    assert_eq!(message, "Unknown error");
    assert!(hint.is_none());
    let (title, message, hint) = parse_api_error("timed out", "Initial sync");
    assert_eq!(title, "Initial sync failed");
    assert_eq!(message, "timed out");
    assert!(hint.is_none());
    let (_, message, _) = parse_api_error("broken {json", "Load");
    assert_eq!(message, "broken {json");
    let e = AppError::from_api("x {\"error\":\"no\",\"error_tag\":\"FORBIDDEN\"}", "Star");
    assert_eq!(e.title, "Star failed");
    assert_eq!(e.message, "no");
    assert_eq!(e.suggestion.as_deref(), Some("You don't have permission for this action."));
    assert!(e.recoverable);
}

#[test]
fn addresses_are_built() {
    assert_eq!(base_url(), "https://api.todoist.com/api/v1");
    assert_eq!(endpoint_url("sync"), "https://api.todoist.com/api/v1/sync");
    assert_eq!(bearer("abc"), "Bearer abc");
    assert_eq!(page_url("projects", None), "https://api.todoist.com/api/v1/projects");
    assert_eq!(
        page_url("projects", Some("c1")),
        "https://api.todoist.com/api/v1/projects?cursor=c1"
    );
    assert_eq!(
        page_url("comments?task_id=7", Some("c2")),
        "https://api.todoist.com/api/v1/comments?task_id=7&cursor=c2"
    );
    assert_eq!(comments_endpoint("i1"), "comments?task_id=i1");
    assert_eq!(completed_endpoint(None, None), "tasks/completed?annotate_items=1");
    assert_eq!(
        completed_endpoint(Some("p1"), Some("2025-01-01T00:00:00Z")),
        "tasks/completed?annotate_items=1&project_id=p1&since=2025-01-01T00:00:00Z"
    );
    assert_eq!(completed_endpoint(None, Some("x")), "tasks/completed?annotate_items=1&since=x");
}

#[test]
fn pages_are_absorbed() {
    let mut all = vec![1, 2];
    let page = Paginated { results: vec![3, 4], next_cursor: Some("n".to_string()) };
    assert_eq!(page.absorb(&mut all).as_deref(), Some("n"));
    let page = Paginated { results: vec![5], next_cursor: Some(String::new()) };
    assert_eq!(page.absorb(&mut all), None);
    let page: Paginated<i32> = Paginated { results: vec![], next_cursor: None };
    assert_eq!(page.absorb(&mut all), None);
    assert_eq!(all, vec![1, 2, 3, 4, 5]);
}

#[test]
fn completed_records_become_tasks() {
    let flat = CompletedRecord {
        task_id: "t1".to_string(),
        content: "done".to_string(),
        completed_at: "2025-01-02T03:04:05Z".to_string(),
        project_id: "p1".to_string(),
        section_id: Some("s1".to_string()),
        note_count: Some(2),
        user_id: Some("u1".to_string()),
        item_object: None,
    };
    let mut full = Task::default();
    full.id = "t2".to_string();
    full.content = "kept".to_string();
    full.priority = 3;
    let with_object = CompletedRecord {
        task_id: "other".to_string(),
        content: "ignored".to_string(),
        completed_at: "x".to_string(),
        project_id: "p9".to_string(),
        section_id: None,
        note_count: None,
        user_id: None,
        item_object: Some(full),
    };
    let tasks = CompletedTasksResponse { items: vec![flat, with_object] }.into_tasks();
    assert_eq!(tasks.len(), 2);
    assert_eq!(tasks[0].id, "t1");
    assert_eq!(tasks[0].content, "done");
    assert!(tasks[0].checked);
    assert_eq!(tasks[0].completed_at.as_deref(), Some("2025-01-02T03:04:05Z"));
    assert_eq!(tasks[0].project_id, "p1");
    assert_eq!(tasks[0].section_id.as_deref(), Some("s1"));
    assert_eq!(tasks[0].note_count, Some(2));
    assert_eq!(tasks[0].user_id.as_deref(), Some("u1"));
    assert!(tasks[0].parent_id.is_none());
    assert_eq!(tasks[1].id, "t2");
    assert_eq!(tasks[1].priority, 3);
}

#[test]
fn priority_labels() {
    assert_eq!(priority_label(4), "P1  Urgent");
    assert_eq!(priority_label(3), "P2  High");
    assert_eq!(priority_label(2), "P3  Medium");
    assert_eq!(priority_label(1), "P4  Normal");
    assert_eq!(priority_label(0), "P4  Normal");
    assert_eq!(priority_label(9), "P4  Normal");
    assert_eq!(format_priority(4), "P1 urgent");
    assert_eq!(format_priority(3), "P2 high");
    assert_eq!(format_priority(2), "P3 medium");
    assert_eq!(format_priority(1), "P4 normal");
    assert_eq!(format_priority(0), "P4 normal");
}

#[test]
fn credential_comes_from_environment_or_file() {
    let c = Config::load(Some("envtok".to_string()), Some("api_token = \"filetok\"")).unwrap();
    assert_eq!(c.token(), "envtok");
    let c = Config::load(Some(String::new()), Some("api_token = \"filetok\"\nother = 1")).unwrap();
    assert_eq!(c.token(), "filetok");
    let c = Config::load(None, Some("api_token = \"filetok\"")).unwrap();
    assert_eq!(c.token(), "filetok");
    assert_eq!(Config::load(None, None).err(), Some(ConfigError::Missing));
    assert_eq!(Config::load(None, Some("other = 1")).err(), Some(ConfigError::Missing));
    assert_eq!(Config::load(None, Some("api_token = \"\"")).err(), Some(ConfigError::Missing));
    assert_eq!(Config::load(None, Some("api_token = 7")).err(), Some(ConfigError::Unreadable));
    assert_eq!(Config::load(None, Some("api_token = ")).err(), Some(ConfigError::Unreadable));
    assert_eq!(Config::with_token("t".to_string()).token(), "t");
}

#[test]
fn configuration_paths() {
    assert_eq!(Config::config_dir(Some("/x"), Some("/home/a"), true, Some("/p")), "/x/ratatoist");
    assert_eq!(
        Config::config_dir(None, Some("/home/a"), true, Some("/p")),
        "/home/a/.config/ratatoist"
    );
    assert_eq!(Config::config_dir(None, Some("/home/a"), false, Some("/p")), "/p/ratatoist");
    assert_eq!(
        Config::config_dir(None, Some("/home/a"), false, None),
        "/home/a/.config/ratatoist"
    );
    assert_eq!(Config::config_dir(None, None, false, None), "~/.config/ratatoist");
    assert_eq!(Config::config_path("/c"), "/c/config.toml");
    assert_eq!(Config::home_config_dir("/home/a"), "/home/a/.config/ratatoist");
    assert_eq!(SyncState::path("/c"), "/c/sync_state.json");
}

#[test]
fn loose_permissions_are_noticed() {
    assert!(!Config::check_file_permissions(0o600));
    assert!(!Config::check_file_permissions(0o100600));
    assert!(Config::check_file_permissions(0o640));
    assert!(Config::check_file_permissions(0o604));
    assert!(Config::check_file_permissions(0o100644));
}

#[test]
fn sync_state_round_trips() {
    let s = SyncState { sync_token: "a\"b\\c".to_string() };
    let text = s.save();
    assert_eq!(text, "{\"sync_token\":\"a\\\"b\\\\c\"}");
    assert_eq!(SyncState::load(Some(&text)).sync_token, "a\"b\\c");
    assert_eq!(SyncState::load(None).sync_token, "*");
    assert_eq!(SyncState::load(Some("garbage")).sync_token, "*");
    assert_eq!(SyncState::load(Some("{\"sync_token\":5}")).sync_token, "*");
    assert_eq!(initial_sync_token(true, Some(&text)), "*");
    assert_eq!(initial_sync_token(false, Some(&text)), "a\"b\\c");
    assert_eq!(initial_sync_token(false, None), "*");
}

#[test]
fn interface_settings_round_trip() {
    let text = ui_settings_text("nord \"dark\"", 600);
    assert_eq!(text, "{\n  \"idle_timeout_secs\": 600,\n  \"theme\": \"nord \\\"dark\\\"\"\n}");
    assert_eq!(load_idle_timeout_secs(Some(&text)), 600);
    let names = vec!["rose".to_string(), "nord \"dark\"".to_string()];
    assert_eq!(load_theme_idx(&names, Some(&text)), 1);
    assert_eq!(load_theme_idx(&names, Some("{\"theme\":\"unknown\"}")), 0);
    assert_eq!(load_theme_idx(&names, None), 0);
    assert_eq!(load_idle_timeout_secs(None), 300);
    assert_eq!(load_idle_timeout_secs(Some("nope")), 300);
    assert_eq!(load_idle_timeout_secs(Some("{}")), 300);
    assert_eq!(load_idle_timeout_secs(Some("{\"idle_timeout_mins\":2}")), 120);
    assert_eq!(
        load_idle_timeout_secs(Some("{\"idle_timeout_mins\":2,\"idle_timeout_secs\":7}")),
        7
    );
    assert_eq!(
        load_idle_timeout_secs(Some("{\"idle_timeout_mins\":18446744073709551615}")),
        u64::MAX
    );
}

#[test]
fn texts_are_escaped_as_json_strings() {
    let quoted = |s: &str| -> String {
        let text = SyncState { sync_token: s.to_string() }.save();
        text["{\"sync_token\":".len()..text.len() - 1].to_string()
    };
    assert_eq!(quoted(""), "\"\"");
    assert_eq!(quoted("plain"), "\"plain\"");
    assert_eq!(quoted("a\"b"), "\"a\\\"b\"");
    assert_eq!(quoted("a\\b"), "\"a\\\\b\"");
    assert_eq!(quoted("\u{8}\t\n\u{c}\r"), "\"\\b\\t\\n\\f\\r\"");
    assert_eq!(quoted("\u{0}\u{1}\u{b}\u{1f}"), "\"\\u0000\\u0001\\u000b\\u001f\"");
    assert_eq!(quoted(" /\u{7f}é€"), "\" /\u{7f}é€\"");
}
