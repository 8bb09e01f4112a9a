use ratatoist::app::App;
use ratatoist::keymap::{handle_key, settings_item_count, Key, KeyCode};
use ratatoist::keys::KeyAction;
use ratatoist::models::{Project, Task};
use ratatoist::state::{InputMode, Pane, TaskForm, VimState};
use ratatoist::sync::SyncResponse;

fn km_app() -> App {
    let mut app = App::new(
        vec!["a".to_string(), "b".to_string(), "c".to_string()],
        0,
        "*".to_string(),
        300,
        false,
        true,
        1_736_328_600,
    );
    let mut r = SyncResponse::empty(true, "T".to_string());
    let mut tasks = Vec::new();
    for (i, id) in ["t1", "t2", "t3"].iter().enumerate() {
        let mut t = Task::default();
        t.id = id.to_string();
        t.content = id.to_string();
        t.project_id = "p1".to_string();
        t.child_order = i as i32;
        t.priority = 1;
        tasks.push(t);
    }
    r.items = Some(tasks);
    let mut ps = Vec::new();
    for (i, id) in ["p1", "p2"].iter().enumerate() {
        let mut p = Project::default();
        p.id = id.to_string();
        p.name = id.to_string();
        p.child_order = i as i32;
        ps.push(p);
    }
    r.projects = Some(ps);
    app.apply_sync_delta(r);
    app
}

fn ch(c: char) -> Key {
    Key { code: KeyCode::Char(c), ctrl: false }
}

fn code(code: KeyCode) -> Key {
    Key { code, ctrl: false }
}

#[test]
fn ctrl_c_quits_from_anywhere() {
    let mut app = km_app();
    app.show_help = true;
    app.show_input = true;
    assert_eq!(handle_key(&mut app, Key { code: KeyCode::Char('c'), ctrl: true }), KeyAction::Quit);
}

#[test]
fn help_swallows_keys() {
    let mut app = km_app();
    app.show_help = true;
    assert_eq!(handle_key(&mut app, ch('x')), KeyAction::Consumed);
    assert_eq!(handle_key(&mut app, ch('?')), KeyAction::ToggleHelp);
    assert_eq!(handle_key(&mut app, code(KeyCode::Esc)), KeyAction::ToggleHelp);
    assert_eq!(handle_key(&mut app, ch('q')), KeyAction::ToggleHelp);
}

#[test]
fn vim_normal_moves_in_the_panes() {
    let mut app = km_app();
    assert_eq!(app.active_pane, Pane::Projects);
    assert_eq!(handle_key(&mut app, ch('j')), KeyAction::ProjectChanged);
    assert_eq!(app.selected_project, 1);
    assert_eq!(handle_key(&mut app, ch('j')), KeyAction::ProjectChanged);
    assert_eq!(app.selected_project, 0);
    assert_eq!(handle_key(&mut app, ch('k')), KeyAction::ProjectChanged);
    assert_eq!(app.selected_project, 1);
    assert_eq!(handle_key(&mut app, ch('g')), KeyAction::ProjectChanged);
    assert_eq!(app.selected_project, 0);
    assert_eq!(handle_key(&mut app, ch('g')), KeyAction::Consumed);
    assert_eq!(handle_key(&mut app, ch('G')), KeyAction::ProjectChanged);
    assert_eq!(app.selected_project, 1);
    app.selected_project = 0;
    assert_eq!(handle_key(&mut app, ch('s')), KeyAction::StarProject);
    assert_eq!(handle_key(&mut app, ch('x')), KeyAction::Ignored);
    assert_eq!(handle_key(&mut app, ch('l')), KeyAction::Consumed);
    assert_eq!(app.active_pane, Pane::Tasks);
    assert_eq!(handle_key(&mut app, ch('j')), KeyAction::Consumed);
    assert_eq!(app.selected_task, 1);
    assert_eq!(handle_key(&mut app, code(KeyCode::Up)), KeyAction::Consumed);
    assert_eq!(handle_key(&mut app, ch('k')), KeyAction::Consumed);
    assert_eq!(app.selected_task, 2);
    assert_eq!(handle_key(&mut app, ch('g')), KeyAction::Consumed);
    assert_eq!(app.selected_task, 0);
    assert_eq!(handle_key(&mut app, ch('G')), KeyAction::Consumed);
    assert_eq!(app.selected_task, 2);
    assert_eq!(handle_key(&mut app, ch('x')), KeyAction::CompleteTask);
    assert_eq!(handle_key(&mut app, ch('a')), KeyAction::StartInput);
    assert_eq!(handle_key(&mut app, ch('o')), KeyAction::CycleSort);
    assert_eq!(handle_key(&mut app, ch(' ')), KeyAction::ToggleCollapse);
    assert_eq!(handle_key(&mut app, ch('s')), KeyAction::Ignored);
    assert_eq!(handle_key(&mut app, code(KeyCode::Enter)), KeyAction::OpenDetail);
    assert_eq!(handle_key(&mut app, code(KeyCode::Esc)), KeyAction::Consumed);
    assert_eq!(app.active_pane, Pane::Projects);
    assert_eq!(handle_key(&mut app, code(KeyCode::Esc)), KeyAction::Ignored);
    assert_eq!(handle_key(&mut app, code(KeyCode::Enter)), KeyAction::Consumed);
    assert_eq!(app.active_pane, Pane::Tasks);
    assert_eq!(handle_key(&mut app, ch('h')), KeyAction::Consumed);
    assert_eq!(app.active_pane, Pane::Projects);
    assert_eq!(handle_key(&mut app, ch(',')), KeyAction::ToggleSettings);
    assert_eq!(handle_key(&mut app, ch('?')), KeyAction::ToggleHelp);
    assert_eq!(handle_key(&mut app, ch('q')), KeyAction::Quit);
    assert_eq!(handle_key(&mut app, code(KeyCode::Home)), KeyAction::Ignored);
}

#[test]
fn fold_commands_take_two_keys() {
    let mut app = km_app();
    app.active_pane = Pane::Tasks;
    assert_eq!(handle_key(&mut app, ch('z')), KeyAction::Consumed);
    assert!(app.pending_z);
    assert_eq!(handle_key(&mut app, ch('a')), KeyAction::ToggleCollapse);
    assert!(!app.pending_z);
    handle_key(&mut app, ch('z'));
    assert_eq!(handle_key(&mut app, ch('R')), KeyAction::OpenAllFolds);
    handle_key(&mut app, ch('z'));
    assert_eq!(handle_key(&mut app, ch('M')), KeyAction::CloseAllFolds);
    handle_key(&mut app, ch('z'));
    assert_eq!(handle_key(&mut app, ch('q')), KeyAction::Consumed);
    assert!(!app.pending_z);
    app.active_pane = Pane::Projects;
    handle_key(&mut app, ch('z'));
    assert_eq!(handle_key(&mut app, ch('a')), KeyAction::Consumed);
}

#[test]
fn input_line_collects_characters() {
    let mut app = km_app();
    app.show_input = true;
    app.comment_input = true;
    assert_eq!(handle_key(&mut app, ch('h')), KeyAction::Consumed);
    assert_eq!(handle_key(&mut app, ch('i')), KeyAction::Consumed);
    assert_eq!(app.input_buffer, "hi");
    assert_eq!(handle_key(&mut app, code(KeyCode::Backspace)), KeyAction::Consumed);
    assert_eq!(app.input_buffer, "h");
    handle_key(&mut app, code(KeyCode::Backspace));
    handle_key(&mut app, code(KeyCode::Backspace));
    assert_eq!(app.input_buffer, "");
    assert_eq!(handle_key(&mut app, code(KeyCode::Enter)), KeyAction::SubmitInput);
    assert_eq!(handle_key(&mut app, code(KeyCode::Esc)), KeyAction::SubmitInput);
    assert_eq!(handle_key(&mut app, code(KeyCode::Tab)), KeyAction::Consumed);
    app.input_mode = InputMode::Standard;
    assert_eq!(handle_key(&mut app, code(KeyCode::Esc)), KeyAction::CancelInput);
}

#[test]
fn form_keys() {
    let mut app = km_app();
    let mut form = TaskForm::new("p1".to_string());
    form.content = "milk".to_string();
    app.task_form = Some(form);
    assert_eq!(handle_key(&mut app, code(KeyCode::Esc)), KeyAction::CancelInput);
    assert_eq!(handle_key(&mut app, ch('x')), KeyAction::Consumed);
    assert_eq!(app.input_buffer, "x");
    let mut form = app.task_form.take().unwrap();
    form.active_field = 2;
    app.task_form = Some(form);
    assert_eq!(handle_key(&mut app, code(KeyCode::Esc)), KeyAction::FormEscNormal);
    let mut form = app.task_form.take().unwrap();
    form.editing = false;
    app.task_form = Some(form);
    app.input_mode = InputMode::Vim(VimState::Normal);
    assert_eq!(handle_key(&mut app, ch('j')), KeyAction::FormFieldDown);
    assert_eq!(handle_key(&mut app, code(KeyCode::Up)), KeyAction::FormFieldUp);
    assert_eq!(handle_key(&mut app, ch('i')), KeyAction::FormEditField);
    assert_eq!(handle_key(&mut app, code(KeyCode::Tab)), KeyAction::SubmitForm);
    assert_eq!(handle_key(&mut app, ch('q')), KeyAction::CancelInput);
    assert_eq!(handle_key(&mut app, ch('w')), KeyAction::Consumed);
    assert_eq!(handle_key(&mut app, code(KeyCode::Esc)), KeyAction::Consumed);
    let form = app.task_form.as_ref().unwrap();
    assert_eq!(form.active_field, 0);
    assert!(form.editing);
    assert_eq!(app.input_buffer, "milk");
    assert!(app.show_input);
    assert_eq!(app.input_mode, InputMode::Vim(VimState::Insert));
}

#[test]
fn pickers_and_settings() {
    let mut app = km_app();
    app.show_theme_picker = true;
    assert_eq!(handle_key(&mut app, ch('j')), KeyAction::Consumed);
    assert_eq!(app.theme_selection, 1);
    handle_key(&mut app, ch('j'));
    handle_key(&mut app, code(KeyCode::Down));
    assert_eq!(app.theme_selection, 0);
    handle_key(&mut app, ch('k'));
    assert_eq!(app.theme_selection, 2);
    handle_key(&mut app, code(KeyCode::Up));
    assert_eq!(app.theme_selection, 1);
    assert_eq!(handle_key(&mut app, code(KeyCode::Enter)), KeyAction::SelectTheme);
    assert_eq!(handle_key(&mut app, ch('q')), KeyAction::CloseThemePicker);
    app.show_theme_picker = false;

    app.show_priority_picker = true;
    app.priority_selection = 1;
    handle_key(&mut app, ch('j'));
    assert_eq!(app.priority_selection, 4);
    handle_key(&mut app, ch('j'));
    assert_eq!(app.priority_selection, 3);
    handle_key(&mut app, ch('k'));
    handle_key(&mut app, ch('k'));
    assert_eq!(app.priority_selection, 1);
    assert_eq!(handle_key(&mut app, ch('1')), KeyAction::SelectPriority);
    assert_eq!(app.priority_selection, 4);
    assert_eq!(handle_key(&mut app, ch('4')), KeyAction::SelectPriority);
    assert_eq!(app.priority_selection, 1);
    assert_eq!(handle_key(&mut app, ch('3')), KeyAction::SelectPriority);
    assert_eq!(app.priority_selection, 2);
    assert_eq!(handle_key(&mut app, code(KeyCode::Esc)), KeyAction::Consumed);
    assert!(!app.show_priority_picker);

    app.active_pane = Pane::Settings;
    assert_eq!(settings_item_count(), 2);
    assert_eq!(handle_key(&mut app, code(KeyCode::Enter)), KeyAction::ToggleMode);
    assert_eq!(handle_key(&mut app, ch('j')), KeyAction::Consumed);
    assert_eq!(app.settings_selection, 1);
    assert_eq!(handle_key(&mut app, ch(' ')), KeyAction::OpenThemePicker);
    handle_key(&mut app, ch('j'));
    assert_eq!(app.settings_selection, 0);
    handle_key(&mut app, ch('k'));
    assert_eq!(app.settings_selection, 1);
    assert_eq!(handle_key(&mut app, ch('q')), KeyAction::ToggleSettings);
    assert_eq!(handle_key(&mut app, ch('x')), KeyAction::Ignored);
}

#[test]
fn detail_and_other_modes() {
    let mut app = km_app();
    app.active_pane = Pane::Detail;
    assert_eq!(handle_key(&mut app, ch('h')), KeyAction::CloseDetail);
    assert_eq!(handle_key(&mut app, code(KeyCode::BackTab)), KeyAction::CloseDetail);
    assert_eq!(handle_key(&mut app, ch('x')), KeyAction::CompleteTask);
    assert_eq!(handle_key(&mut app, ch('c')), KeyAction::StartCommentInput);
    assert_eq!(handle_key(&mut app, code(KeyCode::Enter)), KeyAction::StartFieldEdit);
    assert_eq!(handle_key(&mut app, ch('j')), KeyAction::DetailFieldDown);
    assert_eq!(handle_key(&mut app, ch('k')), KeyAction::DetailFieldUp);
    assert_eq!(handle_key(&mut app, ch('w')), KeyAction::Ignored);
    app.active_pane = Pane::Tasks;
    app.input_mode = InputMode::Vim(VimState::Visual);
    assert_eq!(handle_key(&mut app, code(KeyCode::Esc)), KeyAction::Consumed);
    assert_eq!(handle_key(&mut app, ch('j')), KeyAction::Ignored);
    app.input_mode = InputMode::Vim(VimState::Insert);
    assert_eq!(handle_key(&mut app, code(KeyCode::Esc)), KeyAction::CancelInput);
    assert_eq!(handle_key(&mut app, code(KeyCode::Enter)), KeyAction::SubmitInput);
    assert_eq!(handle_key(&mut app, ch('j')), KeyAction::Consumed);
    app.input_mode = InputMode::Standard;
    assert_eq!(handle_key(&mut app, ch('j')), KeyAction::Ignored);
    assert_eq!(handle_key(&mut app, code(KeyCode::Down)), KeyAction::Consumed);
    assert_eq!(app.selected_task, 1);
    assert_eq!(handle_key(&mut app, code(KeyCode::End)), KeyAction::Consumed);
    assert_eq!(app.selected_task, 2);
    assert_eq!(handle_key(&mut app, code(KeyCode::Home)), KeyAction::Consumed);
    assert_eq!(app.selected_task, 0);
    assert_eq!(handle_key(&mut app, Key { code: KeyCode::Char('a'), ctrl: true }), KeyAction::StartInput);
    assert_eq!(handle_key(&mut app, Key { code: KeyCode::Char('x'), ctrl: true }), KeyAction::CompleteTask);
    assert_eq!(handle_key(&mut app, Key { code: KeyCode::Char('q'), ctrl: true }), KeyAction::Ignored);
    assert_eq!(handle_key(&mut app, ch('q')), KeyAction::Quit);
    assert_eq!(handle_key(&mut app, code(KeyCode::Left)), KeyAction::Consumed);
    assert_eq!(app.active_pane, Pane::Projects);
    assert_eq!(handle_key(&mut app, code(KeyCode::Other)), KeyAction::Ignored);
}
