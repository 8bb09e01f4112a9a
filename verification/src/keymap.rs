//! The key bindings: which intent a key stands for in each state of the
//! interface, and what the key does to the state by itself.

use crate::app::App;
use crate::keys::KeyAction;
use crate::state::{InputMode, Pane, TaskForm, VimState};
use vstd::prelude::*;

verus! {

/// `String::pop` takes the last character off the string, if there is one.
pub assume_specification[ String::pop ](s: &mut String) -> (r: Option<char>)
    ensures
        old(s)@.len() > 0 ==> final(s)@ == old(s)@.drop_last() && r == Some(old(s)@.last()),
        old(s)@.len() == 0 ==> final(s)@ == old(s)@ && r is None,
;

/// A key, as far as the bindings tell keys apart.
#[derive(Debug, Clone, Copy, PartialEq, Eq, Structural)]
pub enum KeyCode {
    Char(char),
    Enter,
    Esc,
    Backspace,
    Tab,
    BackTab,
    Up,
    Down,
    Left,
    Right,
    Home,
    End,
    Other,
}

/// A key press: the key, and whether `Ctrl` was held.
#[derive(Debug, Clone, Copy, PartialEq, Eq, Structural)]
pub struct Key {
    pub code: KeyCode,
    pub ctrl: bool,
}

/// Whether the form is shown, and whether one of its fields is edited.
#[derive(Debug, Clone, Copy, PartialEq, Eq, Structural)]
pub enum FormState {
    Absent,
    Browsing,
    Editing,
}

/// The table that reads a key.
#[derive(Debug, Clone, Copy, PartialEq, Eq, Structural)]
pub enum Handler {
    Quit,
    Help,
    Input,
    FormNav,
    ThemePicker,
    Settings,
    PriorityPicker,
    Detail,
    VimNormal,
    VimVisual,
    VimInsert,
    Standard,
}

/// What a key does to the state by itself, before its intent is carried
/// out.
#[derive(Debug, Clone, Copy, PartialEq, Eq, Structural)]
pub enum Edit {
    Nothing,
    /// Take the last character off the input line.
    PopChar,
    /// Put a character at the end of the input line.
    PushChar(char),
    /// Go back to editing the content of the form.
    EditContent,
    ThemeDown,
    ThemeUp,
    ClosePriorityPicker,
    PriorityDown,
    PriorityUp,
    PrioritySet(u8),
    SettingsDown,
    SettingsUp,
    /// Wait for the second key of a fold command.
    AwaitFoldKey,
    /// The second key of a fold command came in.
    ClearFoldKey,
    MoveDown,
    MoveUp,
    JumpTop,
    JumpBottom,
    FocusTasks,
    FocusProjects,
}

/// The intent of a key and what the key does by itself.
#[derive(Debug, Clone, Copy, PartialEq, Eq, Structural)]
pub struct Decision {
    pub action: KeyAction,
    pub edit: Edit,
}

/// The decision for a key that does nothing by itself.
pub open spec fn plain(action: KeyAction) -> Decision {
    Decision { action, edit: Edit::Nothing }
}

/// The decision for a key that does nothing by itself.
pub fn plain_of(action: KeyAction) -> (r: Decision)
    ensures
        r == plain(action),
{
    Decision { action, edit: Edit::Nothing }
}

/// Which table reads the key `key`: `Ctrl-c` quits from anywhere; then the help,
/// the form, the input line, the theme picker, the settings, the priority
/// picker and the detail pane come before the mode.
pub open spec fn handler_for(key: Key, show_help: bool, form: FormState, show_input: bool, show_theme_picker: bool, pane: Pane, show_priority_picker: bool, mode: InputMode) -> Handler {
    if key.ctrl && key.code == KeyCode::Char('c') {
        Handler::Quit
    } else if show_help {
        Handler::Help
    } else if form == FormState::Editing {
        Handler::Input
    } else if form == FormState::Browsing {
        Handler::FormNav
    } else if show_input {
        Handler::Input
    } else if show_theme_picker {
        Handler::ThemePicker
    } else if pane == Pane::Settings {
        Handler::Settings
    } else if show_priority_picker {
        Handler::PriorityPicker
    } else if pane == Pane::Detail {
        Handler::Detail
    } else {
        match mode {
            InputMode::Vim(VimState::Normal) => Handler::VimNormal,
            InputMode::Vim(VimState::Visual) => Handler::VimVisual,
            InputMode::Vim(VimState::Insert) => Handler::VimInsert,
            InputMode::Standard => Handler::Standard,
        }
    }
}

/// Which table reads the key `key`: `Ctrl-c` quits from anywhere; then the help,
/// the form, the input line, the theme picker, the settings, the priority
/// picker and the detail pane come before the mode.
pub fn handler_for_of(key: Key, show_help: bool, form: FormState, show_input: bool, show_theme_picker: bool, pane: Pane, show_priority_picker: bool, mode: InputMode) -> (r: Handler)
    ensures
        r == handler_for(key, show_help, form, show_input, show_theme_picker, pane, show_priority_picker, mode),
{
    if key.ctrl && key.code == KeyCode::Char('c') {
        Handler::Quit
    } else if show_help {
        Handler::Help
    } else if form == FormState::Editing {
        Handler::Input
    } else if form == FormState::Browsing {
        Handler::FormNav
    } else if show_input {
        Handler::Input
    } else if show_theme_picker {
        Handler::ThemePicker
    } else if pane == Pane::Settings {
        Handler::Settings
    } else if show_priority_picker {
        Handler::PriorityPicker
    } else if pane == Pane::Detail {
        Handler::Detail
    } else {
        match mode {
            InputMode::Vim(VimState::Normal) => Handler::VimNormal,
            InputMode::Vim(VimState::Visual) => Handler::VimVisual,
            InputMode::Vim(VimState::Insert) => Handler::VimInsert,
            InputMode::Standard => Handler::Standard,
        }
    }
}

/// The keys of the help: `?`, `Esc` and `q` close it, and it swallows the rest.
pub open spec fn help_key(code: KeyCode) -> Decision {
    match code {
        KeyCode::Char(c) => if c == '?' || c == 'q' {
            plain(KeyAction::ToggleHelp)
        } else {
            plain(KeyAction::Consumed)
        },
        KeyCode::Esc => plain(KeyAction::ToggleHelp),
        _ => plain(KeyAction::Consumed),
    }
}

/// The keys of the help: `?`, `Esc` and `q` close it, and it swallows the rest.
pub fn help_key_of(code: KeyCode) -> (r: Decision)
    ensures
        r == help_key(code),
{
    match code {
        KeyCode::Char(c) => if c == '?' || c == 'q' {
            plain_of(KeyAction::ToggleHelp)
        } else {
            plain_of(KeyAction::Consumed)
        },
        KeyCode::Esc => plain_of(KeyAction::ToggleHelp),
        _ => plain_of(KeyAction::Consumed),
    }
}

/// The keys of the input line. `Esc` cancels the content of the form and leaves
/// its other fields; outside the form it submits in the modal editor and
/// cancels otherwise. `Enter` submits. Characters go to the line, and
/// `Backspace` takes the last one away.
pub open spec fn input_key(code: KeyCode, form: FormState, on_content: bool, vim: bool) -> Decision {
    match code {
        KeyCode::Esc => if form != FormState::Absent {
            if on_content {
                plain(KeyAction::CancelInput)
            } else {
                plain(KeyAction::FormEscNormal)
            }
        } else if !vim {
            plain(KeyAction::CancelInput)
        } else {
            plain(KeyAction::SubmitInput)
        },
        KeyCode::Enter => plain(KeyAction::SubmitInput),
        KeyCode::Backspace => Decision { action: KeyAction::Consumed, edit: Edit::PopChar },
        KeyCode::Char(c) => Decision { action: KeyAction::Consumed, edit: Edit::PushChar(c) },
        _ => plain(KeyAction::Consumed),
    }
}

/// The keys of the input line. `Esc` cancels the content of the form and leaves
/// its other fields; outside the form it submits in the modal editor and
/// cancels otherwise. `Enter` submits. Characters go to the line, and
/// `Backspace` takes the last one away.
pub fn input_key_of(code: KeyCode, form: FormState, on_content: bool, vim: bool) -> (r: Decision)
    ensures
        r == input_key(code, form, on_content, vim),
{
    match code {
        KeyCode::Esc => if form != FormState::Absent {
            if on_content {
                plain_of(KeyAction::CancelInput)
            } else {
                plain_of(KeyAction::FormEscNormal)
            }
        } else if !vim {
            plain_of(KeyAction::CancelInput)
        } else {
            plain_of(KeyAction::SubmitInput)
        },
        KeyCode::Enter => plain_of(KeyAction::SubmitInput),
        KeyCode::Backspace => Decision { action: KeyAction::Consumed, edit: Edit::PopChar },
        KeyCode::Char(c) => Decision { action: KeyAction::Consumed, edit: Edit::PushChar(c) },
        _ => plain_of(KeyAction::Consumed),
    }
}

/// The keys of the form while no field is edited.
pub open spec fn form_key(code: KeyCode, on_content: bool) -> Decision {
    match code {
        KeyCode::Char(c) => if c == 'q' {
            plain(KeyAction::CancelInput)
        } else if c == 'j' {
            plain(KeyAction::FormFieldDown)
        } else if c == 'k' {
            plain(KeyAction::FormFieldUp)
        } else if c == 'i' || c == ' ' {
            plain(KeyAction::FormEditField)
        } else {
            plain(KeyAction::Consumed)
        },
        KeyCode::Esc => if on_content {
            plain(KeyAction::CancelInput)
        } else {
            Decision { action: KeyAction::Consumed, edit: Edit::EditContent }
        },
        KeyCode::Down => plain(KeyAction::FormFieldDown),
        KeyCode::Up => plain(KeyAction::FormFieldUp),
        KeyCode::Enter => plain(KeyAction::FormEditField),
        KeyCode::Tab => plain(KeyAction::SubmitForm),
        _ => plain(KeyAction::Consumed),
    }
}

/// The keys of the form while no field is edited.
pub fn form_key_of(code: KeyCode, on_content: bool) -> (r: Decision)
    ensures
        r == form_key(code, on_content),
{
    match code {
        KeyCode::Char(c) => if c == 'q' {
            plain_of(KeyAction::CancelInput)
        } else if c == 'j' {
            plain_of(KeyAction::FormFieldDown)
        } else if c == 'k' {
            plain_of(KeyAction::FormFieldUp)
        } else if c == 'i' || c == ' ' {
            plain_of(KeyAction::FormEditField)
        } else {
            plain_of(KeyAction::Consumed)
        },
        KeyCode::Esc => if on_content {
            plain_of(KeyAction::CancelInput)
        } else {
            Decision { action: KeyAction::Consumed, edit: Edit::EditContent }
        },
        KeyCode::Down => plain_of(KeyAction::FormFieldDown),
        KeyCode::Up => plain_of(KeyAction::FormFieldUp),
        KeyCode::Enter => plain_of(KeyAction::FormEditField),
        KeyCode::Tab => plain_of(KeyAction::SubmitForm),
        _ => plain_of(KeyAction::Consumed),
    }
}

/// The keys of the theme picker.
pub open spec fn theme_key(code: KeyCode) -> Decision {
    match code {
        KeyCode::Char(c) => if c == 'q' {
            plain(KeyAction::CloseThemePicker)
        } else if c == 'j' {
            Decision { action: KeyAction::Consumed, edit: Edit::ThemeDown }
        } else if c == 'k' {
            Decision { action: KeyAction::Consumed, edit: Edit::ThemeUp }
        } else if c == ' ' {
            plain(KeyAction::SelectTheme)
        } else {
            plain(KeyAction::Consumed)
        },
        KeyCode::Esc => plain(KeyAction::CloseThemePicker),
        KeyCode::Down => Decision { action: KeyAction::Consumed, edit: Edit::ThemeDown },
        KeyCode::Up => Decision { action: KeyAction::Consumed, edit: Edit::ThemeUp },
        KeyCode::Enter => plain(KeyAction::SelectTheme),
        _ => plain(KeyAction::Consumed),
    }
}

/// The keys of the theme picker.
pub fn theme_key_of(code: KeyCode) -> (r: Decision)
    ensures
        r == theme_key(code),
{
    match code {
        KeyCode::Char(c) => if c == 'q' {
            plain_of(KeyAction::CloseThemePicker)
        } else if c == 'j' {
            Decision { action: KeyAction::Consumed, edit: Edit::ThemeDown }
        } else if c == 'k' {
            Decision { action: KeyAction::Consumed, edit: Edit::ThemeUp }
        } else if c == ' ' {
            plain_of(KeyAction::SelectTheme)
        } else {
            plain_of(KeyAction::Consumed)
        },
        KeyCode::Esc => plain_of(KeyAction::CloseThemePicker),
        KeyCode::Down => Decision { action: KeyAction::Consumed, edit: Edit::ThemeDown },
        KeyCode::Up => Decision { action: KeyAction::Consumed, edit: Edit::ThemeUp },
        KeyCode::Enter => plain_of(KeyAction::SelectTheme),
        _ => plain_of(KeyAction::Consumed),
    }
}

/// The keys of the priority picker. The digits choose a priority at once: `1`
/// is the most urgent.
pub open spec fn priority_key(code: KeyCode) -> Decision {
    match code {
        KeyCode::Char(c) => if c == 'q' {
            Decision { action: KeyAction::Consumed, edit: Edit::ClosePriorityPicker }
        } else if c == 'j' {
            Decision { action: KeyAction::Consumed, edit: Edit::PriorityDown }
        } else if c == 'k' {
            Decision { action: KeyAction::Consumed, edit: Edit::PriorityUp }
        } else if c == '1' {
            Decision { action: KeyAction::SelectPriority, edit: Edit::PrioritySet(4) }
        } else if c == '2' {
            Decision { action: KeyAction::SelectPriority, edit: Edit::PrioritySet(3) }
        } else if c == '3' {
            Decision { action: KeyAction::SelectPriority, edit: Edit::PrioritySet(2) }
        } else if c == '4' {
            Decision { action: KeyAction::SelectPriority, edit: Edit::PrioritySet(1) }
        } else if c == ' ' {
            plain(KeyAction::SelectPriority)
        } else {
            plain(KeyAction::Consumed)
        },
        KeyCode::Esc => Decision { action: KeyAction::Consumed, edit: Edit::ClosePriorityPicker },
        KeyCode::Down => Decision { action: KeyAction::Consumed, edit: Edit::PriorityDown },
        KeyCode::Up => Decision { action: KeyAction::Consumed, edit: Edit::PriorityUp },
        KeyCode::Enter => plain(KeyAction::SelectPriority),
        _ => plain(KeyAction::Consumed),
    }
}

/// The keys of the priority picker. The digits choose a priority at once: `1`
/// is the most urgent.
pub fn priority_key_of(code: KeyCode) -> (r: Decision)
    ensures
        r == priority_key(code),
{
    match code {
        KeyCode::Char(c) => if c == 'q' {
            Decision { action: KeyAction::Consumed, edit: Edit::ClosePriorityPicker }
        } else if c == 'j' {
            Decision { action: KeyAction::Consumed, edit: Edit::PriorityDown }
        } else if c == 'k' {
            Decision { action: KeyAction::Consumed, edit: Edit::PriorityUp }
        } else if c == '1' {
            Decision { action: KeyAction::SelectPriority, edit: Edit::PrioritySet(4) }
        } else if c == '2' {
            Decision { action: KeyAction::SelectPriority, edit: Edit::PrioritySet(3) }
        } else if c == '3' {
            Decision { action: KeyAction::SelectPriority, edit: Edit::PrioritySet(2) }
        } else if c == '4' {
            Decision { action: KeyAction::SelectPriority, edit: Edit::PrioritySet(1) }
        } else if c == ' ' {
            plain_of(KeyAction::SelectPriority)
        } else {
            plain_of(KeyAction::Consumed)
        },
        KeyCode::Esc => Decision { action: KeyAction::Consumed, edit: Edit::ClosePriorityPicker },
        KeyCode::Down => Decision { action: KeyAction::Consumed, edit: Edit::PriorityDown },
        KeyCode::Up => Decision { action: KeyAction::Consumed, edit: Edit::PriorityUp },
        KeyCode::Enter => plain_of(KeyAction::SelectPriority),
        _ => plain_of(KeyAction::Consumed),
    }
}

/// The keys of the detail pane.
pub open spec fn detail_key(code: KeyCode) -> Decision {
    match code {
        KeyCode::Char(c) => if c == 'h' {
            plain(KeyAction::CloseDetail)
        } else if c == 'q' {
            plain(KeyAction::Quit)
        } else if c == '?' {
            plain(KeyAction::ToggleHelp)
        } else if c == 'x' {
            plain(KeyAction::CompleteTask)
        } else if c == 'c' {
            plain(KeyAction::StartCommentInput)
        } else if c == 'i' {
            plain(KeyAction::StartFieldEdit)
        } else if c == 'j' {
            plain(KeyAction::DetailFieldDown)
        } else if c == 'k' {
            plain(KeyAction::DetailFieldUp)
        } else {
            plain(KeyAction::Ignored)
        },
        KeyCode::Esc => plain(KeyAction::CloseDetail),
        KeyCode::Left => plain(KeyAction::CloseDetail),
        KeyCode::BackTab => plain(KeyAction::CloseDetail),
        KeyCode::Enter => plain(KeyAction::StartFieldEdit),
        KeyCode::Down => plain(KeyAction::DetailFieldDown),
        KeyCode::Up => plain(KeyAction::DetailFieldUp),
        _ => plain(KeyAction::Ignored),
    }
}

/// The keys of the detail pane.
pub fn detail_key_of(code: KeyCode) -> (r: Decision)
    ensures
        r == detail_key(code),
{
    match code {
        KeyCode::Char(c) => if c == 'h' {
            plain_of(KeyAction::CloseDetail)
        } else if c == 'q' {
            plain_of(KeyAction::Quit)
        } else if c == '?' {
            plain_of(KeyAction::ToggleHelp)
        } else if c == 'x' {
            plain_of(KeyAction::CompleteTask)
        } else if c == 'c' {
            plain_of(KeyAction::StartCommentInput)
        } else if c == 'i' {
            plain_of(KeyAction::StartFieldEdit)
        } else if c == 'j' {
            plain_of(KeyAction::DetailFieldDown)
        } else if c == 'k' {
            plain_of(KeyAction::DetailFieldUp)
        } else {
            plain_of(KeyAction::Ignored)
        },
        KeyCode::Esc => plain_of(KeyAction::CloseDetail),
        KeyCode::Left => plain_of(KeyAction::CloseDetail),
        KeyCode::BackTab => plain_of(KeyAction::CloseDetail),
        KeyCode::Enter => plain_of(KeyAction::StartFieldEdit),
        KeyCode::Down => plain_of(KeyAction::DetailFieldDown),
        KeyCode::Up => plain_of(KeyAction::DetailFieldUp),
        _ => plain_of(KeyAction::Ignored),
    }
}

/// The keys of the settings. `Enter` on the first entry toggles the input mode
/// and on the second opens the theme picker.
pub open spec fn settings_key(code: KeyCode, selection: usize) -> Decision {
    match code {
        KeyCode::Char(c) => if c == 'q' {
            plain(KeyAction::ToggleSettings)
        } else if c == 'j' {
            Decision { action: KeyAction::Consumed, edit: Edit::SettingsDown }
        } else if c == 'k' {
            Decision { action: KeyAction::Consumed, edit: Edit::SettingsUp }
        } else if c == ' ' {
            if selection == 0 {
                plain(KeyAction::ToggleMode)
            } else if selection == 1 {
                plain(KeyAction::OpenThemePicker)
            } else {
                plain(KeyAction::Consumed)
            }
        } else {
            plain(KeyAction::Ignored)
        },
        KeyCode::Esc => plain(KeyAction::ToggleSettings),
        KeyCode::Down => Decision { action: KeyAction::Consumed, edit: Edit::SettingsDown },
        KeyCode::Up => Decision { action: KeyAction::Consumed, edit: Edit::SettingsUp },
        KeyCode::Enter => if selection == 0 {
            plain(KeyAction::ToggleMode)
        } else if selection == 1 {
            plain(KeyAction::OpenThemePicker)
        } else {
            plain(KeyAction::Consumed)
        },
        _ => plain(KeyAction::Ignored),
    }
}

/// The keys of the settings. `Enter` on the first entry toggles the input mode
/// and on the second opens the theme picker.
pub fn settings_key_of(code: KeyCode, selection: usize) -> (r: Decision)
    ensures
        r == settings_key(code, selection),
{
    match code {
        KeyCode::Char(c) => if c == 'q' {
            plain_of(KeyAction::ToggleSettings)
        } else if c == 'j' {
            Decision { action: KeyAction::Consumed, edit: Edit::SettingsDown }
        } else if c == 'k' {
            Decision { action: KeyAction::Consumed, edit: Edit::SettingsUp }
        } else if c == ' ' {
            if selection == 0 {
                plain_of(KeyAction::ToggleMode)
            } else if selection == 1 {
                plain_of(KeyAction::OpenThemePicker)
            } else {
                plain_of(KeyAction::Consumed)
            }
        } else {
            plain_of(KeyAction::Ignored)
        },
        KeyCode::Esc => plain_of(KeyAction::ToggleSettings),
        KeyCode::Down => Decision { action: KeyAction::Consumed, edit: Edit::SettingsDown },
        KeyCode::Up => Decision { action: KeyAction::Consumed, edit: Edit::SettingsUp },
        KeyCode::Enter => if selection == 0 {
            plain_of(KeyAction::ToggleMode)
        } else if selection == 1 {
            plain_of(KeyAction::OpenThemePicker)
        } else {
            plain_of(KeyAction::Consumed)
        },
        _ => plain_of(KeyAction::Ignored),
    }
}

/// The second key after `z`: `a` toggles the fold under the cursor, `R` opens
/// all folds and `M` closes them.
pub open spec fn fold_key(code: KeyCode, pane: Pane) -> Decision {
    match code {
        KeyCode::Char(c) => if c == 'a' && pane == Pane::Tasks {
            plain(KeyAction::ToggleCollapse)
        } else if c == 'R' {
            plain(KeyAction::OpenAllFolds)
        } else if c == 'M' {
            plain(KeyAction::CloseAllFolds)
        } else {
            plain(KeyAction::Consumed)
        },
        _ => plain(KeyAction::Consumed),
    }
}

/// The second key after `z`: `a` toggles the fold under the cursor, `R` opens
/// all folds and `M` closes them.
pub fn fold_key_of(code: KeyCode, pane: Pane) -> (r: Decision)
    ensures
        r == fold_key(code, pane),
{
    match code {
        KeyCode::Char(c) => if c == 'a' && pane == Pane::Tasks {
            plain_of(KeyAction::ToggleCollapse)
        } else if c == 'R' {
            plain_of(KeyAction::OpenAllFolds)
        } else if c == 'M' {
            plain_of(KeyAction::CloseAllFolds)
        } else {
            plain_of(KeyAction::Consumed)
        },
        _ => plain_of(KeyAction::Consumed),
    }
}

/// The keys that move between and inside the panes, in either mode.
pub open spec fn pane_key(code: KeyCode, pane: Pane) -> Decision {
    match code {
        KeyCode::Down => Decision { action: KeyAction::Consumed, edit: Edit::MoveDown },
        KeyCode::Up => Decision { action: KeyAction::Consumed, edit: Edit::MoveUp },
        KeyCode::Tab => Decision {
            action: KeyAction::Consumed,
            edit: if pane == Pane::Projects {
                Edit::FocusTasks
            } else {
                Edit::Nothing
            },
        },
        KeyCode::Right => Decision {
            action: KeyAction::Consumed,
            edit: if pane == Pane::Projects {
                Edit::FocusTasks
            } else {
                Edit::Nothing
            },
        },
        KeyCode::BackTab => Decision {
            action: KeyAction::Consumed,
            edit: if pane == Pane::Tasks {
                Edit::FocusProjects
            } else {
                Edit::Nothing
            },
        },
        KeyCode::Left => Decision {
            action: KeyAction::Consumed,
            edit: if pane == Pane::Tasks {
                Edit::FocusProjects
            } else {
                Edit::Nothing
            },
        },
        KeyCode::Enter => if pane == Pane::Projects {
            Decision { action: KeyAction::Consumed, edit: Edit::FocusTasks }
        } else if pane == Pane::Tasks {
            plain(KeyAction::OpenDetail)
        } else {
            plain(KeyAction::Consumed)
        },
        KeyCode::Esc => if pane == Pane::Tasks {
            Decision { action: KeyAction::Consumed, edit: Edit::FocusProjects }
        } else {
            plain(KeyAction::Ignored)
        },
        _ => plain(KeyAction::Ignored),
    }
}

/// The keys that move between and inside the panes, in either mode.
pub fn pane_key_of(code: KeyCode, pane: Pane) -> (r: Decision)
    ensures
        r == pane_key(code, pane),
{
    match code {
        KeyCode::Down => Decision { action: KeyAction::Consumed, edit: Edit::MoveDown },
        KeyCode::Up => Decision { action: KeyAction::Consumed, edit: Edit::MoveUp },
        KeyCode::Tab => Decision {
            action: KeyAction::Consumed,
            edit: if pane == Pane::Projects {
                Edit::FocusTasks
            } else {
                Edit::Nothing
            },
        },
        KeyCode::Right => Decision {
            action: KeyAction::Consumed,
            edit: if pane == Pane::Projects {
                Edit::FocusTasks
            } else {
                Edit::Nothing
            },
        },
        KeyCode::BackTab => Decision {
            action: KeyAction::Consumed,
            edit: if pane == Pane::Tasks {
                Edit::FocusProjects
            } else {
                Edit::Nothing
            },
        },
        KeyCode::Left => Decision {
            action: KeyAction::Consumed,
            edit: if pane == Pane::Tasks {
                Edit::FocusProjects
            } else {
                Edit::Nothing
            },
        },
        KeyCode::Enter => if pane == Pane::Projects {
            Decision { action: KeyAction::Consumed, edit: Edit::FocusTasks }
        } else if pane == Pane::Tasks {
            plain_of(KeyAction::OpenDetail)
        } else {
            plain_of(KeyAction::Consumed)
        },
        KeyCode::Esc => if pane == Pane::Tasks {
            Decision { action: KeyAction::Consumed, edit: Edit::FocusProjects }
        } else {
            plain_of(KeyAction::Ignored)
        },
        _ => plain_of(KeyAction::Ignored),
    }
}

/// The keys of the modal editor's normal mode.
pub open spec fn vim_key(code: KeyCode, pane: Pane) -> Decision {
    match code {
        KeyCode::Char(c) => if c == 'q' {
            plain(KeyAction::Quit)
        } else if c == '?' {
            plain(KeyAction::ToggleHelp)
        } else if c == ',' {
            plain(KeyAction::ToggleSettings)
        } else if c == 'z' {
            Decision { action: KeyAction::Consumed, edit: Edit::AwaitFoldKey }
        } else if c == 'x' && pane == Pane::Tasks {
            plain(KeyAction::CompleteTask)
        } else if c == 'a' && pane == Pane::Tasks {
            plain(KeyAction::StartInput)
        } else if c == 'o' && pane == Pane::Tasks {
            plain(KeyAction::CycleSort)
        } else if c == 's' && pane == Pane::Projects {
            plain(KeyAction::StarProject)
        } else if c == 'j' {
            Decision { action: KeyAction::Consumed, edit: Edit::MoveDown }
        } else if c == 'k' {
            Decision { action: KeyAction::Consumed, edit: Edit::MoveUp }
        } else if c == 'g' {
            Decision { action: KeyAction::Consumed, edit: Edit::JumpTop }
        } else if c == 'G' {
            Decision { action: KeyAction::Consumed, edit: Edit::JumpBottom }
        } else if c == 'l' {
            pane_key(KeyCode::Right, pane)
        } else if c == 'h' {
            pane_key(KeyCode::Left, pane)
        } else if c == ' ' && pane == Pane::Tasks {
            plain(KeyAction::ToggleCollapse)
        } else {
            plain(KeyAction::Ignored)
        },
        _ => pane_key(code, pane),
    }
}

/// The keys of the modal editor's normal mode.
pub fn vim_key_of(code: KeyCode, pane: Pane) -> (r: Decision)
    ensures
        r == vim_key(code, pane),
{
    match code {
        KeyCode::Char(c) => if c == 'q' {
            plain_of(KeyAction::Quit)
        } else if c == '?' {
            plain_of(KeyAction::ToggleHelp)
        } else if c == ',' {
            plain_of(KeyAction::ToggleSettings)
        } else if c == 'z' {
            Decision { action: KeyAction::Consumed, edit: Edit::AwaitFoldKey }
        } else if c == 'x' && pane == Pane::Tasks {
            plain_of(KeyAction::CompleteTask)
        } else if c == 'a' && pane == Pane::Tasks {
            plain_of(KeyAction::StartInput)
        } else if c == 'o' && pane == Pane::Tasks {
            plain_of(KeyAction::CycleSort)
        } else if c == 's' && pane == Pane::Projects {
            plain_of(KeyAction::StarProject)
        } else if c == 'j' {
            Decision { action: KeyAction::Consumed, edit: Edit::MoveDown }
        } else if c == 'k' {
            Decision { action: KeyAction::Consumed, edit: Edit::MoveUp }
        } else if c == 'g' {
            Decision { action: KeyAction::Consumed, edit: Edit::JumpTop }
        } else if c == 'G' {
            Decision { action: KeyAction::Consumed, edit: Edit::JumpBottom }
        } else if c == 'l' {
            pane_key_of(KeyCode::Right, pane)
        } else if c == 'h' {
            pane_key_of(KeyCode::Left, pane)
        } else if c == ' ' && pane == Pane::Tasks {
            plain_of(KeyAction::ToggleCollapse)
        } else {
            plain_of(KeyAction::Ignored)
        },
        _ => pane_key_of(code, pane),
    }
}

/// The keys of the standard mode.
pub open spec fn standard_key(code: KeyCode, ctrl: bool, pane: Pane) -> Decision {
    if ctrl {
        match code {
            KeyCode::Char(c) => if c == 'a' && pane == Pane::Tasks {
                plain(KeyAction::StartInput)
            } else if c == 'x' && pane == Pane::Tasks {
                plain(KeyAction::CompleteTask)
            } else {
                plain(KeyAction::Ignored)
            },
            _ => plain(KeyAction::Ignored),
        }
    } else {
        match code {
            KeyCode::Char(c) => if c == 'q' {
                plain(KeyAction::Quit)
            } else if c == '?' {
                plain(KeyAction::ToggleHelp)
            } else if c == ',' {
                plain(KeyAction::ToggleSettings)
            } else {
                plain(KeyAction::Ignored)
            },
            KeyCode::Home => Decision { action: KeyAction::Consumed, edit: Edit::JumpTop },
            KeyCode::End => Decision { action: KeyAction::Consumed, edit: Edit::JumpBottom },
            _ => pane_key(code, pane),
        }
    }
}

/// The keys of the standard mode.
pub fn standard_key_of(code: KeyCode, ctrl: bool, pane: Pane) -> (r: Decision)
    ensures
        r == standard_key(code, ctrl, pane),
{
    if ctrl {
        match code {
            KeyCode::Char(c) => if c == 'a' && pane == Pane::Tasks {
                plain_of(KeyAction::StartInput)
            } else if c == 'x' && pane == Pane::Tasks {
                plain_of(KeyAction::CompleteTask)
            } else {
                plain_of(KeyAction::Ignored)
            },
            _ => plain_of(KeyAction::Ignored),
        }
    } else {
        match code {
            KeyCode::Char(c) => if c == 'q' {
                plain_of(KeyAction::Quit)
            } else if c == '?' {
                plain_of(KeyAction::ToggleHelp)
            } else if c == ',' {
                plain_of(KeyAction::ToggleSettings)
            } else {
                plain_of(KeyAction::Ignored)
            },
            KeyCode::Home => Decision { action: KeyAction::Consumed, edit: Edit::JumpTop },
            KeyCode::End => Decision { action: KeyAction::Consumed, edit: Edit::JumpBottom },
            _ => pane_key_of(code, pane),
        }
    }
}

/// The keys of the modal editor's visual mode.
pub open spec fn visual_key(code: KeyCode) -> Decision {
    match code {
        KeyCode::Esc => plain(KeyAction::Consumed),
        _ => plain(KeyAction::Ignored),
    }
}

/// The keys of the modal editor's visual mode.
pub fn visual_key_of(code: KeyCode) -> (r: Decision)
    ensures
        r == visual_key(code),
{
    match code {
        KeyCode::Esc => plain_of(KeyAction::Consumed),
        _ => plain_of(KeyAction::Ignored),
    }
}

/// The keys of the modal editor's insert mode outside the input line.
pub open spec fn insert_key(code: KeyCode) -> Decision {
    match code {
        KeyCode::Esc => plain(KeyAction::CancelInput),
        KeyCode::Enter => plain(KeyAction::SubmitInput),
        _ => plain(KeyAction::Consumed),
    }
}

/// The keys of the modal editor's insert mode outside the input line.
pub fn insert_key_of(code: KeyCode) -> (r: Decision)
    ensures
        r == insert_key(code),
{
    match code {
        KeyCode::Esc => plain_of(KeyAction::CancelInput),
        KeyCode::Enter => plain_of(KeyAction::SubmitInput),
        _ => plain_of(KeyAction::Consumed),
    }
}

/// The cursor after a step down or up a list of `len` lines, around the
/// list; it stays where the list is empty.
pub open spec fn stepped(cursor: usize, len: nat, down: bool) -> usize {
    if len == 0 {
        cursor
    } else if down {
        (((cursor as int) % (len as int) + 1) % (len as int)) as usize
    } else {
        (((cursor as int) % (len as int) + len - 1) % (len as int)) as usize
    }
}

/// The cursor after a step down or up a list of `len` lines.
pub fn step_cursor(cursor: usize, len: usize, down: bool) -> (r: usize)
    ensures
        r == stepped(cursor, len as nat, down),
{
    if len == 0 {
        cursor
    } else {
        let c = cursor % len;
        proof {
            let n = len as int;
            let ci = c as int;
            assert(n % n == 0) by (nonlinear_arith)
                requires
                    n > 0,
            ;
            if ci + 1 < n {
                assert((ci + 1) % n == ci + 1) by (nonlinear_arith)
                    requires
                        0 <= ci + 1 < n,
                ;
            }
            if ci == 0 {
                assert((n - 1) % n == n - 1) by (nonlinear_arith)
                    requires
                        0 <= n - 1 < n,
                ;
            } else {
                assert((ci + n - 1) % n == ci - 1) by (nonlinear_arith)
                    requires
                        0 <= ci - 1 < n,
                        n > 0,
                ;
            }
        }
        if down {
            if c + 1 == len {
                0
            } else {
                c + 1
            }
        } else if c == 0 {
            len - 1
        } else {
            c - 1
        }
    }
}

/// How many entries the settings have.
pub fn settings_item_count() -> (n: usize)
    ensures
        n == 2,
{
    2
}

/// The priority below `p` in the picker, around the priorities.
pub open spec fn priority_below(p: u8) -> u8 {
    if p == 4 {
        3
    } else if p == 3 {
        2
    } else if p == 2 {
        1
    } else {
        4
    }
}

/// The priority above `p` in the picker, around the priorities.
pub open spec fn priority_above(p: u8) -> u8 {
    if p == 1 {
        2
    } else if p == 2 {
        3
    } else if p == 3 {
        4
    } else {
        1
    }
}

/// The theme selection after a step up the list of `count` themes.
pub open spec fn theme_above(selection: usize, count: nat) -> usize {
    if count == 0 {
        selection
    } else if selection == 0 {
        (count - 1) as usize
    } else {
        (selection - 1) as usize
    }
}

/// The number of themes that the picker steps through: at least one.
pub open spec fn at_least_one(count: nat) -> nat {
    if count == 0 {
        1
    } else {
        count
    }
}

/// The edge of a list of `len` lines: its first line, or its last.
pub open spec fn edge(len: nat, top: bool) -> usize {
    if top || len == 0 {
        0
    } else {
        (len - 1) as usize
    }
}

impl App {
    /// Whether the form is shown, and whether one of its fields is edited.
    pub open spec fn form_state(&self) -> FormState {
        match self.task_form {
            Some(f) => if f.editing {
                FormState::Editing
            } else {
                FormState::Browsing
            },
            None => FormState::Absent,
        }
    }

    /// Whether the active field of the form is its content.
    pub open spec fn on_content(&self) -> bool {
        match self.task_form {
            Some(f) => f.active_field == 0,
            None => false,
        }
    }

    /// The decision for the key `key` in this state.
    pub open spec fn decision(&self, key: Key) -> Decision {
        match handler_for(
            key,
            self.show_help,
            self.form_state(),
            self.show_input,
            self.show_theme_picker,
            self.active_pane,
            self.show_priority_picker,
            self.input_mode,
        ) {
            Handler::Quit => plain(KeyAction::Quit),
            Handler::Help => help_key(key.code),
            Handler::Input => input_key(
                key.code,
                self.form_state(),
                self.on_content(),
                self.input_mode is Vim,
            ),
            Handler::FormNav => form_key(key.code, self.on_content()),
            Handler::ThemePicker => theme_key(key.code),
            Handler::Settings => settings_key(key.code, self.settings_selection),
            Handler::PriorityPicker => priority_key(key.code),
            Handler::Detail => detail_key(key.code),
            Handler::VimNormal => if self.pending_z {
                Decision { action: fold_key(key.code, self.active_pane).action, edit: Edit::ClearFoldKey }
            } else {
                vim_key(key.code, self.active_pane)
            },
            Handler::VimVisual => visual_key(key.code),
            Handler::VimInsert => insert_key(key.code),
            Handler::Standard => standard_key(key.code, key.ctrl, self.active_pane),
        }
    }

    /// Whether the form is shown, and whether one of its fields is edited.
    pub fn form_state_of(&self) -> (r: FormState)
        ensures
            r == self.form_state(),
    {
        match &self.task_form {
            Some(f) => if f.editing {
                FormState::Editing
            } else {
                FormState::Browsing
            },
            None => FormState::Absent,
        }
    }

    /// Whether the active field of the form is its content.
    pub fn is_on_content(&self) -> (r: bool)
        ensures
            r == self.on_content(),
    {
        match &self.task_form {
            Some(f) => f.active_field == 0,
            None => false,
        }
    }

    /// The decision for the key `key` in this state.
    pub fn decide(&self, key: Key) -> (d: Decision)
        ensures
            d == self.decision(key),
    {
        let form = self.form_state_of();
        let handler = handler_for_of(
            key,
            self.show_help,
            form,
            self.show_input,
            self.show_theme_picker,
            self.active_pane,
            self.show_priority_picker,
            self.input_mode,
        );
        match handler {
            Handler::Quit => plain_of(KeyAction::Quit),
            Handler::Help => help_key_of(key.code),
            Handler::Input => input_key_of(
                key.code,
                form,
                self.is_on_content(),
                self.input_mode.is_vim(),
            ),
            Handler::FormNav => form_key_of(key.code, self.is_on_content()),
            Handler::ThemePicker => theme_key_of(key.code),
            Handler::Settings => settings_key_of(key.code, self.settings_selection),
            Handler::PriorityPicker => priority_key_of(key.code),
            Handler::Detail => detail_key_of(key.code),
            Handler::VimNormal => if self.pending_z {
                Decision {
                    action: fold_key_of(key.code, self.active_pane).action,
                    edit: Edit::ClearFoldKey,
                }
            } else {
                vim_key_of(key.code, self.active_pane)
            },
            Handler::VimVisual => visual_key_of(key.code),
            Handler::VimInsert => insert_key_of(key.code),
            Handler::Standard => standard_key_of(key.code, key.ctrl, self.active_pane),
        }
    }

    /// The state after one of the edits that set a few fields.
    pub open spec fn fields_edited(pre: App, edit: Edit) -> App {
        let themes = at_least_one(pre.theme_names@.len());
        let in_projects = pre.active_pane == Pane::Projects;
        let in_tasks = pre.active_pane == Pane::Tasks;
        let projects = pre.projects@.len();
        let rows = pre.rows().len();
        App {
            theme_selection: if edit == Edit::ThemeDown {
                stepped(pre.theme_selection, themes, true)
            } else if edit == Edit::ThemeUp {
                theme_above(pre.theme_selection, pre.theme_names@.len())
            } else {
                pre.theme_selection
            },
            show_priority_picker: pre.show_priority_picker && edit != Edit::ClosePriorityPicker,
            priority_selection: match edit {
                Edit::PriorityDown => priority_below(pre.priority_selection),
                Edit::PriorityUp => priority_above(pre.priority_selection),
                Edit::PrioritySet(p) => p,
                _ => pre.priority_selection,
            },
            settings_selection: if edit == Edit::SettingsDown {
                stepped(pre.settings_selection, 2, true)
            } else if edit == Edit::SettingsUp {
                if pre.settings_selection == 0 {
                    1
                } else {
                    (pre.settings_selection - 1) as usize
                }
            } else {
                pre.settings_selection
            },
            pending_z: if edit == Edit::AwaitFoldKey {
                true
            } else if edit == Edit::ClearFoldKey {
                false
            } else {
                pre.pending_z
            },
            active_pane: if edit == Edit::FocusTasks {
                Pane::Tasks
            } else if edit == Edit::FocusProjects {
                Pane::Projects
            } else {
                pre.active_pane
            },
            selected_project: if !in_projects {
                pre.selected_project
            } else if edit == Edit::MoveDown {
                stepped(pre.selected_project, projects, true)
            } else if edit == Edit::MoveUp {
                stepped(pre.selected_project, projects, false)
            } else if edit == Edit::JumpTop {
                edge(projects, true)
            } else if edit == Edit::JumpBottom {
                edge(projects, false)
            } else {
                pre.selected_project
            },
            selected_task: if !in_tasks {
                pre.selected_task
            } else if edit == Edit::MoveDown {
                stepped(pre.selected_task, rows, true)
            } else if edit == Edit::MoveUp {
                stepped(pre.selected_task, rows, false)
            } else if edit == Edit::JumpTop {
                edge(rows, true)
            } else if edit == Edit::JumpBottom {
                edge(rows, false)
            } else {
                pre.selected_task
            },
            ..pre
        }
    }

    /// What the edit `edit` does to the state. The edits of the input line
    /// change its text; going back to the content of the form opens the
    /// input line with the content; every other edit sets a few fields.
    pub open spec fn edited(pre: App, post: App, edit: Edit) -> bool {
        match edit {
            Edit::PopChar => {
                &&& post.input_buffer@ == (if pre.input_buffer@.len() > 0 {
                    pre.input_buffer@.drop_last()
                } else {
                    pre.input_buffer@
                })
                &&& post == (App { input_buffer: post.input_buffer, ..pre })
            },
            Edit::PushChar(c) => {
                &&& post.input_buffer@ == pre.input_buffer@.push(c)
                &&& post == (App { input_buffer: post.input_buffer, ..pre })
            },
            Edit::EditContent => post == Self::content_edited(pre),
            _ => post == Self::fields_edited(pre, edit),
        }
    }

    /// The state after the form went back to its content: the content is
    /// the active field and is edited on the input line.
    pub open spec fn content_edited(pre: App) -> App {
        match pre.task_form {
            Some(form) => App {
                task_form: Some(TaskForm { active_field: 0, editing: true, ..form }),
                input_buffer: form.content,
                show_input: true,
                input_mode: Self::typing(pre.input_mode),
                ..pre
            },
            None => pre,
        }
    }

    /// The intent of a key once its edit was made: a move in the project
    /// list changes the project, unless the list is empty or a jump did not
    /// move the cursor.
    pub open spec fn resolved(pre: App, d: Decision) -> KeyAction {
        let moves = d.edit == Edit::MoveDown || d.edit == Edit::MoveUp;
        let jumps = d.edit == Edit::JumpTop || d.edit == Edit::JumpBottom;
        if pre.active_pane == Pane::Projects && moves && pre.projects@.len() > 0 {
            KeyAction::ProjectChanged
        } else if pre.active_pane == Pane::Projects && jumps && Self::fields_edited(
            pre,
            d.edit,
        ).selected_project != pre.selected_project {
            KeyAction::ProjectChanged
        } else {
            d.action
        }
    }

    /// Takes the last character off the input line.
    fn pop_char(&mut self)
        ensures
            Self::edited(*old(self), *final(self), Edit::PopChar),
    {
        self.input_buffer.pop();
    }

    /// Puts `c` at the end of the input line.
    fn push_char(&mut self, c: char)
        ensures
            Self::edited(*old(self), *final(self), Edit::PushChar(c)),
    {
        self.input_buffer.push(c);
    }

    /// Goes back to editing the content of the form.
    fn edit_content(&mut self)
        ensures
            *final(self) == Self::content_edited(*old(self)),
    {
        let (form, text) = match &self.task_form {
            None => {
                return ;
            },
            Some(f) => {
                let mut g = f.clone();
                g.active_field = 0;
                g.editing = true;
                (g, f.content.clone())
            },
        };
        self.put_content_edit(form, text);
    }

    /// Shows the form `form` with the text `text` on the input line.
    fn put_content_edit(&mut self, form: TaskForm, text: String)
        ensures
            *final(self) == (App {
                task_form: Some(form),
                input_buffer: text,
                show_input: true,
                input_mode: Self::typing(old(self).input_mode),
                ..*old(self)
            }),
    {
        self.task_form = Some(form);
        self.input_buffer = text;
        self.show_input = true;
        self.input_mode = crate::ui::typing_mode(self.input_mode);
    }

    /// Sets the selections of the pickers and the settings.
    fn put_selections(
        &mut self,
        theme_selection: usize,
        show_priority_picker: bool,
        priority_selection: u8,
        settings_selection: usize,
    )
        ensures
            *final(self) == (App {
                theme_selection,
                show_priority_picker,
                priority_selection,
                settings_selection,
                ..*old(self)
            }),
    {
        self.theme_selection = theme_selection;
        self.show_priority_picker = show_priority_picker;
        self.priority_selection = priority_selection;
        self.settings_selection = settings_selection;
    }

    /// Sets the pane and the cursors.
    fn put_cursors(&mut self, pending_z: bool, active_pane: Pane, selected_project: usize, selected_task: usize)
        ensures
            *final(self) == (App {
                pending_z,
                active_pane,
                selected_project,
                selected_task,
                ..*old(self)
            }),
    {
        self.pending_z = pending_z;
        self.active_pane = active_pane;
        self.selected_project = selected_project;
        self.selected_task = selected_task;
    }

    /// The cursor of a list of `len` lines after the edit `edit`.
    fn cursor_after(cursor: usize, len: usize, edit: Edit) -> (r: usize)
        ensures
            r == (if edit == Edit::MoveDown {
                stepped(cursor, len as nat, true)
            } else if edit == Edit::MoveUp {
                stepped(cursor, len as nat, false)
            } else if edit == Edit::JumpTop {
                edge(len as nat, true)
            } else if edit == Edit::JumpBottom {
                edge(len as nat, false)
            } else {
                cursor
            }),
    {
        match edit {
            Edit::MoveDown => step_cursor(cursor, len, true),
            Edit::MoveUp => step_cursor(cursor, len, false),
            Edit::JumpTop => 0,
            Edit::JumpBottom => if len == 0 {
                0
            } else {
                len - 1
            },
            _ => cursor,
        }
    }

    /// The selections of the pickers and the settings after the edit
    /// `edit`.
    fn selections_after(&self, edit: Edit) -> (r: (usize, bool, u8, usize))
        ensures
            r.0 == Self::fields_edited(*self, edit).theme_selection,
            r.1 == Self::fields_edited(*self, edit).show_priority_picker,
            r.2 == Self::fields_edited(*self, edit).priority_selection,
            r.3 == Self::fields_edited(*self, edit).settings_selection,
    {
        let count = self.theme_names.len();
        let themes = if count == 0 {
            1
        } else {
            count
        };
        let theme_selection = match edit {
            Edit::ThemeDown => step_cursor(self.theme_selection, themes, true),
            Edit::ThemeUp => if count == 0 {
                self.theme_selection
            } else if self.theme_selection == 0 {
                count - 1
            } else {
                self.theme_selection - 1
            },
            _ => self.theme_selection,
        };
        let p = self.priority_selection;
        let priority_selection = match edit {
            Edit::PriorityDown => if p == 4 {
                3
            } else if p == 3 {
                2
            } else if p == 2 {
                1
            } else {
                4
            },
            Edit::PriorityUp => if p == 1 {
                2
            } else if p == 2 {
                3
            } else if p == 3 {
                4
            } else {
                1
            },
            Edit::PrioritySet(q) => q,
            _ => p,
        };
        let settings_selection = match edit {
            Edit::SettingsDown => step_cursor(self.settings_selection, settings_item_count(), true),
            Edit::SettingsUp => if self.settings_selection == 0 {
                1
            } else {
                self.settings_selection - 1
            },
            _ => self.settings_selection,
        };
        let show_priority_picker = self.show_priority_picker && edit != Edit::ClosePriorityPicker;
        (theme_selection, show_priority_picker, priority_selection, settings_selection)
    }

    /// The pane and the cursors after the edit `edit`.
    fn cursors_after(&self, edit: Edit) -> (r: (bool, Pane, usize, usize))
        ensures
            r.0 == Self::fields_edited(*self, edit).pending_z,
            r.1 == Self::fields_edited(*self, edit).active_pane,
            r.2 == Self::fields_edited(*self, edit).selected_project,
            r.3 == Self::fields_edited(*self, edit).selected_task,
    {
        let pending_z = match edit {
            Edit::AwaitFoldKey => true,
            Edit::ClearFoldKey => false,
            _ => self.pending_z,
        };
        let active_pane = match edit {
            Edit::FocusTasks => Pane::Tasks,
            Edit::FocusProjects => Pane::Projects,
            _ => self.active_pane,
        };
        let selected_project = if self.active_pane == Pane::Projects {
            Self::cursor_after(self.selected_project, self.projects.len(), edit)
        } else {
            self.selected_project
        };
        let selected_task = if self.active_pane == Pane::Tasks {
            Self::cursor_after(self.selected_task, self.visible_len(), edit)
        } else {
            self.selected_task
        };
        (pending_z, active_pane, selected_project, selected_task)
    }

    /// Makes one of the edits that set a few fields.
    fn edit_fields(&mut self, edit: Edit)
        ensures
            *final(self) == Self::fields_edited(*old(self), edit),
    {
        let s = self.selections_after(edit);
        let c = self.cursors_after(edit);
        self.put_edits(s, c);
    }

    /// Sets the selections and the cursors.
    fn put_edits(&mut self, s: (usize, bool, u8, usize), c: (bool, Pane, usize, usize))
        ensures
            *final(self) == (App {
                theme_selection: s.0,
                show_priority_picker: s.1,
                priority_selection: s.2,
                settings_selection: s.3,
                pending_z: c.0,
                active_pane: c.1,
                selected_project: c.2,
                selected_task: c.3,
                ..*old(self)
            }),
    {
        self.put_selections(s.0, s.1, s.2, s.3);
        self.put_cursors(c.0, c.1, c.2, c.3);
    }

    /// Makes the edit `edit`.
    pub fn apply_edit(&mut self, edit: Edit)
        ensures
            Self::edited(*old(self), *final(self), edit),
    {
        match edit {
            Edit::PopChar => self.pop_char(),
            Edit::PushChar(c) => self.push_char(c),
            Edit::EditContent => self.edit_content(),
            _ => self.edit_fields(edit),
        }
    }

    /// The intent of a key once its edit was made.
    fn resolve(&self, d: Decision) -> (a: KeyAction)
        ensures
            a == Self::resolved(*self, d),
    {
        let in_projects = self.active_pane == Pane::Projects;
        let moves = d.edit == Edit::MoveDown || d.edit == Edit::MoveUp;
        let jumps = d.edit == Edit::JumpTop || d.edit == Edit::JumpBottom;
        if in_projects && moves && self.projects.len() > 0 {
            KeyAction::ProjectChanged
        } else if in_projects && jumps && Self::cursor_after(
            self.selected_project,
            self.projects.len(),
            d.edit,
        ) != self.selected_project {
            KeyAction::ProjectChanged
        } else {
            d.action
        }
    }
}

/// Reads a key: makes what the key does by itself, and returns the intent
/// that is to be carried out.
pub fn handle_key(app: &mut App, key: Key) -> (action: KeyAction)
    ensures
        action == App::resolved(*old(app), old(app).decision(key)),
        App::edited(*old(app), *final(app), old(app).decision(key).edit),
{
    let d = app.decide(key);
    let action = app.resolve(d);
    app.apply_edit(d.edit);
    action
}

} // verus!
