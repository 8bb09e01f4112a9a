//! The intents of the user, and what each does to the state.

use crate::app::App;
use crate::state::{Pane, TaskForm};
use crate::submit::row_at;
use vstd::prelude::*;

verus! {

/// What the user asks for with a key.
#[derive(Debug, Clone, Copy, PartialEq, Eq, Structural)]
pub enum KeyAction {
    Quit,
    ProjectChanged,
    OpenDetail,
    CloseDetail,
    ToggleSettings,
    ToggleHelp,
    ToggleMode,
    ToggleCollapse,
    ToggleFolderCollapse,
    OpenAllFolds,
    CloseAllFolds,
    CompleteTask,
    OpenPriorityPicker,
    SelectPriority,
    StarProject,
    CycleFilter,
    CycleSort,
    StartInput,
    StartCommentInput,
    StartFieldEdit,
    SubmitInput,
    SubmitForm,
    FormFieldUp,
    FormFieldDown,
    FormEditField,
    FormEscNormal,
    CancelInput,
    DetailFieldUp,
    DetailFieldDown,
    OpenThemePicker,
    SelectTheme,
    CloseThemePicker,
    /// The key was used up by the state itself.
    Consumed,
    /// The key means nothing here.
    Ignored,
}

impl App {
    /// Whether the key `z` waits for its second key; the wait is over
    /// either way.
    pub fn take_pending_z(&mut self) -> (was: bool)
        ensures
            was == old(self).pending_z,
            *final(self) == (App { pending_z: false, ..*old(self) }),
    {
        let was = self.pending_z;
        self.pending_z = false;
        was
    }

    /// Notes that the key `z` waits for its second key.
    pub fn set_pending_z(&mut self)
        ensures
            *final(self) == (App { pending_z: true, ..*old(self) }),
    {
        self.pending_z = true;
    }

    /// What the small intents do, those that only set a few fields: to
    /// quit, to change the project, to close the detail, to show or hide
    /// the settings and the help, to take the next sort mode, to open or
    /// close the theme picker, and to open the priority picker at the
    /// priority of the row under the cursor. Any other intent sets nothing.
    pub open spec fn fields_set(pre: App, action: KeyAction) -> App {
        let row = row_at(pre.rows(), pre.selected_task);
        Self::fields_put(
            pre,
            action,
            if action == KeyAction::OpenPriorityPicker && row is Some {
                Some(row->Some_0.priority)
            } else {
                None
            },
        )
    }

    /// The priority that the picker opens at for the intent `action`.
    fn picked_priority(&self, action: KeyAction) -> (r: Option<u8>)
        ensures
            r == (if action == KeyAction::OpenPriorityPicker && row_at(
                self.rows(),
                self.selected_task,
            ) is Some {
                Some(row_at(self.rows(), self.selected_task)->Some_0.priority)
            } else {
                None
            }),
    {
        if action == KeyAction::OpenPriorityPicker {
            match self.selected_task() {
                Some(t) => Some(t.priority),
                None => None,
            }
        } else {
            None
        }
    }

    /// Carries out one of the small intents.
    fn set_fields(&mut self, action: KeyAction)
        ensures
            *final(self) == Self::fields_set(*old(self), action),
    {
        let picked = self.picked_priority(action);
        self.put_fields(action, picked);
    }

    /// The state after a small intent, given the priority that the picker
    /// opens at.
    pub open spec fn fields_put(pre: App, action: KeyAction, picked: Option<u8>) -> App {
        App {
            running: pre.running && action != KeyAction::Quit,
            selected_task: if action == KeyAction::ProjectChanged {
                0
            } else {
                pre.selected_task
            },
            detail_scroll: if action == KeyAction::ProjectChanged || action
                == KeyAction::CloseDetail {
                0
            } else {
                pre.detail_scroll
            },
            active_pane: if action == KeyAction::CloseDetail {
                Pane::Tasks
            } else if action == KeyAction::ToggleSettings {
                if !pre.show_settings {
                    Pane::Settings
                } else {
                    Pane::Projects
                }
            } else {
                pre.active_pane
            },
            show_settings: if action == KeyAction::ToggleSettings {
                !pre.show_settings
            } else {
                pre.show_settings
            },
            show_help: if action == KeyAction::ToggleHelp {
                !pre.show_help
            } else {
                pre.show_help
            },
            sort_mode: if action == KeyAction::CycleSort {
                pre.sort_mode.successor()
            } else {
                pre.sort_mode
            },
            theme_selection: if action == KeyAction::OpenThemePicker {
                pre.theme_idx
            } else {
                pre.theme_selection
            },
            show_theme_picker: if action == KeyAction::OpenThemePicker {
                true
            } else if action == KeyAction::CloseThemePicker {
                false
            } else {
                pre.show_theme_picker
            },
            priority_selection: match picked {
                Some(p) => p,
                None => pre.priority_selection,
            },
            show_priority_picker: picked is Some || pre.show_priority_picker,
            ..pre
        }
    }

    /// Sets the fields that a small intent sets.
    fn put_fields(&mut self, action: KeyAction, picked: Option<u8>)
        ensures
            *final(self) == Self::fields_put(*old(self), action, picked),
    {
        let running = self.running && action != KeyAction::Quit;
        let selected_task = if action == KeyAction::ProjectChanged {
            0
        } else {
            self.selected_task
        };
        let detail_scroll = if action == KeyAction::ProjectChanged || action
            == KeyAction::CloseDetail {
            0
        } else {
            self.detail_scroll
        };
        let active_pane = if action == KeyAction::CloseDetail {
            Pane::Tasks
        } else if action == KeyAction::ToggleSettings {
            if !self.show_settings {
                Pane::Settings
            } else {
                Pane::Projects
            }
        } else {
            self.active_pane
        };
        let show_settings = if action == KeyAction::ToggleSettings {
            !self.show_settings
        } else {
            self.show_settings
        };
        let show_help = if action == KeyAction::ToggleHelp {
            !self.show_help
        } else {
            self.show_help
        };
        let sort_mode = if action == KeyAction::CycleSort {
            self.sort_mode.next()
        } else {
            self.sort_mode
        };
        let theme_selection = if action == KeyAction::OpenThemePicker {
            self.theme_idx
        } else {
            self.theme_selection
        };
        let show_theme_picker = if action == KeyAction::OpenThemePicker {
            true
        } else if action == KeyAction::CloseThemePicker {
            false
        } else {
            self.show_theme_picker
        };
        let priority_selection = match picked {
            Some(p) => p,
            None => self.priority_selection,
        };
        let show_priority_picker = picked.is_some() || self.show_priority_picker;
        self.put_panes(running, selected_task, detail_scroll, active_pane, show_settings, show_help);
        self.put_pickers(
            sort_mode,
            theme_selection,
            show_theme_picker,
            priority_selection,
            show_priority_picker,
        );
    }

    /// Sets the cursor, the panes and what is shown over them.
    fn put_panes(
        &mut self,
        running: bool,
        selected_task: usize,
        detail_scroll: u16,
        active_pane: Pane,
        show_settings: bool,
        show_help: bool,
    )
        ensures
            *final(self) == (App {
                running,
                selected_task,
                detail_scroll,
                active_pane,
                show_settings,
                show_help,
                ..*old(self)
            }),
    {
        self.running = running;
        self.selected_task = selected_task;
        self.detail_scroll = detail_scroll;
        self.active_pane = active_pane;
        self.show_settings = show_settings;
        self.show_help = show_help;
    }

    /// Sets the sort mode and the pickers.
    fn put_pickers(
        &mut self,
        sort_mode: crate::state::SortMode,
        theme_selection: usize,
        show_theme_picker: bool,
        priority_selection: u8,
        show_priority_picker: bool,
    )
        ensures
            *final(self) == (App {
                sort_mode,
                theme_selection,
                show_theme_picker,
                priority_selection,
                show_priority_picker,
                ..*old(self)
            }),
    {
        self.sort_mode = sort_mode;
        self.theme_selection = theme_selection;
        self.show_theme_picker = show_theme_picker;
        self.priority_selection = priority_selection;
        self.show_priority_picker = show_priority_picker;
    }

    /// What choosing a priority in the picker does: the picker closes; the
    /// priority goes into the form where one is shown, and to the task
    /// under the cursor otherwise.
    pub open spec fn priority_chosen(pre: App, post: App) -> bool {
        match pre.task_form {
            Some(form) => post == (App {
                show_priority_picker: false,
                task_form: Some(TaskForm { priority: pre.priority_selection, ..form }),
                ..pre
            }),
            None => Self::prioritized(
                App { show_priority_picker: false, ..pre },
                post,
                pre.priority_selection,
            ),
        }
    }

    /// Closes the priority picker and puts the chosen priority into the
    /// form, where one is shown.
    fn close_picker(&mut self) -> (in_form: bool)
        ensures
            in_form == (old(self).task_form is Some),
            *final(self) == (App {
                show_priority_picker: false,
                task_form: match old(self).task_form {
                    Some(form) => Some(TaskForm { priority: old(self).priority_selection, ..form }),
                    None => None,
                },
                ..*old(self)
            }),
    {
        self.show_priority_picker = false;
        let p = self.priority_selection;
        match self.task_form.take() {
            Some(f) => {
                let mut f = f;
                f.priority = p;
                self.task_form = Some(f);
                true
            },
            None => false,
        }
    }

    /// Carries out the choice of a priority.
    pub fn select_priority(&mut self)
        ensures
            Self::priority_chosen(*old(self), *final(self)),
    {
        let in_form = self.close_picker();
        if !in_form {
            self.apply_priority(self.priority_selection);
        }
    }

    /// What choosing a theme in the picker does: the theme is taken, the
    /// picker closes, and the settings are written.
    pub open spec fn theme_chosen(pre: App, post: App) -> bool {
        Self::settings_saved(
            App { theme_idx: pre.theme_selection, show_theme_picker: false, ..pre },
            post,
        )
    }

    /// Takes the theme that is chosen in the picker.
    fn take_theme(&mut self)
        ensures
            *final(self) == (App {
                theme_idx: old(self).theme_selection,
                show_theme_picker: false,
                ..*old(self)
            }),
    {
        self.theme_idx = self.theme_selection;
        self.show_theme_picker = false;
    }

    /// Carries out the choice of a theme.
    pub fn select_theme(&mut self)
        ensures
            Self::theme_chosen(*old(self), *final(self)),
    {
        self.take_theme();
        self.save_ui_settings();
    }

    /// What the intent `action` does to the state, before the dock filter is
    /// looked after.
    pub open spec fn acted(pre: App, post: App, action: KeyAction) -> bool {
        match action {
            KeyAction::OpenDetail => Self::detail_opened(pre, post),
            KeyAction::ToggleMode => post == (App {
                input_mode: match pre.input_mode {
                    crate::state::InputMode::Vim(_) => crate::state::InputMode::Standard,
                    crate::state::InputMode::Standard => crate::state::InputMode::Vim(
                        crate::state::VimState::Normal,
                    ),
                },
                ..pre
            }),
            KeyAction::ToggleCollapse => Self::fold_toggled(pre, post),
            KeyAction::ToggleFolderCollapse => Self::folder_toggled(pre, post),
            KeyAction::OpenAllFolds => Self::all_unfolded(pre, post),
            KeyAction::CloseAllFolds => Self::all_folded(pre, post),
            KeyAction::CompleteTask => Self::toggled_completion(pre, post),
            KeyAction::SelectPriority => Self::priority_chosen(pre, post),
            KeyAction::StarProject => Self::starred(pre, post),
            KeyAction::CycleFilter => Self::filter_cycled(pre, post),
            KeyAction::StartInput => Self::input_started(pre, post),
            KeyAction::StartCommentInput => Self::comment_started(pre, post),
            KeyAction::StartFieldEdit => Self::field_edit_started(pre, post),
            KeyAction::SubmitInput => Self::input_submitted(pre, post),
            KeyAction::SubmitForm => Self::form_submitted(pre, post),
            KeyAction::FormFieldUp => post == (App {
                task_form: Self::form_at(pre.task_form, |c: usize| Self::field_above(c)),
                ..pre
            }),
            KeyAction::FormFieldDown => post == (App {
                task_form: Self::form_at(pre.task_form, |c: usize| Self::field_below(c)),
                ..pre
            }),
            KeyAction::FormEditField => post == Self::form_field_edited(pre),
            KeyAction::FormEscNormal => Self::input_submitted(pre, post),
            KeyAction::CancelInput => Self::input_cancelled(pre, post),
            KeyAction::DetailFieldUp => post == (App {
                detail_field: crate::ui::detail_field_after(pre.detail_field, -1i32),
                ..pre
            }),
            KeyAction::DetailFieldDown => post == (App {
                detail_field: crate::ui::detail_field_after(pre.detail_field, 1i32),
                ..pre
            }),
            KeyAction::SelectTheme => Self::theme_chosen(pre, post),
            _ => post == Self::fields_set(pre, action),
        }
    }

    /// Carries out the intent `action`.
    #[verifier::rlimit(60)]
    pub fn act(&mut self, action: KeyAction)
        ensures
            Self::acted(*old(self), *final(self), action),
    {
        match action {
            KeyAction::OpenDetail => self.open_detail(),
            KeyAction::ToggleMode => self.toggle_input_mode(),
            KeyAction::ToggleCollapse => self.toggle_collapse(),
            KeyAction::ToggleFolderCollapse => self.toggle_folder_collapse(),
            KeyAction::OpenAllFolds => self.open_all_folds(),
            KeyAction::CloseAllFolds => self.close_all_folds(),
            KeyAction::CompleteTask => self.complete_selected_task(),
            KeyAction::SelectPriority => self.select_priority(),
            KeyAction::StarProject => self.star_selected_project(),
            KeyAction::CycleFilter => self.cycle_task_filter(),
            KeyAction::StartInput => self.start_input(),
            KeyAction::StartCommentInput => self.start_comment_input(),
            KeyAction::StartFieldEdit => self.start_field_edit(),
            KeyAction::SubmitInput => self.submit_input(),
            KeyAction::SubmitForm => self.submit_task_form(),
            KeyAction::FormFieldUp => self.form_field_up(),
            KeyAction::FormFieldDown => self.form_field_down(),
            KeyAction::FormEditField => self.form_edit_field(),
            KeyAction::FormEscNormal => self.submit_input(),
            KeyAction::CancelInput => self.cancel_input(),
            KeyAction::DetailFieldUp => self.move_detail_field(-1),
            KeyAction::DetailFieldDown => self.move_detail_field(1),
            KeyAction::SelectTheme => self.select_theme(),
            KeyAction::Quit => self.set_fields(action),
            KeyAction::ProjectChanged => self.set_fields(action),
            KeyAction::CloseDetail => self.set_fields(action),
            KeyAction::ToggleSettings => self.set_fields(action),
            KeyAction::ToggleHelp => self.set_fields(action),
            KeyAction::CycleSort => self.set_fields(action),
            KeyAction::OpenThemePicker => self.set_fields(action),
            KeyAction::CloseThemePicker => self.set_fields(action),
            KeyAction::OpenPriorityPicker => self.set_fields(action),
            KeyAction::Consumed => self.set_fields(action),
            KeyAction::Ignored => self.set_fields(action),
        }
    }

    /// The dock filter once the pane `before` gave way to the pane of the
    /// state: it is dropped when the task pane is left.
    pub open spec fn dock_looked_after(pre: App, post: App, before: Pane) -> bool {
        post == (App {
            dock_filter: if before == Pane::Tasks && pre.active_pane != Pane::Tasks {
                None
            } else {
                pre.dock_filter
            },
            ..pre
        })
    }

    /// Drops the dock filter where the task pane was left.
    fn look_after_dock(&mut self, before: Pane)
        ensures
            Self::dock_looked_after(*old(self), *final(self), before),
    {
        let left = match before {
            Pane::Tasks => match self.active_pane {
                Pane::Tasks => false,
                _ => true,
            },
            _ => false,
        };
        if left {
            self.dock_filter = None;
        }
    }

    /// What an intent of the user does: it is carried out, and the dock
    /// filter is dropped where the task pane was left.
    pub open spec fn performed(pre: App, post: App, action: KeyAction) -> bool {
        exists|mid: App|
            {
                &&& #[trigger] Self::acted(pre, mid, action)
                &&& Self::dock_looked_after(mid, post, pre.active_pane)
            }
    }

    /// Carries out an intent of the user.
    pub fn perform(&mut self, action: KeyAction)
        ensures
            Self::performed(*old(self), *final(self), action),
    {
        let before = self.active_pane;
        self.act(action);
        let ghost mid = *self;
        self.look_after_dock(before);
        assert(Self::acted(*old(self), mid, action));
    }
}

} // verus!
