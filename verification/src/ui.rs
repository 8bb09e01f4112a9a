//! The interface state and its small steps: filters, the detail pane, the
//! input line and the form, the settings.

use crate::app::{App, Effect, EffectView};
use crate::merge::{find_by_id, first_index};
use crate::models::{Comment, Task};
use crate::replica::{clone_comments, row_id};
use crate::state::{InputMode, Pane, TaskFilter, TaskForm, VimState};
use crate::submit::{calm, calm_mode, row_at};
use crate::text::{trim_text, trimmed};
use vstd::prelude::*;

verus! {

/// The idle timeouts that the settings cycle through, in seconds.
pub open spec fn idle_options(forcer: bool) -> Seq<u64> {
    if forcer {
        seq![5u64, 60u64, 120u64, 300u64, 600u64, 900u64, 1800u64]
    } else {
        seq![60u64, 120u64, 300u64, 600u64, 900u64, 1800u64]
    }
}

/// Index of the first option equal to `v`, or the number of options.
pub open spec fn option_index(options: Seq<u64>, v: u64) -> int
    decreases options.len(),
{
    if options.len() == 0 || options[0] == v {
        0
    } else {
        1 + option_index(options.drop_first(), v)
    }
}

/// The timeout that follows `current` in the cycle; a timeout that is no
/// option counts as the third.
pub open spec fn next_idle_timeout(current: u64, forcer: bool) -> u64 {
    let options = idle_options(forcer);
    let found = option_index(options, current);
    let pos = if found < options.len() {
        found
    } else {
        2
    };
    options[(pos + 1) % (options.len() as int)]
}

/// The timeout that follows `current` in the cycle.
pub fn idle_timeout_after(current: u64, forcer: bool) -> (r: u64)
    ensures
        r == next_idle_timeout(current, forcer),
{
    let mut options: Vec<u64> = Vec::new();
    if forcer {
        options.push(5);
    }
    options.push(60);
    options.push(120);
    options.push(300);
    options.push(600);
    options.push(900);
    options.push(1800);
    assert(options@ =~= idle_options(forcer));
    let mut i: usize = 0;
    proof {
        lemma_option_index(options@, current);
    }
    while i < options.len() && options[i] != current
        invariant
            i <= options.len(),
            options@ == idle_options(forcer),
            forall|j: int| 0 <= j < i ==> options@[j] != current,
        decreases options.len() - i,
    {
        i += 1;
    }
    let pos = if i < options.len() {
        i
    } else {
        2
    };
    options[(pos + 1) % options.len()]
}

/// What `option_index` finds.
pub proof fn lemma_option_index(options: Seq<u64>, v: u64)
    ensures
        0 <= option_index(options, v) <= options.len(),
        option_index(options, v) < options.len() ==> options[option_index(options, v)] == v,
        forall|j: int| 0 <= j < option_index(options, v) ==> options[j] != v,
    decreases options.len(),
{
    if options.len() > 0 && options[0] != v {
        let rest = options.drop_first();
        lemma_option_index(rest, v);
        assert forall|j: int| 0 <= j < option_index(options, v) implies options[j] != v by {
            if j > 0 {
                assert(options[j] == rest[j - 1]);
            }
        }
    }
}

/// The field of the detail pane that lies `delta` fields from `current`,
/// around the four fields.
pub open spec fn detail_field_after(current: usize, delta: i32) -> usize {
    ((current as int + delta as int) % 4) as usize
}

/// The mode while text is typed.
pub fn typing_mode(mode: InputMode) -> (r: InputMode)
    ensures
        r == App::typing(mode),
{
    match mode {
        InputMode::Vim(_) => InputMode::Vim(VimState::Insert),
        InputMode::Standard => InputMode::Standard,
    }
}

impl App {
    /// The name of the theme in use.
    pub fn theme(&self) -> (r: &str)
        requires
            self.theme_idx < self.theme_names@.len(),
        ensures
            r@ == self.theme_names@[self.theme_idx as int]@,
    {
        self.theme_names[self.theme_idx].as_str()
    }

    /// What writing the settings does: the theme in use and the idle
    /// timeout are handed out to be written, unless nothing is to be
    /// written at all or no theme is in use.
    pub open spec fn settings_saved(pre: App, post: App) -> bool {
        if pre.ephemeral || pre.theme_idx >= pre.theme_names@.len() {
            post == pre
        } else {
            &&& post.outbox.deep_view() == pre.outbox.deep_view().push(
                EffectView::SaveUiSettings {
                    theme: pre.theme_names@[pre.theme_idx as int]@,
                    idle_timeout_secs: pre.idle_timeout_secs,
                },
            )
            &&& post == (App { outbox: post.outbox, ..pre })
        }
    }

    /// Hands the interface settings out to be written.
    pub fn save_ui_settings(&mut self)
        ensures
            Self::settings_saved(*old(self), *final(self)),
    {
        if self.ephemeral || self.theme_idx >= self.theme_names.len() {
            return ;
        }
        let theme = self.theme_names[self.theme_idx].clone();
        let idle_timeout_secs = self.idle_timeout_secs;
        self.emit(Effect::SaveUiSettings { theme, idle_timeout_secs });
    }

    /// Sets the idle timeout.
    fn put_idle_timeout(&mut self, secs: u64)
        ensures
            *final(self) == (App { idle_timeout_secs: secs, ..*old(self) }),
    {
        self.idle_timeout_secs = secs;
    }

    /// What cycling the idle timeout does: the next option is taken, and
    /// the settings are written.
    pub open spec fn idle_timeout_cycled(pre: App, post: App) -> bool {
        Self::settings_saved(
            App {
                idle_timeout_secs: next_idle_timeout(pre.idle_timeout_secs, pre.idle_forcer),
                ..pre
            },
            post,
        )
    }

    /// Takes the next idle timeout of the cycle.
    pub fn cycle_idle_timeout(&mut self)
        ensures
            Self::idle_timeout_cycled(*old(self), *final(self)),
    {
        let next = idle_timeout_after(self.idle_timeout_secs, self.idle_forcer);
        self.put_idle_timeout(next);
        self.save_ui_settings();
    }

    /// Sets the task filter.
    fn put_filter(&mut self, f: TaskFilter)
        ensures
            *final(self) == (App { task_filter: f, ..*old(self) }),
    {
        self.task_filter = f;
    }

    /// The project whose completed tasks are to be fetched once the filter
    /// is `filter`: the selected project, where the filter shows completed
    /// tasks and none were fetched for it yet.
    pub open spec fn project_to_fetch(&self, filter: TaskFilter) -> Option<Seq<char>> {
        match self.current_project() {
            Some(p) => if filter != TaskFilter::Active && !self.completed_cache@.contains_key(p) {
                Some(p)
            } else {
                None
            },
            None => None,
        }
    }

    /// The project whose completed tasks are to be fetched.
    fn fetch_target(&self, filter: TaskFilter) -> (r: Option<String>)
        ensures
            r.deep_view() == self.project_to_fetch(filter),
    {
        if self.selected_project < self.projects.len() {
            let id = &self.projects[self.selected_project].id;
            let shows_done = match filter {
                TaskFilter::Active => false,
                _ => true,
            };
            if shows_done && !self.completed_cache.contains_key(id.as_str()) {
                Some(id.clone())
            } else {
                None
            }
        } else {
            None
        }
    }

    /// Asks for the completed tasks of `project`, where there is one.
    fn fetch_completed(&mut self, project: Option<String>)
        ensures
            final(self).outbox.deep_view() == (match project {
                Some(p) => old(self).outbox.deep_view().push(
                    EffectView::FetchCompleted { project_id: p@ },
                ),
                None => old(self).outbox.deep_view(),
            }),
            *final(self) == (App { outbox: final(self).outbox, ..*old(self) }),
    {
        match project {
            Some(p) => self.spawn_completed_tasks_fetch(p),
            None => {},
        }
    }

    /// Sets the filter to `f` and moves the cursor back onto the rows.
    fn refilter(&mut self, f: TaskFilter)
        ensures
            final(self).selected_task == Self::clamped(
                old(self).selected_task,
                final(self).rows().len(),
            ),
            *final(self) == (App {
                task_filter: f,
                selected_task: final(self).selected_task,
                ..*old(self)
            }),
    {
        self.put_filter(f);
        let ghost mid = *self;
        self.clamp_selection();
        assert(self.selection_view() == mid.selection_view());
    }

    /// Sets the filter to `f`, moves the cursor back onto the rows, and
    /// asks for the completed tasks of `project`.
    fn refilter_and_fetch(&mut self, f: TaskFilter, project: Option<String>)
        ensures
            final(self).selected_task == Self::clamped(
                old(self).selected_task,
                final(self).rows().len(),
            ),
            final(self).outbox.deep_view() == (match project {
                Some(p) => old(self).outbox.deep_view().push(
                    EffectView::FetchCompleted { project_id: p@ },
                ),
                None => old(self).outbox.deep_view(),
            }),
            *final(self) == (App {
                task_filter: f,
                selected_task: final(self).selected_task,
                outbox: final(self).outbox,
                ..*old(self)
            }),
    {
        self.refilter(f);
        let ghost mid = *self;
        self.fetch_completed(project);
        assert(self.selection_view() == mid.selection_view());
    }

    /// What cycling the task filter does: the next filter is taken; the
    /// cursor is moved back onto the rows that it shows; and the completed
    /// tasks of the selected project are asked for where the filter shows
    /// them and they were not fetched yet.
    pub open spec fn filter_cycled(pre: App, post: App) -> bool {
        let f = pre.task_filter.successor();
        &&& post.selected_task == Self::clamped(pre.selected_task, post.rows().len())
        &&& post.outbox.deep_view() == (match pre.project_to_fetch(f) {
            Some(p) => pre.outbox.deep_view().push(EffectView::FetchCompleted { project_id: p }),
            None => pre.outbox.deep_view(),
        })
        &&& post == (App {
            task_filter: f,
            selected_task: post.selected_task,
            outbox: post.outbox,
            ..pre
        })
    }

    /// Takes the next task filter of the cycle.
    pub fn cycle_task_filter(&mut self)
        ensures
            Self::filter_cycled(*old(self), *final(self)),
    {
        let f = self.task_filter.next();
        let target = self.fetch_target(f);
        self.refilter_and_fetch(f, target);
    }

    /// What changing the project does: the task cursor and the scroll of
    /// the detail pane go back to the top.
    pub fn switch_to_project_tasks(&mut self)
        ensures
            *final(self) == (App { selected_task: 0, detail_scroll: 0, ..*old(self) }),
    {
        self.selected_task = 0;
        self.detail_scroll = 0;
    }

    /// What toggling the input mode does: the modal editor is switched off,
    /// or on in normal mode.
    pub fn toggle_input_mode(&mut self)
        ensures
            *final(self) == (App {
                input_mode: match old(self).input_mode {
                    InputMode::Vim(_) => InputMode::Standard,
                    InputMode::Standard => InputMode::Vim(VimState::Normal),
                },
                ..*old(self)
            }),
    {
        self.input_mode = match self.input_mode {
            InputMode::Vim(_) => InputMode::Standard,
            InputMode::Standard => InputMode::Vim(VimState::Normal),
        };
    }

    /// What dismissing the error does: the error goes away, and the program
    /// ends where it cannot go on.
    pub open spec fn error_dismissed(pre: App, post: App) -> bool {
        match pre.error {
            Some(e) => post == (App { error: None, running: pre.running && e.recoverable, ..pre }),
            None => post == pre,
        }
    }

    /// Dismisses the error that is shown.
    pub fn handle_error_dismiss(&mut self)
        ensures
            Self::error_dismissed(*old(self), *final(self)),
    {
        match self.error.take() {
            Some(e) => {
                if !e.recoverable {
                    self.running = false;
                }
            },
            None => {},
        }
    }

    /// Moves to the field of the detail pane that lies `delta` fields away,
    /// around the four fields.
    pub fn move_detail_field(&mut self, delta: i32)
        ensures
            *final(self) == (App {
                detail_field: detail_field_after(old(self).detail_field, delta),
                ..*old(self)
            }),
    {
        let current: i64 = (self.detail_field % 4) as i64;
        let step: i64 = crate::dates::floor_mod(delta as i64, 4);
        let moved: i64 = (current + step) % 4;
        assert(moved == (old(self).detail_field as int + delta as int) % 4) by {
            let c = old(self).detail_field as int;
            let d = delta as int;
            assert((c % 4 + d % 4) % 4 == (c + d) % 4) by (nonlinear_arith);
        }
        self.detail_field = moved as usize;
    }

    /// The mode while text is typed: the modal editor is in insert mode.
    pub open spec fn typing(mode: InputMode) -> InputMode {
        match mode {
            InputMode::Vim(_) => InputMode::Vim(VimState::Insert),
            InputMode::Standard => InputMode::Standard,
        }
    }

    /// What opening the form does: an empty form for a task of the selected
    /// project is shown and the content is typed first.
    pub open spec fn input_started(pre: App, post: App) -> bool {
        &&& post.task_form is Some
        &&& post.task_form->Some_0.project_id@ == (match pre.current_project() {
            Some(p) => p,
            None => Seq::empty(),
        })
        &&& post.task_form->Some_0.content@.len() == 0
        &&& post.task_form->Some_0.due_string@.len() == 0
        &&& post.task_form->Some_0.priority == 1
        &&& post.task_form->Some_0.active_field == 0
        &&& post.task_form->Some_0.editing
        &&& post.input_buffer@.len() == 0
        &&& post == (App {
            task_form: post.task_form,
            show_input: true,
            input_buffer: post.input_buffer,
            input_mode: Self::typing(pre.input_mode),
            ..pre
        })
    }

    /// Opens the form that adds a task.
    pub fn start_input(&mut self)
        ensures
            Self::input_started(*old(self), *final(self)),
    {
        let project_id = if self.selected_project < self.projects.len() {
            self.projects[self.selected_project].id.clone()
        } else {
            String::new()
        };
        self.open_input(Some(TaskForm::new(project_id)), String::new(), false, false);
    }

    /// Shows the input line with the text `text`, for the form `form` where
    /// there is one.
    fn open_input(&mut self, form: Option<TaskForm>, text: String, comment: bool, field: bool)
        ensures
            *final(self) == (App {
                task_form: match form {
                    Some(f) => Some(f),
                    None => old(self).task_form,
                },
                show_input: true,
                input_buffer: text,
                comment_input: comment || old(self).comment_input,
                editing_field: field || old(self).editing_field,
                input_mode: Self::typing(old(self).input_mode),
                ..*old(self)
            }),
    {
        self.put_form(form);
        self.show_line(text, comment, field);
    }

    /// Shows the form `form`, where there is one.
    fn put_form(&mut self, form: Option<TaskForm>)
        ensures
            *final(self) == (App {
                task_form: match form {
                    Some(f) => Some(f),
                    None => old(self).task_form,
                },
                ..*old(self)
            }),
    {
        if form.is_some() {
            self.task_form = form;
        }
    }

    /// Shows the input line with the text `text`.
    fn show_line(&mut self, text: String, comment: bool, field: bool)
        ensures
            *final(self) == (App {
                show_input: true,
                input_buffer: text,
                comment_input: comment || old(self).comment_input,
                editing_field: field || old(self).editing_field,
                input_mode: Self::typing(old(self).input_mode),
                ..*old(self)
            }),
    {
        self.show_input = true;
        self.input_buffer = text;
        self.comment_input = comment || self.comment_input;
        self.editing_field = field || self.editing_field;
        self.input_mode = typing_mode(self.input_mode);
    }

    /// What starting a comment does: the input line is shown, empty, for a
    /// comment.
    pub open spec fn comment_started(pre: App, post: App) -> bool {
        &&& post.input_buffer@.len() == 0
        &&& post == (App {
            comment_input: true,
            show_input: true,
            input_buffer: post.input_buffer,
            input_mode: Self::typing(pre.input_mode),
            ..pre
        })
    }

    /// Shows the input line for a comment.
    pub fn start_comment_input(&mut self)
        ensures
            Self::comment_started(*old(self), *final(self)),
    {
        self.open_input(None, String::new(), true, false);
    }

    /// The text that the input line starts with when the field `field` of
    /// the task `t` is edited: the content, the text of the due date, or
    /// the description.
    pub open spec fn prefill(t: Task, field: usize) -> Seq<char> {
        if field == 0 {
            t.content@
        } else if field == 2 {
            match t.due {
                Some(d) => match d.string {
                    Some(s) => s@,
                    None => Seq::empty(),
                },
                None => Seq::empty(),
            }
        } else {
            t.description@
        }
    }

    /// What starting to edit the active field of the row under the cursor
    /// does. The priority opens its picker. Content, due date and
    /// description open the input line with the text there is. Without a
    /// row, or at a field that there is not, nothing happens.
    pub open spec fn field_edit_started(pre: App, post: App) -> bool {
        match row_at(pre.rows(), pre.selected_task) {
            None => post == pre,
            Some(row) => if pre.detail_field == 1 {
                post == (App {
                    priority_selection: row.priority,
                    show_priority_picker: true,
                    ..pre
                })
            } else if pre.detail_field == 0 || pre.detail_field == 2 || pre.detail_field == 3 {
                &&& post.input_buffer@ == Self::prefill(row, pre.detail_field)
                &&& post == (App {
                    editing_field: true,
                    show_input: true,
                    input_buffer: post.input_buffer,
                    input_mode: Self::typing(pre.input_mode),
                    ..pre
                })
            } else {
                post == pre
            },
        }
    }

    /// Opens the priority picker at the priority `p`.
    fn open_priority_picker(&mut self, p: u8)
        ensures
            *final(self) == (App { priority_selection: p, show_priority_picker: true, ..*old(self) }),
    {
        self.priority_selection = p;
        self.show_priority_picker = true;
    }

    /// The text that the input line starts with.
    fn prefill_of(t: &Task, field: usize) -> (r: String)
        ensures
            r@ == Self::prefill(*t, field),
    {
        if field == 0 {
            t.content.clone()
        } else if field == 2 {
            match &t.due {
                Some(d) => match &d.string {
                    Some(s) => s.clone(),
                    None => String::new(),
                },
                None => String::new(),
            }
        } else {
            t.description.clone()
        }
    }

    /// Opens the picker at `picker`, where there is one, or else the input
    /// line with `text`, where there is one.
    fn open_editor(&mut self, picker: Option<u8>, text: Option<String>)
        ensures
            match picker {
                Some(p) => *final(self) == (App {
                    priority_selection: p,
                    show_priority_picker: true,
                    ..*old(self)
                }),
                None => match text {
                    Some(t) => *final(self) == (App {
                        editing_field: true,
                        show_input: true,
                        input_buffer: t,
                        input_mode: Self::typing(old(self).input_mode),
                        ..*old(self)
                    }),
                    None => *final(self) == *old(self),
                },
            },
    {
        match picker {
            Some(p) => self.open_priority_picker(p),
            None => match text {
                Some(t) => self.open_input(None, t, false, true),
                None => {},
            },
        }
    }

    /// Starts to edit the active field of the task under the cursor.
    pub fn start_field_edit(&mut self)
        ensures
            Self::field_edit_started(*old(self), *final(self)),
    {
        let field = self.detail_field;
        let (picker, text) = match self.selected_task() {
            None => (None, None),
            Some(t) => if field == 1 {
                (Some(t.priority), None)
            } else if field == 0 || field == 2 || field == 3 {
                (None, Some(Self::prefill_of(t, field)))
            } else {
                (None, None)
            },
        };
        self.open_editor(picker, text);
    }

    /// The comments that are shown at once when the detail of the task
    /// `task` is opened: those that are kept for the task.
    pub open spec fn kept_comments(&self, task: Seq<char>) -> Seq<crate::models::CommentView> {
        if self.comments_by_task@.contains_key(task) {
            self.comments_by_task@[task].deep_view()
        } else {
            Seq::empty()
        }
    }

    /// The project cursor after the detail of the row `row` was opened: in
    /// the dock it goes to the project of the row, where that is known.
    pub open spec fn project_of_detail(&self, row: Task) -> usize {
        if self.dock_filter is Some && first_index(self.projects@, row.project_id@)
            < self.projects@.len() {
            first_index(self.projects@, row.project_id@) as usize
        } else {
            self.selected_project
        }
    }

    /// What opening the detail of the row under the cursor does: the detail
    /// pane gets the focus at its first field, shows the comments that are
    /// kept for the task, and asks for them anew. Without a row nothing
    /// happens.
    pub open spec fn detail_opened(pre: App, post: App) -> bool {
        match row_at(pre.rows(), pre.selected_task) {
            None => post == pre,
            Some(row) => {
                &&& post.comments.deep_view() == pre.kept_comments(row.id@)
                &&& post.comments_fetch_seq == crate::submit::bumped(pre.comments_fetch_seq)
                &&& post.outbox.deep_view() == pre.outbox.deep_view().push(
                    EffectView::FetchComments {
                        task_id: row.id@,
                        fetch_seq: post.comments_fetch_seq,
                    },
                )
                &&& post == (App {
                    selected_project: pre.project_of_detail(row),
                    active_pane: Pane::Detail,
                    detail_scroll: 0,
                    detail_field: 0,
                    comments: post.comments,
                    comments_fetch_seq: post.comments_fetch_seq,
                    outbox: post.outbox,
                    ..pre
                })
            },
        }
    }

    /// A copy of the comments that are kept for the task `task`.
    fn copy_kept_comments(&self, task: &str) -> (r: Vec<Comment>)
        ensures
            r.deep_view() == self.kept_comments(task@),
    {
        match self.comments_by_task.get(task) {
            Some(list) => clone_comments(list),
            None => {
                let r: Vec<Comment> = Vec::new();
                assert(r.deep_view() =~= Seq::<crate::models::CommentView>::empty());
                r
            },
        }
    }

    /// Where the project cursor goes when the detail of a task of the
    /// project `project` is opened.
    fn detail_project(&self, project: &str) -> (r: usize)
        ensures
            r == (if self.dock_filter is Some && first_index(self.projects@, project@)
                < self.projects@.len() {
                first_index(self.projects@, project@) as usize
            } else {
                self.selected_project
            }),
    {
        if self.dock_filter.is_some() {
            let pos = find_by_id(&self.projects, project);
            if pos < self.projects.len() {
                return pos;
            }
        }
        self.selected_project
    }

    /// Puts the focus on the detail pane, with the project cursor at
    /// `project` and the comments `comments`.
    fn focus_detail(&mut self, project: usize, comments: Vec<Comment>)
        ensures
            *final(self) == (App {
                selected_project: project,
                active_pane: Pane::Detail,
                detail_scroll: 0,
                detail_field: 0,
                comments,
                ..*old(self)
            }),
    {
        self.selected_project = project;
        self.active_pane = Pane::Detail;
        self.detail_scroll = 0;
        self.detail_field = 0;
        self.comments = comments;
    }

    /// Puts the focus on the detail pane and asks for the comments of the
    /// task `task_id`.
    fn show_detail(&mut self, task_id: String, project: usize, comments: Vec<Comment>)
        ensures
            final(self).comments_fetch_seq == crate::submit::bumped(old(self).comments_fetch_seq),
            final(self).outbox.deep_view() == old(self).outbox.deep_view().push(
                EffectView::FetchComments {
                    task_id: task_id@,
                    fetch_seq: final(self).comments_fetch_seq,
                },
            ),
            *final(self) == (App {
                selected_project: project,
                active_pane: Pane::Detail,
                detail_scroll: 0,
                detail_field: 0,
                comments,
                comments_fetch_seq: final(self).comments_fetch_seq,
                outbox: final(self).outbox,
                ..*old(self)
            }),
    {
        self.focus_detail(project, comments);
        self.spawn_comments_fetch(task_id);
    }

    /// Opens the detail of the task under the cursor.
    pub fn open_detail(&mut self)
        ensures
            Self::detail_opened(*old(self), *final(self)),
    {
        let (task_id, project, comments) = match self.selected_task() {
            None => {
                return ;
            },
            Some(t) => (
                t.id.clone(),
                self.detail_project(t.project_id.as_str()),
                self.copy_kept_comments(t.id.as_str()),
            ),
        };
        self.show_detail(task_id, project, comments);
    }

    /// The field of the form that lies above the field `current`, around
    /// the fields.
    pub open spec fn field_above(current: usize) -> usize {
        if current == 0 {
            3
        } else {
            (current - 1) as usize
        }
    }

    /// The field of the form that lies below the field `current`, around
    /// the fields.
    pub open spec fn field_below(current: usize) -> usize {
        if current >= 3 {
            0
        } else {
            (current + 1) as usize
        }
    }

    /// The form after the active field moved to `field`, unless a field is
    /// being edited.
    pub open spec fn form_at(form: Option<TaskForm>, field: spec_fn(usize) -> usize) -> Option<TaskForm> {
        match form {
            Some(f) => if f.editing {
                Some(f)
            } else {
                Some(TaskForm { active_field: field(f.active_field), ..f })
            },
            None => None,
        }
    }

    /// Moves to the field above in the form, unless a field is being edited.
    pub fn form_field_up(&mut self)
        ensures
            *final(self) == (App {
                task_form: Self::form_at(old(self).task_form, |c: usize| Self::field_above(c)),
                ..*old(self)
            }),
    {
        let form = self.task_form.take();
        self.task_form = match form {
            Some(f) => {
                let mut f = f;
                if !f.editing {
                    f.active_field = if f.active_field == 0 {
                        3
                    } else {
                        f.active_field - 1
                    };
                }
                Some(f)
            },
            None => None,
        };
    }

    /// Moves to the field below in the form, unless a field is being
    /// edited.
    pub fn form_field_down(&mut self)
        ensures
            *final(self) == (App {
                task_form: Self::form_at(old(self).task_form, |c: usize| Self::field_below(c)),
                ..*old(self)
            }),
    {
        let form = self.task_form.take();
        self.task_form = match form {
            Some(f) => {
                let mut f = f;
                if !f.editing {
                    f.active_field = if f.active_field >= 3 {
                        0
                    } else {
                        f.active_field + 1
                    };
                }
                Some(f)
            },
            None => None,
        };
    }

    /// The id of the project that follows the project `id` in the list,
    /// around the list; a project that is not in the list counts as the
    /// first.
    pub open spec fn project_after(&self, id: Seq<char>) -> Option<String> {
        let n = self.projects@.len() as int;
        let found = first_index(self.projects@, id);
        let cur = if found < n {
            found
        } else {
            0
        };
        if n == 0 {
            None
        } else {
            Some(self.projects@[(cur + 1) % n].id)
        }
    }

    /// The id of the project that follows the project `id` in the list.
    fn next_project(&self, id: &str) -> (r: Option<String>)
        ensures
            r == self.project_after(id@),
    {
        let n = self.projects.len();
        if n == 0 {
            return None;
        }
        let found = find_by_id(&self.projects, id);
        let cur = if found < n {
            found
        } else {
            0
        };
        let next = if cur + 1 >= n {
            0
        } else {
            cur + 1
        };
        assert(next == (cur + 1) % (n as int)) by {
            if cur + 1 >= n {
                assert(cur + 1 == n);
                assert((n as int) % (n as int) == 0) by (nonlinear_arith)
                    requires
                        n > 0,
                ;
            } else {
                assert((cur + 1) % (n as int) == cur + 1) by (nonlinear_arith)
                    requires
                        0 <= cur + 1 < n,
                ;
            }
        }
        Some(self.projects[next].id.clone())
    }

    /// The form after its active field was taken up: a text field is
    /// edited, and the project moves on to the next project of the list.
    pub open spec fn form_taken(&self, form: TaskForm) -> TaskForm {
        TaskForm {
            editing: form.active_field == 0 || form.active_field == 2 || form.editing,
            project_id: if form.active_field == 3 {
                match self.project_after(form.project_id@) {
                    Some(n) => n,
                    None => form.project_id,
                }
            } else {
                form.project_id
            },
            ..form
        }
    }

    /// The state after the active field of the form was taken up. Content
    /// and due date open the input line with the text there is. The
    /// priority opens its picker. The project moves on to the next project
    /// of the list. Without a form nothing happens.
    pub open spec fn form_field_edited(pre: App) -> App {
        match pre.task_form {
            None => pre,
            Some(form) => {
                let texts = form.active_field == 0 || form.active_field == 2;
                App {
                    task_form: Some(pre.form_taken(form)),
                    show_input: texts || pre.show_input,
                    input_buffer: if form.active_field == 0 {
                        form.content
                    } else if form.active_field == 2 {
                        form.due_string
                    } else {
                        pre.input_buffer
                    },
                    input_mode: if texts {
                        Self::typing(pre.input_mode)
                    } else {
                        pre.input_mode
                    },
                    priority_selection: if form.active_field == 1 {
                        form.priority
                    } else {
                        pre.priority_selection
                    },
                    show_priority_picker: form.active_field == 1 || pre.show_priority_picker,
                    ..pre
                }
            },
        }
    }

    /// The state with the form `form`, the input line `line` where there
    /// is one, and the given flags.
    pub open spec fn with_form_state(
        pre: App,
        form: TaskForm,
        show_input: bool,
        line: Option<String>,
        input_mode: InputMode,
        priority_selection: u8,
        show_priority_picker: bool,
    ) -> App {
        App {
            task_form: Some(form),
            show_input,
            input_buffer: match line {
                Some(b) => b,
                None => pre.input_buffer,
            },
            input_mode,
            priority_selection,
            show_priority_picker,
            ..pre
        }
    }

    /// Puts the form and what goes with it; the input line stays where
    /// `line` is none.
    fn put_form_state(
        &mut self,
        form: TaskForm,
        show_input: bool,
        line: Option<String>,
        input_mode: InputMode,
        priority_selection: u8,
        show_priority_picker: bool,
    )
        ensures
            *final(self) == Self::with_form_state(
                *old(self),
                form,
                show_input,
                line,
                input_mode,
                priority_selection,
                show_priority_picker,
            ),
    {
        self.put_line(line);
        self.put_form_rest(form, show_input, input_mode, priority_selection, show_priority_picker);
    }

    /// Puts the text `line` on the input line, where there is one.
    fn put_line(&mut self, line: Option<String>)
        ensures
            *final(self) == (App {
                input_buffer: match line {
                    Some(b) => b,
                    None => old(self).input_buffer,
                },
                ..*old(self)
            }),
    {
        if line.is_some() {
            self.input_buffer = line.unwrap();
        }
    }

    /// Puts the form and the pickers.
    fn put_form_rest(
        &mut self,
        form: TaskForm,
        show_input: bool,
        input_mode: InputMode,
        priority_selection: u8,
        show_priority_picker: bool,
    )
        ensures
            *final(self) == (App {
                task_form: Some(form),
                show_input,
                input_mode,
                priority_selection,
                show_priority_picker,
                ..*old(self)
            }),
    {
        self.task_form = Some(form);
        self.show_input = show_input;
        self.input_mode = input_mode;
        self.priority_selection = priority_selection;
        self.show_priority_picker = show_priority_picker;
    }

    /// The form `form` with its active field taken up.
    fn take_up(&self, form: &TaskForm) -> (after: TaskForm)
        ensures
            after == self.form_taken(*form),
    {
        let mut after = form.clone();
        if form.active_field == 0 || form.active_field == 2 {
            after.editing = true;
        }
        if form.active_field == 3 {
            match self.next_project(form.project_id.as_str()) {
                Some(n) => {
                    after.project_id = n;
                },
                None => {},
            }
        }
        after
    }

    /// The text that goes onto the input line when the active field of
    /// `form` is taken up: that of a text field, and none otherwise.
    fn line_for(form: &TaskForm) -> (r: Option<String>)
        ensures
            r == (if form.active_field == 0 {
                Some(form.content)
            } else if form.active_field == 2 {
                Some(form.due_string)
            } else {
                None
            }),
    {
        if form.active_field == 0 {
            Some(form.content.clone())
        } else if form.active_field == 2 {
            Some(form.due_string.clone())
        } else {
            None
        }
    }

    /// Edits the active field of the form.
    pub fn form_edit_field(&mut self)
        ensures
            *final(self) == Self::form_field_edited(*old(self)),
    {
        let (after, line, field) = match &self.task_form {
            None => {
                return ;
            },
            Some(form) => (self.take_up(form), Self::line_for(form), form.active_field),
        };
        let texts = field == 0 || field == 2;
        let input_mode = if texts {
            typing_mode(self.input_mode)
        } else {
            self.input_mode
        };
        let priority_selection = if field == 1 {
            after.priority
        } else {
            self.priority_selection
        };
        let show_input = texts || self.show_input;
        let show_picker = field == 1 || self.show_priority_picker;
        self.put_form_state(after, show_input, line, input_mode, priority_selection, show_picker);
    }

    /// Takes the form out of the state.
    fn take_form_out(&mut self) -> (form: Option<TaskForm>)
        ensures
            form == old(self).task_form,
            *final(self) == (App { task_form: None, ..*old(self) }),
    {
        self.task_form.take()
    }

    /// The form after the text `content` was typed into its active field:
    /// field 0 is the content and field 2 the due date.
    pub open spec fn form_filled(form: TaskForm, after: TaskForm, content: Seq<char>) -> bool {
        &&& after.content@ == (if form.active_field == 0 {
            content
        } else {
            form.content@
        })
        &&& after.due_string@ == (if form.active_field == 2 {
            content
        } else {
            form.due_string@
        })
        &&& after.priority == form.priority
        &&& after.project_id == form.project_id
        &&& after.active_field == form.active_field
        &&& !after.editing
    }

    /// What a line of text does when it is submitted as a comment, or else
    /// as the new text of the active field: nothing where it is empty.
    pub open spec fn line_applied(pre: App, mid: App, text: String, comment: bool) -> bool {
        if text@.len() == 0 {
            mid == pre
        } else if comment {
            Self::comment_submitted(pre, mid, text)
        } else {
            Self::field_edited(pre, mid, text)
        }
    }

    /// What submitting the input line does with the text of the line
    /// without the white space around it. A comment is added, and a field
    /// is edited, unless the text is empty; then the input is closed. In
    /// the form, the text goes into the active field, which is no longer
    /// edited. Otherwise the input is closed.
    pub open spec fn input_submitted(pre: App, post: App) -> bool {
        let content = trimmed(pre.input_buffer@);
        if pre.comment_input || pre.editing_field {
            exists|mid: App, text: String|
                {
                    &&& #[trigger] Self::line_applied(pre, mid, text, pre.comment_input)
                    &&& text@ == content
                    &&& Self::input_cancelled(mid, post)
                }
        } else {
            match pre.task_form {
                Some(form) => if form.editing {
                    &&& post.task_form is Some
                    &&& Self::form_filled(form, post.task_form->Some_0, content)
                    &&& post.input_buffer@.len() == 0
                    &&& post == (App {
                        task_form: post.task_form,
                        input_buffer: post.input_buffer,
                        show_input: false,
                        input_mode: calm(pre.input_mode),
                        ..pre
                    })
                } else {
                    Self::input_cancelled(pre, post)
                },
                None => Self::input_cancelled(pre, post),
            }
        }
    }

    /// Applies the line `text` as a comment, or else as the text of the
    /// active field.
    fn apply_line(&mut self, text: String, comment: bool)
        ensures
            Self::line_applied(*old(self), *final(self), text, comment),
    {
        if text.as_str().is_empty() {
        } else if comment {
            self.submit_comment(text);
        } else {
            self.submit_field_edit(text);
        }
    }

    /// Applies the line `text` and closes the input.
    fn submit_line(&mut self, text: String, comment: bool)
        ensures
            exists|mid: App|
                {
                    &&& #[trigger] Self::line_applied(*old(self), mid, text, comment)
                    &&& Self::input_cancelled(mid, *final(self))
                },
    {
        self.apply_line(text, comment);
        let ghost mid = *self;
        self.cancel_input();
        assert(Self::line_applied(*old(self), mid, text, comment));
    }

    /// Shows the form `form` and closes the input line.
    fn keep_form(&mut self, form: TaskForm)
        ensures
            final(self).input_buffer@.len() == 0,
            *final(self) == (App {
                task_form: Some(form),
                input_buffer: final(self).input_buffer,
                show_input: false,
                input_mode: calm(old(self).input_mode),
                ..*old(self)
            }),
    {
        self.task_form = Some(form);
        self.input_buffer = String::new();
        self.show_input = false;
        self.input_mode = calm_mode(self.input_mode);
    }

    /// The form `form` with `content` in its active field.
    fn fill_form(form: TaskForm, content: String) -> (after: TaskForm)
        ensures
            Self::form_filled(form, after, content@),
    {
        let mut form = form;
        if form.active_field == 0 {
            form.content = content;
        } else if form.active_field == 2 {
            form.due_string = content;
        }
        form.editing = false;
        form
    }

    /// Puts `content` into the active field of the form that is edited, or
    /// closes the input where no form is edited.
    fn submit_form_line(&mut self, content: String)
        requires
            !old(self).comment_input,
            !old(self).editing_field,
        ensures
            match old(self).task_form {
                Some(form) => if form.editing {
                    &&& final(self).task_form is Some
                    &&& Self::form_filled(form, final(self).task_form->Some_0, content@)
                    &&& final(self).input_buffer@.len() == 0
                    &&& *final(self) == (App {
                        task_form: final(self).task_form,
                        input_buffer: final(self).input_buffer,
                        show_input: false,
                        input_mode: calm(old(self).input_mode),
                        ..*old(self)
                    })
                } else {
                    Self::input_cancelled(*old(self), *final(self))
                },
                None => Self::input_cancelled(*old(self), *final(self)),
            },
    {
        let editing = match &self.task_form {
            Some(f) => f.editing,
            None => false,
        };
        if editing {
            match self.take_form_out() {
                Some(form) => self.keep_form(Self::fill_form(form, content)),
                None => {},
            }
        } else {
            self.cancel_input();
        }
    }

    /// Submits the input line.
    pub fn submit_input(&mut self)
        ensures
            Self::input_submitted(*old(self), *final(self)),
    {
        let content = trim_text(self.input_buffer.as_str());
        if self.comment_input || self.editing_field {
            self.submit_line(content, self.comment_input);
        } else {
            self.submit_form_line(content);
        }
    }
}

} // verus!
