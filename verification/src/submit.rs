//! The commands that the user gives: each changes the replica at once,
//! keeps what undoes the change, and sends its command to the service.

use crate::app::{App, CommandKind, PendingOp};
use crate::commands::{
    checking, copy_of_first, describing, first_changed, new_temp_id, prioritizing, retitling,
    set_checked, set_content, set_description, set_favorite, set_priority, starring, temp_id_text,
    counter_after, uuid_text, wire_name, wire_name_of,
};
use crate::clock::{rfc3339_of, rfc3339_text};
use crate::models::{Comment, CommentView, Project, Task, TaskView};
use crate::projects::{project_order, selection_after};
use crate::state::{InputMode, OptimisticOp, TaskForm, UndoView, VimState};
use crate::sync::{CommandArgs, CommandArgsView};
use crate::text::{is_blank, trimmed};
use vstd::prelude::*;

verus! {

/// The row under the cursor.
pub open spec fn row_at(rows: Seq<Task>, cursor: usize) -> Option<Task> {
    if cursor < rows.len() {
        Some(rows[cursor as int])
    } else {
        None
    }
}

/// Where the cursor stands after rows went away: on the last row where it
/// was beyond it.
pub open spec fn kept_cursor(cursor: usize, len: nat) -> usize {
    if len > 0 && cursor >= len {
        (len - 1) as usize
    } else {
        cursor
    }
}

/// Whether the task belongs to a recurring series.
pub open spec fn recurring(t: Task) -> bool {
    t.due is Some && t.due->Some_0.is_recurring
}

/// The command kind that toggles the completion of `t`.
pub open spec fn toggle_kind(t: Task) -> CommandKind {
    if t.checked {
        CommandKind::TaskReopen
    } else {
        CommandKind::TaskComplete
    }
}

/// Arguments that name an entity and nothing else.
pub open spec fn id_args(id: Seq<char>) -> CommandArgsView {
    CommandArgsView { id: Some(id), ..CommandArgsView::blank() }
}

/// What undoes a change of the task `id`: the copy `before`, where there is
/// one.
pub open spec fn update_undo(id: Seq<char>, before: Option<TaskView>) -> Option<UndoView> {
    match before {
        Some(b) => Some(UndoView::TaskUpdated { task_id: id, before: b }),
        None => None,
    }
}

/// Arguments that name the entity `id`.
pub fn args_for(id: String) -> (r: CommandArgs)
    ensures
        r.deep_view() == id_args(id@),
{
    let mut args = CommandArgs::new();
    args.id = Some(id);
    args
}

/// The mode after the input was closed: the modal editor is back in normal
/// mode.
pub open spec fn calm(mode: InputMode) -> InputMode {
    match mode {
        InputMode::Vim(_) => InputMode::Vim(VimState::Normal),
        InputMode::Standard => InputMode::Standard,
    }
}

/// The mode after the input was closed.
pub fn calm_mode(mode: InputMode) -> (r: InputMode)
    ensures
        r == calm(mode),
{
    match mode {
        InputMode::Vim(_) => InputMode::Vim(VimState::Normal),
        InputMode::Standard => InputMode::Standard,
    }
}

/// The task that stands for a task that was just added: everything but its
/// id, content, project and priority is blank.
pub open spec fn added_task(temp: Seq<char>, content: Seq<char>, project: Seq<char>, priority: u8) -> TaskView {
    TaskView { id: temp, content, project_id: project, priority, ..TaskView::blank() }
}

/// The arguments of the command that adds a task: content and project, the
/// due text where there is one, and the priority where it is above the
/// lowest.
pub open spec fn add_args(content: Seq<char>, project: Seq<char>, due: Seq<char>, priority: u8) -> CommandArgsView {
    CommandArgsView {
        content: Some(content),
        project_id: Some(project),
        due_string: if due.len() > 0 {
            Some(due)
        } else {
            None
        },
        priority: if priority > 1 {
            Some(priority)
        } else {
            None
        },
        ..CommandArgsView::blank()
    }
}

/// The task that stands for the task of `form` until the service has
/// answered.
pub fn optimistic_task(temp_id: &String, form: &TaskForm) -> (t: Task)
    ensures
        t.deep_view() == added_task(temp_id@, form.content@, form.project_id@, form.priority),
{
    let mut t = Task::default();
    t.id = temp_id.clone();
    t.content = form.content.clone();
    t.project_id = form.project_id.clone();
    t.priority = form.priority;
    t
}

/// The arguments of the command that adds the task of `form`.
pub fn args_of_form(form: TaskForm) -> (r: CommandArgs)
    ensures
        r.deep_view() == add_args(
            form.content@,
            form.project_id@,
            form.due_string@,
            form.priority,
        ),
{
    let mut args = CommandArgs::new();
    if form.priority > 1 {
        args.priority = Some(form.priority);
    }
    args.content = Some(form.content);
    args.project_id = Some(form.project_id);
    if !form.due_string.as_str().is_empty() {
        args.due_string = Some(form.due_string);
    }
    args
}

/// The time that a local comment is stamped with: the clock reading as a
/// timestamp in universal time, where the calendar reaches it.
pub open spec fn stamp(now_secs: u64, now_nanos: u32) -> Option<Seq<char>> {
    rfc3339_text(now_secs, now_nanos)
}

/// The comment that stands for a comment that was just added.
pub open spec fn added_comment(
    temp: Seq<char>,
    content: Seq<char>,
    posted_at: Option<Seq<char>>,
    author: Option<Seq<char>>,
    task: Seq<char>,
) -> CommentView {
    CommentView {
        id: temp,
        content,
        posted_at,
        posted_by_uid: author,
        task_id: Some(task),
        item_id: Some(task),
        ..CommentView::blank()
    }
}

/// The arguments of the command that adds a comment.
pub open spec fn comment_args(task: Seq<char>, content: Seq<char>) -> CommandArgsView {
    CommandArgsView { item_id: Some(task), content: Some(content), ..CommandArgsView::blank() }
}

/// A counter of requests after one more request; it stops at the largest
/// number.
pub open spec fn bumped(n: u64) -> u64 {
    if n < u64::MAX {
        (n + 1) as u64
    } else {
        n
    }
}

/// The comment that stands for a new comment until the service has
/// answered, stamped with the clock reading.
pub fn optimistic_comment(
    temp_id: &String,
    content: &String,
    now_secs: u64,
    now_nanos: u32,
    author: &Option<String>,
    task_id: &String,
) -> (c: Comment)
    ensures
        c.deep_view() == added_comment(
            temp_id@,
            content@,
            stamp(now_secs, now_nanos),
            author.deep_view(),
            task_id@,
        ),
{
    stamped_comment(temp_id, content, rfc3339_of(now_secs, now_nanos), author, task_id)
}

/// The comment that stands for a new comment until the service has
/// answered, stamped with `posted_at`.
pub fn stamped_comment(
    temp_id: &String,
    content: &String,
    posted_at: Option<String>,
    author: &Option<String>,
    task_id: &String,
) -> (c: Comment)
    ensures
        c.deep_view() == added_comment(
            temp_id@,
            content@,
            posted_at.deep_view(),
            author.deep_view(),
            task_id@,
        ),
{
    let mut c = Comment::default();
    c.id = temp_id.clone();
    c.content = content.clone();
    c.posted_at = posted_at;
    c.posted_by_uid = crate::models::clone_opt_text(author);
    c.task_id = Some(task_id.clone());
    c.item_id = Some(task_id.clone());
    c
}

impl App {
    /// Sets the completion flag of the first task of id `id`.
    fn flip_checked(&mut self, id: &str, v: bool)
        ensures
            final(self).tasks@ == first_changed(old(self).tasks@, id@, checking(v)),
            *final(self) == (App { tasks: final(self).tasks, ..*old(self) }),
    {
        set_checked(&mut self.tasks, id, v);
    }

    /// A copy of the first task of id `id`.
    fn copy_of_task(&self, id: &str) -> (r: Option<Task>)
        ensures
            r.deep_view() == copy_of_first(self.tasks@, id@),
    {
        let i = crate::merge::find_by_id(&self.tasks, id);
        if i < self.tasks.len() {
            Some(self.tasks[i].clone())
        } else {
            None
        }
    }

    /// Moves the cursor onto the last row where it stands beyond it.
    fn keep_cursor(&mut self)
        ensures
            final(self).selected_task == kept_cursor(old(self).selected_task, old(self).rows().len()),
            *final(self) == (App { selected_task: final(self).selected_task, ..*old(self) }),
    {
        let n = self.visible_len();
        if n > 0 && self.selected_task >= n {
            self.selected_task = n - 1;
        }
    }

    /// What completing or reopening the row under the cursor does. The
    /// task's flag is flipped in the replica; a task of a recurring series
    /// is completed with the command that moves the series on, and is not
    /// re-dated locally. Without a row under the cursor nothing happens.
    pub open spec fn toggled_completion(pre: App, post: App) -> bool {
        match row_at(pre.rows(), pre.selected_task) {
            None => post == pre,
            Some(row) => {
                &&& post.tasks@ == first_changed(pre.tasks@, row.id@, checking(!row.checked))
                &&& post.selected_task == kept_cursor(pre.selected_task, post.rows().len())
                &&& Self::issued(
                    pre,
                    post,
                    wire_name(toggle_kind(row), recurring(row)),
                    None,
                    id_args(row.id@),
                    toggle_kind(row),
                    update_undo(row.id@, copy_of_first(pre.tasks@, row.id@)),
                    pre.command_counter,
                )
                &&& post == (App {
                    tasks: post.tasks,
                    selected_task: post.selected_task,
                    command_counter: post.command_counter,
                    temp_id_pending: post.temp_id_pending,
                    pending_commands: post.pending_commands,
                    outbox: post.outbox,
                    ..pre
                })
            },
        }
    }

    /// Flips the completion flag of the task `task_id` to `v`, keeps the
    /// cursor on the rows, and issues the command.
    fn toggle_and_issue(
        &mut self,
        task_id: String,
        v: bool,
        name: &str,
        kind: CommandKind,
        undo: Option<OptimisticOp>,
    )
        ensures
            final(self).tasks@ == first_changed(old(self).tasks@, task_id@, checking(v)),
            final(self).selected_task == kept_cursor(old(self).selected_task, final(self).rows().len()),
            Self::issued(
                *old(self),
                *final(self),
                name@,
                None,
                id_args(task_id@),
                kind,
                undo.deep_view(),
                old(self).command_counter,
            ),
            *final(self) == (App {
                tasks: final(self).tasks,
                selected_task: final(self).selected_task,
                command_counter: final(self).command_counter,
                temp_id_pending: final(self).temp_id_pending,
                pending_commands: final(self).pending_commands,
                outbox: final(self).outbox,
                ..*old(self)
            }),
    {
        self.flip_checked(task_id.as_str(), v);
        let ghost flipped = *self;
        self.keep_cursor();
        self.issue(name, None, args_for(task_id), kind, undo);
        assert(self.selection_view() == flipped.selection_view());
    }

    /// Completes the task under the cursor, or reopens it where it is
    /// completed.
    pub fn complete_selected_task(&mut self)
        ensures
            Self::toggled_completion(*old(self), *final(self)),
    {
        let (task_id, was_checked, is_recurring) = match self.selected_task() {
            None => {
                return ;
            },
            Some(t) => (
                t.id.clone(),
                t.checked,
                match &t.due {
                    Some(d) => d.is_recurring,
                    None => false,
                },
            ),
        };
        let kind = if was_checked {
            CommandKind::TaskReopen
        } else {
            CommandKind::TaskComplete
        };
        let undo = match self.copy_of_task(task_id.as_str()) {
            Some(b) => Some(OptimisticOp::TaskUpdated { task_id: task_id.clone(), before: b }),
            None => None,
        };
        self.toggle_and_issue(task_id, !was_checked, wire_name_of(kind, is_recurring), kind, undo);
    }

    /// Sets the priority of the first task of id `id`.
    fn put_priority(&mut self, id: &str, p: u8)
        ensures
            final(self).tasks@ == first_changed(old(self).tasks@, id@, prioritizing(p)),
            *final(self) == (App { tasks: final(self).tasks, ..*old(self) }),
    {
        set_priority(&mut self.tasks, id, p);
    }

    /// What setting the priority of the row under the cursor to `p` does.
    /// Nothing happens without a row, or where the row has that priority.
    pub open spec fn prioritized(pre: App, post: App, p: u8) -> bool {
        match row_at(pre.rows(), pre.selected_task) {
            None => post == pre,
            Some(row) => if row.priority == p {
                post == pre
            } else {
                &&& post.tasks@ == first_changed(pre.tasks@, row.id@, prioritizing(p))
                &&& Self::issued(
                    pre,
                    post,
                    wire_name(CommandKind::TaskUpdate, false),
                    None,
                    CommandArgsView { priority: Some(p), ..id_args(row.id@) },
                    CommandKind::TaskUpdate,
                    Some(UndoView::TaskUpdated { task_id: row.id@, before: row.deep_view() }),
                    pre.command_counter,
                )
                &&& post == (App {
                    tasks: post.tasks,
                    command_counter: post.command_counter,
                    temp_id_pending: post.temp_id_pending,
                    pending_commands: post.pending_commands,
                    outbox: post.outbox,
                    ..pre
                })
            },
        }
    }

    /// Sets the priority of the task `id` and issues the command.
    fn prioritize_and_issue(&mut self, id: &str, p: u8, args: CommandArgs, undo: OptimisticOp)
        ensures
            final(self).tasks@ == first_changed(old(self).tasks@, id@, prioritizing(p)),
            Self::issued(
                *old(self),
                *final(self),
                wire_name(CommandKind::TaskUpdate, false),
                None,
                args.deep_view(),
                CommandKind::TaskUpdate,
                Some(undo.deep_view()),
                old(self).command_counter,
            ),
            *final(self) == (App {
                tasks: final(self).tasks,
                command_counter: final(self).command_counter,
                temp_id_pending: final(self).temp_id_pending,
                pending_commands: final(self).pending_commands,
                outbox: final(self).outbox,
                ..*old(self)
            }),
    {
        self.put_priority(id, p);
        self.issue(
            wire_name_of(CommandKind::TaskUpdate, false),
            None,
            args,
            CommandKind::TaskUpdate,
            Some(undo),
        );
    }

    /// Gives the task under the cursor the priority `new_priority`.
    pub fn apply_priority(&mut self, new_priority: u8)
        ensures
            Self::prioritized(*old(self), *final(self), new_priority),
    {
        let (task_id, before) = match self.selected_task() {
            None => {
                return ;
            },
            Some(t) => {
                if t.priority == new_priority {
                    return ;
                }
                (t.id.clone(), t.clone())
            },
        };
        let mut args = args_for(task_id.clone());
        args.priority = Some(new_priority);
        let undo = OptimisticOp::TaskUpdated { task_id: task_id.clone(), before };
        self.prioritize_and_issue(task_id.as_str(), new_priority, args, undo);
    }

    /// The tasks after the field `field` of the task `id` was set to `value`
    /// in the detail pane. Field 0 is the content and field 3 the
    /// description; the due date, field 2, is left to the service, which
    /// reads the text and sends back the date.
    pub open spec fn edited_tasks(tasks: Seq<Task>, id: Seq<char>, field: usize, value: String) -> Seq<
        Task,
    > {
        if field == 0 {
            first_changed(tasks, id, retitling(value))
        } else if field == 3 {
            first_changed(tasks, id, describing(value))
        } else {
            tasks
        }
    }

    /// The arguments of the command that sets the field `field` to `value`.
    pub open spec fn edit_args(id: Seq<char>, field: usize, value: Seq<char>) -> CommandArgsView {
        if field == 0 {
            CommandArgsView { content: Some(value), ..id_args(id) }
        } else if field == 3 {
            CommandArgsView { description: Some(value), ..id_args(id) }
        } else {
            CommandArgsView { due_string: Some(value), ..id_args(id) }
        }
    }

    /// The arguments of the command that sets the field `field` to `value`.
    fn edit_args_for(id: String, field: usize, value: String) -> (r: CommandArgs)
        ensures
            r.deep_view() == Self::edit_args(id@, field, value@),
    {
        let mut args = args_for(id);
        if field == 0 {
            args.content = Some(value);
        } else if field == 3 {
            args.description = Some(value);
        } else {
            args.due_string = Some(value);
        }
        args
    }

    /// Sets the field `field` of the first task of id `id` to `value`.
    fn put_field(&mut self, id: &str, field: usize, value: String)
        ensures
            final(self).tasks@ == Self::edited_tasks(old(self).tasks@, id@, field, value),
            *final(self) == (App { tasks: final(self).tasks, ..*old(self) }),
    {
        if field == 0 {
            set_content(&mut self.tasks, id, value);
        } else if field == 3 {
            set_description(&mut self.tasks, id, value);
        }
    }

    /// What editing the active field of the row under the cursor does.
    /// Nothing happens without a row, or where the active field is not one
    /// that takes text.
    pub open spec fn field_edited(pre: App, post: App, value: String) -> bool {
        match row_at(pre.rows(), pre.selected_task) {
            None => post == pre,
            Some(row) => if pre.detail_field != 0 && pre.detail_field != 2 && pre.detail_field
                != 3 {
                post == pre
            } else {
                &&& post.tasks@ == Self::edited_tasks(pre.tasks@, row.id@, pre.detail_field, value)
                &&& Self::issued(
                    pre,
                    post,
                    wire_name(CommandKind::TaskUpdate, false),
                    None,
                    Self::edit_args(row.id@, pre.detail_field, value@),
                    CommandKind::TaskUpdate,
                    Some(UndoView::TaskUpdated { task_id: row.id@, before: row.deep_view() }),
                    pre.command_counter,
                )
                &&& post == (App {
                    tasks: post.tasks,
                    command_counter: post.command_counter,
                    temp_id_pending: post.temp_id_pending,
                    pending_commands: post.pending_commands,
                    outbox: post.outbox,
                    ..pre
                })
            },
        }
    }

    /// Sets the field `field` of the task `id` to `value` and issues the
    /// command.
    fn edit_and_issue(&mut self, id: &str, field: usize, value: String, args: CommandArgs, undo: OptimisticOp)
        ensures
            final(self).tasks@ == Self::edited_tasks(old(self).tasks@, id@, field, value),
            Self::issued(
                *old(self),
                *final(self),
                wire_name(CommandKind::TaskUpdate, false),
                None,
                args.deep_view(),
                CommandKind::TaskUpdate,
                Some(undo.deep_view()),
                old(self).command_counter,
            ),
            *final(self) == (App {
                tasks: final(self).tasks,
                command_counter: final(self).command_counter,
                temp_id_pending: final(self).temp_id_pending,
                pending_commands: final(self).pending_commands,
                outbox: final(self).outbox,
                ..*old(self)
            }),
    {
        self.put_field(id, field, value);
        self.issue(
            wire_name_of(CommandKind::TaskUpdate, false),
            None,
            args,
            CommandKind::TaskUpdate,
            Some(undo),
        );
    }

    /// Sets the active field of the task under the cursor to `value`.
    pub fn submit_field_edit(&mut self, value: String)
        ensures
            Self::field_edited(*old(self), *final(self), value),
    {
        let field = self.detail_field;
        if field != 0 && field != 2 && field != 3 {
            return ;
        }
        let (task_id, before) = match self.selected_task() {
            None => {
                return ;
            },
            Some(t) => (t.id.clone(), t.clone()),
        };
        let args = Self::edit_args_for(task_id.clone(), field, value.clone());
        let undo = OptimisticOp::TaskUpdated { task_id: task_id.clone(), before };
        self.edit_and_issue(task_id.as_str(), field, value, args, undo);
    }

    /// What closing the input does: the input line and the form go away, and
    /// the modal editor returns to normal mode.
    pub open spec fn input_cancelled(pre: App, post: App) -> bool {
        &&& post.input_buffer@.len() == 0
        &&& post == (App {
            show_input: false,
            comment_input: false,
            editing_field: false,
            task_form: None,
            input_buffer: post.input_buffer,
            input_mode: calm(pre.input_mode),
            ..pre
        })
    }

    /// Closes the input without submitting anything.
    pub fn cancel_input(&mut self)
        ensures
            Self::input_cancelled(*old(self), *final(self)),
    {
        self.show_input = false;
        self.comment_input = false;
        self.editing_field = false;
        self.task_form = None;
        self.input_buffer = String::new();
        self.input_mode = calm_mode(self.input_mode);
    }

    /// Takes the form out of the state.
    fn take_form(&mut self) -> (form: Option<TaskForm>)
        ensures
            form == old(self).task_form,
            *final(self) == (App { task_form: None, ..*old(self) }),
    {
        self.task_form.take()
    }

    /// Puts a task at the end of the tasks.
    pub(crate) fn add_task(&mut self, t: Task)
        ensures
            final(self).tasks@ == old(self).tasks@.push(t),
            *final(self) == (App { tasks: final(self).tasks, ..*old(self) }),
    {
        self.tasks.push(t);
    }

    /// What submitting the form does. A form without content is dropped.
    /// Otherwise a task with a temporary id, the form's content, project and
    /// priority joins the tasks, the command that adds it is sent, and the
    /// input is closed.
    pub open spec fn form_submitted(pre: App, post: App) -> bool {
        match pre.task_form {
            None => post == pre,
            Some(form) => if trimmed(form.content@).len() == 0 {
                Self::input_cancelled(pre, post)
            } else {
                let temp = temp_id_text(pre.command_counter);
                &&& post.tasks@.len() == pre.tasks@.len() + 1
                &&& post.tasks@.drop_last() == pre.tasks@
                &&& post.tasks@.last().deep_view() == added_task(
                    temp,
                    form.content@,
                    form.project_id@,
                    form.priority,
                )
                &&& Self::issued(
                    pre,
                    post,
                    wire_name(CommandKind::TaskAdd, false),
                    Some(temp),
                    add_args(form.content@, form.project_id@, form.due_string@, form.priority),
                    CommandKind::TaskAdd,
                    Some(UndoView::TaskAdded { temp_id: temp }),
                    counter_after(pre.command_counter),
                )
                &&& post.input_buffer@.len() == 0
                &&& post == (App {
                    tasks: post.tasks,
                    command_counter: post.command_counter,
                    temp_id_pending: post.temp_id_pending,
                    pending_commands: post.pending_commands,
                    outbox: post.outbox,
                    task_form: None,
                    show_input: false,
                    input_buffer: post.input_buffer,
                    input_mode: calm(pre.input_mode),
                    ..pre
                })
            },
        }
    }

    /// Closes the input after a form was submitted.
    fn close_input(&mut self)
        ensures
            final(self).input_buffer@.len() == 0,
            *final(self) == (App {
                task_form: None,
                show_input: false,
                input_buffer: final(self).input_buffer,
                input_mode: calm(old(self).input_mode),
                ..*old(self)
            }),
    {
        self.task_form = None;
        self.show_input = false;
        self.input_buffer = String::new();
        self.input_mode = calm_mode(self.input_mode);
    }

    /// Adds the task `task` under the temporary id `temp_id`, issues the
    /// command and closes the input.
    fn add_and_issue(&mut self, task: Task, temp_id: String, args: CommandArgs)
        ensures
            final(self).tasks@ == old(self).tasks@.push(task),
            Self::issued(
                *old(self),
                *final(self),
                wire_name(CommandKind::TaskAdd, false),
                Some(temp_id@),
                args.deep_view(),
                CommandKind::TaskAdd,
                Some(UndoView::TaskAdded { temp_id: temp_id@ }),
                old(self).command_counter,
            ),
            final(self).input_buffer@.len() == 0,
            *final(self) == (App {
                tasks: final(self).tasks,
                command_counter: final(self).command_counter,
                temp_id_pending: final(self).temp_id_pending,
                pending_commands: final(self).pending_commands,
                outbox: final(self).outbox,
                task_form: None,
                show_input: false,
                input_buffer: final(self).input_buffer,
                input_mode: calm(old(self).input_mode),
                ..*old(self)
            }),
    {
        self.add_task(task);
        self.issue(
            wire_name_of(CommandKind::TaskAdd, false),
            Some(temp_id.clone()),
            args,
            CommandKind::TaskAdd,
            Some(OptimisticOp::TaskAdded { temp_id }),
        );
        self.close_input();
    }

    /// Takes the next number of the counter and makes a temporary id of it.
    fn next_temp_id(&mut self) -> (r: String)
        ensures
            r@ == temp_id_text(old(self).command_counter),
            *final(self) == (App {
                command_counter: counter_after(old(self).command_counter),
                ..*old(self)
            }),
    {
        let c = self.next_counter();
        new_temp_id(c)
    }

    /// Submits the form that adds a task.
    pub fn submit_task_form(&mut self)
        ensures
            Self::form_submitted(*old(self), *final(self)),
    {
        let form = match self.take_form() {
            None => {
                return ;
            },
            Some(f) => f,
        };
        if is_blank(form.content.as_str()) {
            self.cancel_input();
            return ;
        }
        let temp_id = self.next_temp_id();
        let task = optimistic_task(&temp_id, &form);
        let args = args_of_form(form);
        self.add_and_issue(task, temp_id, args);
        assert(self.tasks@.drop_last() == old(self).tasks@);
    }

    /// Puts a comment at the end of the comments of the open detail and
    /// counts one more request for comments, so that a reply that is under
    /// way does not replace the comment.
    fn add_comment(&mut self, c: Comment)
        ensures
            final(self).comments@ == old(self).comments@.push(c),
            final(self).comments_fetch_seq == bumped(old(self).comments_fetch_seq),
            *final(self) == (App {
                comments: final(self).comments,
                comments_fetch_seq: final(self).comments_fetch_seq,
                ..*old(self)
            }),
    {
        self.comments.push(c);
        if self.comments_fetch_seq < u64::MAX {
            self.comments_fetch_seq = self.comments_fetch_seq + 1;
        }
    }

    /// What adding a comment to the row under the cursor does: a comment
    /// with a temporary id, the local time and the user as author joins the
    /// comments of the open detail, and the command that adds it is sent.
    /// Without a row under the cursor nothing happens.
    pub open spec fn comment_submitted(pre: App, post: App, content: String) -> bool {
        match row_at(pre.rows(), pre.selected_task) {
            None => post == pre,
            Some(row) => {
                let temp = temp_id_text(pre.command_counter);
                &&& post.comments@.len() == pre.comments@.len() + 1
                &&& post.comments@.drop_last() == pre.comments@
                &&& post.comments@.last().deep_view() == added_comment(
                    temp,
                    content@,
                    stamp(pre.now_secs, pre.now_nanos),
                    pre.current_user_id.deep_view(),
                    row.id@,
                )
                &&& post.comments_fetch_seq == bumped(pre.comments_fetch_seq)
                &&& Self::issued(
                    pre,
                    post,
                    wire_name(CommandKind::CommentAdd, false),
                    Some(temp),
                    comment_args(row.id@, content@),
                    CommandKind::CommentAdd,
                    Some(UndoView::CommentAdded { temp_id: temp, task_id: row.id@ }),
                    counter_after(pre.command_counter),
                )
                &&& post == (App {
                    comments: post.comments,
                    comments_fetch_seq: post.comments_fetch_seq,
                    command_counter: post.command_counter,
                    temp_id_pending: post.temp_id_pending,
                    pending_commands: post.pending_commands,
                    outbox: post.outbox,
                    ..pre
                })
            },
        }
    }

    /// Adds the comment `comment` under the temporary id `temp_id` and
    /// issues the command.
    fn comment_and_issue(&mut self, comment: Comment, temp_id: String, task_id: String, args: CommandArgs)
        ensures
            final(self).comments@ == old(self).comments@.push(comment),
            final(self).comments_fetch_seq == bumped(old(self).comments_fetch_seq),
            Self::issued(
                *old(self),
                *final(self),
                wire_name(CommandKind::CommentAdd, false),
                Some(temp_id@),
                args.deep_view(),
                CommandKind::CommentAdd,
                Some(UndoView::CommentAdded { temp_id: temp_id@, task_id: task_id@ }),
                old(self).command_counter,
            ),
            *final(self) == (App {
                comments: final(self).comments,
                comments_fetch_seq: final(self).comments_fetch_seq,
                command_counter: final(self).command_counter,
                temp_id_pending: final(self).temp_id_pending,
                pending_commands: final(self).pending_commands,
                outbox: final(self).outbox,
                ..*old(self)
            }),
    {
        self.add_comment(comment);
        self.issue(
            wire_name_of(CommandKind::CommentAdd, false),
            Some(temp_id.clone()),
            args,
            CommandKind::CommentAdd,
            Some(OptimisticOp::CommentAdded { temp_id, task_id }),
        );
    }

    /// The arguments of the command that adds a comment.
    fn comment_args_for(task_id: String, content: String) -> (r: CommandArgs)
        ensures
            r.deep_view() == comment_args(task_id@, content@),
    {
        let mut args = CommandArgs::new();
        args.item_id = Some(task_id);
        args.content = Some(content);
        args
    }

    /// Adds a comment to the task under the cursor.
    pub fn submit_comment(&mut self, content: String)
        ensures
            Self::comment_submitted(*old(self), *final(self), content),
    {
        let task_id = match self.selected_task() {
            None => {
                return ;
            },
            Some(t) => t.id.clone(),
        };
        let ghost start = *self;
        let temp_id = self.next_temp_id();
        let comment = optimistic_comment(
            &temp_id,
            &content,
            self.now_secs,
            self.now_nanos,
            &self.current_user_id,
            &task_id,
        );
        let args = Self::comment_args_for(task_id.clone(), content);
        self.comment_and_issue(comment, temp_id, task_id, args);
        assert(self.comments@.drop_last() == old(self).comments@);
    }

    /// Sets the favorite flag of the first project of id `id` in the store
    /// and puts the projects in order.
    fn put_favorite(&mut self, id: &str, v: bool)
        ensures
            final(self).project_store@ == first_changed(old(self).project_store@, id@, starring(v)),
            final(self).projects@ == project_order(
                final(self).project_store@,
                old(self).workspaces@,
                old(self).folders@,
            ),
            final(self).selected_project == selection_after(
                old(self).projects@,
                old(self).selected_project as int,
                final(self).projects@,
            ),
            *final(self) == (App {
                project_store: final(self).project_store,
                projects: final(self).projects,
                selected_project: final(self).selected_project,
                ..*old(self)
            }),
    {
        self.change_favorite(id, v);
        self.sort_projects();
    }

    /// Sets the favorite flag of the first project of id `id` in the store.
    fn change_favorite(&mut self, id: &str, v: bool)
        ensures
            final(self).project_store@ == first_changed(old(self).project_store@, id@, starring(v)),
            *final(self) == (App { project_store: final(self).project_store, ..*old(self) }),
    {
        set_favorite(&mut self.project_store, id, v);
    }

    /// What starring the selected project does: its favorite flag is
    /// flipped in the store, the projects are put in order, and the command
    /// is sent; a copy of the project as it was is kept for the case that
    /// the command is refused. Without a selected project nothing happens.
    pub open spec fn starred(pre: App, post: App) -> bool {
        if pre.selected_project >= pre.projects@.len() {
            post == pre
        } else {
            let p = pre.projects@[pre.selected_project as int];
            &&& post.project_store@ == first_changed(
                pre.project_store@,
                p.id@,
                starring(!p.is_favorite),
            )
            &&& post.projects@ == project_order(
                post.project_store@,
                pre.workspaces@,
                pre.folders@,
            )
            &&& post.selected_project == selection_after(
                pre.projects@,
                pre.selected_project as int,
                post.projects@,
            )
            &&& post.temp_id_pending@ == pre.temp_id_pending@.insert(
                uuid_text(pre.now_nanos, pre.command_counter),
                PendingOp {
                    kind: CommandKind::ProjectUpdate,
                    undo: OptimisticOp::ProjectUpdated { project_id: p.id, before: p },
                },
            )
            &&& Self::issued(
                pre,
                post,
                wire_name(CommandKind::ProjectUpdate, false),
                None,
                CommandArgsView { is_favorite: Some(!p.is_favorite), ..id_args(p.id@) },
                CommandKind::ProjectUpdate,
                Some(UndoView::ProjectUpdated { project_id: p.id@, before: p.deep_view() }),
                pre.command_counter,
            )
            &&& post == (App {
                project_store: post.project_store,
                projects: post.projects,
                selected_project: post.selected_project,
                command_counter: post.command_counter,
                temp_id_pending: post.temp_id_pending,
                pending_commands: post.pending_commands,
                outbox: post.outbox,
                ..pre
            })
        }
    }

    /// Sets the favorite flag of the project `id` and issues the command.
    fn star_and_issue(&mut self, id: &str, v: bool, args: CommandArgs, undo: OptimisticOp)
        ensures
            final(self).project_store@ == first_changed(old(self).project_store@, id@, starring(v)),
            final(self).projects@ == project_order(
                final(self).project_store@,
                old(self).workspaces@,
                old(self).folders@,
            ),
            final(self).selected_project == selection_after(
                old(self).projects@,
                old(self).selected_project as int,
                final(self).projects@,
            ),
            final(self).temp_id_pending@ == old(self).temp_id_pending@.insert(
                uuid_text(old(self).now_nanos, old(self).command_counter),
                PendingOp { kind: CommandKind::ProjectUpdate, undo },
            ),
            Self::issued(
                *old(self),
                *final(self),
                wire_name(CommandKind::ProjectUpdate, false),
                None,
                args.deep_view(),
                CommandKind::ProjectUpdate,
                Some(undo.deep_view()),
                old(self).command_counter,
            ),
            *final(self) == (App {
                project_store: final(self).project_store,
                projects: final(self).projects,
                selected_project: final(self).selected_project,
                command_counter: final(self).command_counter,
                temp_id_pending: final(self).temp_id_pending,
                pending_commands: final(self).pending_commands,
                outbox: final(self).outbox,
                ..*old(self)
            }),
    {
        self.put_favorite(id, v);
        self.issue(
            wire_name_of(CommandKind::ProjectUpdate, false),
            None,
            args,
            CommandKind::ProjectUpdate,
            Some(undo),
        );
    }

    /// Makes the selected project a favorite, or takes the mark away.
    pub fn star_selected_project(&mut self)
        ensures
            Self::starred(*old(self), *final(self)),
    {
        if self.selected_project >= self.projects.len() {
            return ;
        }
        let before = self.projects[self.selected_project].clone();
        let pid = before.id.clone();
        let new_fav = !before.is_favorite;
        let mut args = args_for(pid.clone());
        args.is_favorite = Some(new_fav);
        let undo = OptimisticOp::ProjectUpdated { project_id: pid.clone(), before };
        self.star_and_issue(pid.as_str(), new_fav, args, undo);
    }
}

} // verus!
