//! The small types of the interface state: panes, modes, filters, forms.

use crate::models::{Project, ProjectView, Task, TaskView};
use vstd::prelude::*;

verus! {

/// The pane that has the focus.
#[derive(Debug, Clone, Copy, PartialEq, Eq, Structural)]
pub enum Pane {
    Projects,
    Tasks,
    Detail,
    Settings,
    StatsDock,
}

/// The state of the modal editor.
#[derive(Debug, Clone, Copy, PartialEq, Eq, Structural)]
pub enum VimState {
    Normal,
    Visual,
    Insert,
}

/// How keys are read.
#[derive(Debug, Clone, Copy, PartialEq, Eq, Structural)]
pub enum InputMode {
    Standard,
    Vim(VimState),
}

impl InputMode {
    /// The text of [`InputMode::label`].
    pub open spec fn label_text(&self) -> Seq<char> {
        match self {
            InputMode::Standard => "STANDARD"@,
            InputMode::Vim(VimState::Normal) => "NORMAL"@,
            InputMode::Vim(VimState::Visual) => "VISUAL"@,
            InputMode::Vim(VimState::Insert) => "INSERT"@,
        }
    }

    /// The name of the mode, as the status bar shows it.
    pub fn label(&self) -> (r: &'static str)
        ensures
            r@ == self.label_text(),
    {
        match self {
            InputMode::Standard => "STANDARD",
            InputMode::Vim(VimState::Normal) => "NORMAL",
            InputMode::Vim(VimState::Visual) => "VISUAL",
            InputMode::Vim(VimState::Insert) => "INSERT",
        }
    }

    /// Whether the modal editor is on.
    pub fn is_vim(&self) -> (r: bool)
        ensures
            r == (*self is Vim),
    {
        match self {
            InputMode::Vim(_) => true,
            InputMode::Standard => false,
        }
    }
}

/// The counters of the overview: tasks due today, within the week, overdue,
/// and open tasks by priority value.
pub struct OverviewStats {
    pub due_today: u32,
    pub due_week: u32,
    pub overdue: u32,
    pub by_priority: [u32; 5],
}

/// Which tasks of a project are shown.
#[derive(Debug, Clone, Copy, PartialEq, Eq, Structural)]
pub enum TaskFilter {
    Active,
    Done,
    Both,
}

impl TaskFilter {
    /// The filter that follows `self` in the cycle Active, Done, Both.
    pub open spec fn successor(self) -> TaskFilter {
        match self {
            TaskFilter::Active => TaskFilter::Done,
            TaskFilter::Done => TaskFilter::Both,
            TaskFilter::Both => TaskFilter::Active,
        }
    }

    /// The next filter of the cycle.
    pub fn next(self) -> (r: Self)
        ensures
            r == self.successor(),
    {
        match self {
            TaskFilter::Active => TaskFilter::Done,
            TaskFilter::Done => TaskFilter::Both,
            TaskFilter::Both => TaskFilter::Active,
        }
    }
}

/// A filter of the dock, which shows tasks of all projects.
#[derive(Debug, Clone, Copy, PartialEq, Eq, Structural)]
pub enum DockItem {
    DueOverdue,
    DueToday,
    DueWeek,
    Priority(u8),
}

/// The dock's entries, in the order of the dock.
pub fn dock_items() -> (r: [DockItem; 7])
    ensures
        r@ == seq![
            DockItem::DueOverdue,
            DockItem::DueToday,
            DockItem::DueWeek,
            DockItem::Priority(4),
            DockItem::Priority(3),
            DockItem::Priority(2),
            DockItem::Priority(1),
        ],
{
    let r = [
        DockItem::DueOverdue,
        DockItem::DueToday,
        DockItem::DueWeek,
        DockItem::Priority(4),
        DockItem::Priority(3),
        DockItem::Priority(2),
        DockItem::Priority(1),
    ];
    assert(r@ =~= seq![
        DockItem::DueOverdue,
        DockItem::DueToday,
        DockItem::DueWeek,
        DockItem::Priority(4),
        DockItem::Priority(3),
        DockItem::Priority(2),
        DockItem::Priority(1),
    ]);
    r
}

impl DockItem {
    /// The text of [`DockItem::hint`].
    pub open spec fn hint_text(self) -> Seq<char> {
        match self {
            DockItem::DueOverdue => "overdue"@,
            DockItem::DueToday => "due today"@,
            DockItem::DueWeek => "due this week"@,
            DockItem::Priority(p) => if p == 4 {
                "urgent (P1)"@
            } else if p == 3 {
                "high (P2)"@
            } else if p == 2 {
                "medium (P3)"@
            } else if p == 1 {
                "no priority"@
            } else {
                "by priority"@
            },
        }
    }

    /// A few words on what the filter shows.
    pub fn hint(self) -> (r: &'static str)
        ensures
            r@ == self.hint_text(),
    {
        match self {
            DockItem::DueOverdue => "overdue",
            DockItem::DueToday => "due today",
            DockItem::DueWeek => "due this week",
            DockItem::Priority(p) => if p == 4 {
                "urgent (P1)"
            } else if p == 3 {
                "high (P2)"
            } else if p == 2 {
                "medium (P3)"
            } else if p == 1 {
                "no priority"
            } else {
                "by priority"
            },
        }
    }
}

/// How the top-level tasks of a project are ordered.
#[derive(Debug, Clone, Copy, PartialEq, Eq, Structural)]
pub enum SortMode {
    Default,
    Priority,
    DueDate,
    Created,
}

impl SortMode {
    /// The text of [`SortMode::label`].
    pub open spec fn label_text(&self) -> Seq<char> {
        match self {
            SortMode::Default => "order"@,
            SortMode::Priority => "priority"@,
            SortMode::DueDate => "due"@,
            SortMode::Created => "created"@,
        }
    }

    /// The name of the order.
    pub fn label(&self) -> (r: &'static str)
        ensures
            r@ == self.label_text(),
    {
        match self {
            SortMode::Default => "order",
            SortMode::Priority => "priority",
            SortMode::DueDate => "due",
            SortMode::Created => "created",
        }
    }

    /// The mode that follows `self` in the cycle Default, Priority, DueDate,
    /// Created.
    pub open spec fn successor(&self) -> SortMode {
        match self {
            SortMode::Default => SortMode::Priority,
            SortMode::Priority => SortMode::DueDate,
            SortMode::DueDate => SortMode::Created,
            SortMode::Created => SortMode::Default,
        }
    }

    /// The next mode of the cycle.
    pub fn next(&self) -> (r: Self)
        ensures
            r == self.successor(),
    {
        match self {
            SortMode::Default => SortMode::Priority,
            SortMode::Priority => SortMode::DueDate,
            SortMode::DueDate => SortMode::Created,
            SortMode::Created => SortMode::Default,
        }
    }
}

/// An error made ready for the user: what failed, the message, a hint where
/// there is one, and whether the program can go on.
#[derive(Debug)]
pub struct AppError {
    pub title: String,
    pub message: String,
    pub suggestion: Option<String>,
    pub recoverable: bool,
}

/// A user, with the name to show for them.
#[derive(Debug)]
pub struct UserRecord {
    pub id: String,
    pub full_name: String,
    pub email: String,
    pub display: String,
}

/// The text of an optional text: empty where there is none.
pub open spec fn text_or_empty(o: Option<String>) -> Seq<char> {
    match o {
        Some(s) => s@,
        None => Seq::empty(),
    }
}

/// The name shown for a user: name and mail where both are known, the one
/// that is known, or else the id.
pub open spec fn display_name(id: Seq<char>, name: Seq<char>, mail: Seq<char>) -> Seq<char> {
    if name.len() > 0 && mail.len() > 0 {
        name + " - "@ + mail
    } else if name.len() > 0 {
        name
    } else if mail.len() > 0 {
        mail
    } else {
        id
    }
}

/// The text of `o`, or the empty text.
pub fn unwrap_text(o: Option<String>) -> (r: String)
    ensures
        r@ == text_or_empty(o),
        o is Some ==> r == o->Some_0,
{
    match o {
        Some(s) => s,
        None => String::new(),
    }
}

impl UserRecord {
    /// The record of the user `id`. An absent name or mail counts as empty.
    pub fn new(id: String, full_name: Option<String>, email: Option<String>) -> (r: Self)
        ensures
            r.id == id,
            r.full_name@ == text_or_empty(full_name),
            r.email@ == text_or_empty(email),
            r.display@ == display_name(id@, text_or_empty(full_name), text_or_empty(email)),
    {
        let name = unwrap_text(full_name);
        let mail = unwrap_text(email);
        let display = if !name.as_str().is_empty() && !mail.as_str().is_empty() {
            let mut d = name.clone();
            d.append(" - ");
            d.append(mail.as_str());
            d
        } else if !name.as_str().is_empty() {
            name.clone()
        } else if !mail.as_str().is_empty() {
            mail.clone()
        } else {
            id.clone()
        };
        UserRecord { id, full_name: name, email: mail, display }
    }
}

impl Clone for UserRecord {
    fn clone(&self) -> (r: Self)
        ensures
            r == *self,
    {
        UserRecord {
            id: self.id.clone(),
            full_name: self.full_name.clone(),
            email: self.email.clone(),
            display: self.display.clone(),
        }
    }
}

/// The form that adds a task.
#[derive(Debug)]
pub struct TaskForm {
    pub content: String,
    pub priority: u8,
    pub due_string: String,
    pub project_id: String,
    pub active_field: usize,
    pub editing: bool,
}

impl Clone for TaskForm {
    fn clone(&self) -> (r: Self)
        ensures
            r == *self,
    {
        TaskForm {
            content: self.content.clone(),
            priority: self.priority,
            due_string: self.due_string.clone(),
            project_id: self.project_id.clone(),
            active_field: self.active_field,
            editing: self.editing,
        }
    }
}

impl TaskForm {
    /// An empty form for a task of `project_id`: lowest priority, the first
    /// field active and being edited.
    pub fn new(project_id: String) -> (r: Self)
        ensures
            r.content@.len() == 0,
            r.priority == 1,
            r.due_string@.len() == 0,
            r.project_id == project_id,
            r.active_field == 0,
            r.editing,
    {
        TaskForm {
            content: String::new(),
            priority: 1,
            due_string: String::new(),
            project_id,
            active_field: 0,
            editing: true,
        }
    }

    /// How many fields the form has.
    pub fn field_count() -> (n: usize)
        ensures
            n == 4,
    {
        4
    }
}

/// What undoes an optimistic change, should the service refuse the command
/// behind it.
#[allow(inconsistent_fields)]
pub enum OptimisticOp {
    /// A task was added under a temporary id: remove it.
    TaskAdded { temp_id: String },
    /// A task was removed: put it back.
    TaskRemoved { snapshot: Task },
    /// A task was changed: restore the copy taken before.
    TaskUpdated { task_id: String, before: Task },
    /// A comment was added under a temporary id to the task `task_id`.
    CommentAdded { temp_id: String, task_id: String },
    /// A project was changed: restore the copy taken before.
    ProjectUpdated { project_id: String, before: Project },
}

/// What an [`OptimisticOp`] holds.
#[allow(inconsistent_fields)]
pub enum UndoView {
    TaskAdded { temp_id: Seq<char> },
    TaskRemoved { snapshot: TaskView },
    TaskUpdated { task_id: Seq<char>, before: TaskView },
    CommentAdded { temp_id: Seq<char>, task_id: Seq<char> },
    ProjectUpdated { project_id: Seq<char>, before: ProjectView },
}

impl DeepView for OptimisticOp {
    type V = UndoView;

    open spec fn deep_view(&self) -> UndoView {
        match self {
            OptimisticOp::TaskAdded { temp_id } => UndoView::TaskAdded { temp_id: temp_id@ },
            OptimisticOp::TaskRemoved { snapshot } => UndoView::TaskRemoved {
                snapshot: snapshot.deep_view(),
            },
            OptimisticOp::TaskUpdated { task_id, before } => UndoView::TaskUpdated {
                task_id: task_id@,
                before: before.deep_view(),
            },
            OptimisticOp::CommentAdded { temp_id, task_id } => UndoView::CommentAdded {
                temp_id: temp_id@,
                task_id: task_id@,
            },
            OptimisticOp::ProjectUpdated { project_id, before } => UndoView::ProjectUpdated {
                project_id: project_id@,
                before: before.deep_view(),
            },
        }
    }
}

/// One line of the project list.
#[derive(Debug, Clone, Copy, PartialEq, Eq, Structural)]
pub enum ProjectEntry {
    PersonalHeader,
    WorkspaceHeader(usize),
    FolderHeader(usize),
    Project(usize),
    Separator,
}

/// A line of the project list that the cursor can stand on.
#[derive(Debug, Clone, Copy, PartialEq, Eq, Structural)]
pub enum ProjectNavItem {
    Folder(usize),
    Project(usize),
}

} // verus!
