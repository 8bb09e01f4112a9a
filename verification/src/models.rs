//! The entities of the replica and their mathematical views.
//!
//! Every entity has a `deep_view` that replaces each string by its character
//! sequence. Contracts that speak of copies are stated over these views.

use vstd::prelude::*;

verus! {

/// A JSON value of `serde_json`. The library never looks inside one: it only
/// carries the values that the service attaches to tasks and comments.
#[verifier::external_type_specification]
#[verifier::external_body]
pub struct ExJsonValue(serde_json::Value);

/// `serde_json::Value::clone` returns a value equal to the one it was given.
pub assume_specification[ <serde_json::Value as Clone>::clone ](v: &serde_json::Value) -> (r:
    serde_json::Value)
    ensures
        r == *v,
;

/// A copy of an optional text.
pub fn clone_opt_text(o: &Option<String>) -> (r: Option<String>)
    ensures
        r == *o,
{
    match o {
        Some(s) => Some(s.clone()),
        None => None,
    }
}

/// A copy of a list of texts.
pub fn clone_texts(v: &Vec<String>) -> (r: Vec<String>)
    ensures
        r.deep_view() == v.deep_view(),
{
    let mut out: Vec<String> = Vec::new();
    let mut i: usize = 0;
    while i < v.len()
        invariant
            i <= v.len(),
            out.len() == i,
            forall|j: int| 0 <= j < i ==> out@[j]@ == v@[j]@,
        decreases v.len() - i,
    {
        out.push(v[i].clone());
        i += 1;
    }
    assert(out.deep_view() =~= v.deep_view());
    out
}

/// A copy of an optional list of texts.
pub fn clone_opt_texts(o: &Option<Vec<String>>) -> (r: Option<Vec<String>>)
    ensures
        r.deep_view() == o.deep_view(),
{
    match o {
        Some(v) => Some(clone_texts(v)),
        None => None,
    }
}

/// A copy of an optional JSON value.
pub fn clone_opt_json(o: &Option<serde_json::Value>) -> (r: Option<serde_json::Value>)
    ensures
        r == *o,
{
    match o {
        Some(v) => Some(v.clone()),
        None => None,
    }
}

/// A copy of an optional due date.
pub fn clone_opt_due(o: &Option<Due>) -> (r: Option<Due>)
    ensures
        r == *o,
{
    match o {
        Some(d) => Some(d.clone()),
        None => None,
    }
}

/// A project, as the service reports it.
#[derive(Debug)]
pub struct Project {
    pub id: String,
    pub name: String,
    pub color: String,
    pub parent_id: Option<String>,
    pub child_order: i32,
    pub is_shared: bool,
    pub is_favorite: bool,
    pub inbox_project: Option<bool>,
    pub is_archived: Option<bool>,
    pub is_deleted: Option<bool>,
    pub is_collapsed: Option<bool>,
    pub view_style: Option<String>,
    pub created_at: Option<String>,
    pub updated_at: Option<String>,
    pub creator_uid: Option<String>,
    pub role: Option<String>,
    pub description: Option<String>,
    pub workspace_id: Option<String>,
    pub folder_id: Option<String>,
}

/// What a [`Project`] holds, as plain mathematical values.
pub struct ProjectView {
    pub id: Seq<char>,
    pub name: Seq<char>,
    pub color: Seq<char>,
    pub parent_id: Option<Seq<char>>,
    pub child_order: i32,
    pub is_shared: bool,
    pub is_favorite: bool,
    pub inbox_project: Option<bool>,
    pub is_archived: Option<bool>,
    pub is_deleted: Option<bool>,
    pub is_collapsed: Option<bool>,
    pub view_style: Option<Seq<char>>,
    pub created_at: Option<Seq<char>>,
    pub updated_at: Option<Seq<char>>,
    pub creator_uid: Option<Seq<char>>,
    pub role: Option<Seq<char>>,
    pub description: Option<Seq<char>>,
    pub workspace_id: Option<Seq<char>>,
    pub folder_id: Option<Seq<char>>,
}

impl ProjectView {
    /// The view of `Project::default()`: empty texts, no optional value, zeros.
    pub open spec fn blank() -> ProjectView {
        ProjectView {
            id: Seq::<char>::empty(),
            name: Seq::<char>::empty(),
            color: Seq::<char>::empty(),
            parent_id: None,
            child_order: 0,
            is_shared: false,
            is_favorite: false,
            inbox_project: None,
            is_archived: None,
            is_deleted: None,
            is_collapsed: None,
            view_style: None,
            created_at: None,
            updated_at: None,
            creator_uid: None,
            role: None,
            description: None,
            workspace_id: None,
            folder_id: None,
        }
    }
}

impl DeepView for Project {
    type V = ProjectView;

    open spec fn deep_view(&self) -> ProjectView {
        ProjectView {
            id: self.id@,
            name: self.name@,
            color: self.color@,
            parent_id: self.parent_id.deep_view(),
            child_order: self.child_order,
            is_shared: self.is_shared,
            is_favorite: self.is_favorite,
            inbox_project: self.inbox_project,
            is_archived: self.is_archived,
            is_deleted: self.is_deleted,
            is_collapsed: self.is_collapsed,
            view_style: self.view_style.deep_view(),
            created_at: self.created_at.deep_view(),
            updated_at: self.updated_at.deep_view(),
            creator_uid: self.creator_uid.deep_view(),
            role: self.role.deep_view(),
            description: self.description.deep_view(),
            workspace_id: self.workspace_id.deep_view(),
            folder_id: self.folder_id.deep_view(),
        }
    }
}

impl Clone for Project {
    fn clone(&self) -> (r: Self)
        ensures
            r == *self,
    {
        Project {
            id: self.id.clone(),
            name: self.name.clone(),
            color: self.color.clone(),
            parent_id: clone_opt_text(&self.parent_id),
            child_order: self.child_order,
            is_shared: self.is_shared,
            is_favorite: self.is_favorite,
            inbox_project: self.inbox_project,
            is_archived: self.is_archived,
            is_deleted: self.is_deleted,
            is_collapsed: self.is_collapsed,
            view_style: clone_opt_text(&self.view_style),
            created_at: clone_opt_text(&self.created_at),
            updated_at: clone_opt_text(&self.updated_at),
            creator_uid: clone_opt_text(&self.creator_uid),
            role: clone_opt_text(&self.role),
            description: clone_opt_text(&self.description),
            workspace_id: clone_opt_text(&self.workspace_id),
            folder_id: clone_opt_text(&self.folder_id),
        }
    }
}

impl Default for Project {
    fn default() -> (r: Self)
        ensures
            r.deep_view() == ProjectView::blank(),
    {
        let r = Project {
            id: String::new(),
            name: String::new(),
            color: String::new(),
            parent_id: None,
            child_order: 0,
            is_shared: false,
            is_favorite: false,
            inbox_project: None,
            is_archived: None,
            is_deleted: None,
            is_collapsed: None,
            view_style: None,
            created_at: None,
            updated_at: None,
            creator_uid: None,
            role: None,
            description: None,
            workspace_id: None,
            folder_id: None,
        };
        r
    }
}

/// When a task is due.
#[derive(Debug)]
pub struct Due {
    pub date: String,
    pub is_recurring: bool,
    pub timezone: Option<String>,
    pub string: Option<String>,
    pub datetime: Option<String>,
    pub lang: Option<String>,
}

/// What a [`Due`] holds, as plain mathematical values.
pub struct DueView {
    pub date: Seq<char>,
    pub is_recurring: bool,
    pub timezone: Option<Seq<char>>,
    pub string: Option<Seq<char>>,
    pub datetime: Option<Seq<char>>,
    pub lang: Option<Seq<char>>,
}

impl DueView {
    /// The view of `Due::default()`: empty texts, no optional value, zeros.
    pub open spec fn blank() -> DueView {
        DueView {
            date: Seq::<char>::empty(),
            is_recurring: false,
            timezone: None,
            string: None,
            datetime: None,
            lang: None,
        }
    }
}

impl DeepView for Due {
    type V = DueView;

    open spec fn deep_view(&self) -> DueView {
        DueView {
            date: self.date@,
            is_recurring: self.is_recurring,
            timezone: self.timezone.deep_view(),
            string: self.string.deep_view(),
            datetime: self.datetime.deep_view(),
            lang: self.lang.deep_view(),
        }
    }
}

impl Clone for Due {
    fn clone(&self) -> (r: Self)
        ensures
            r == *self,
    {
        Due {
            date: self.date.clone(),
            is_recurring: self.is_recurring,
            timezone: clone_opt_text(&self.timezone),
            string: clone_opt_text(&self.string),
            datetime: clone_opt_text(&self.datetime),
            lang: clone_opt_text(&self.lang),
        }
    }
}

impl Default for Due {
    fn default() -> (r: Self)
        ensures
            r.deep_view() == DueView::blank(),
    {
        let r = Due {
            date: String::new(),
            is_recurring: false,
            timezone: None,
            string: None,
            datetime: None,
            lang: None,
        };
        r
    }
}

/// A task. `deadline` and `duration` are carried through unread.
#[derive(Debug)]
pub struct Task {
    pub id: String,
    pub content: String,
    pub description: String,
    pub checked: bool,
    pub child_order: i32,
    pub priority: u8,
    pub project_id: String,
    pub section_id: Option<String>,
    pub parent_id: Option<String>,
    pub labels: Vec<String>,
    pub due: Option<Due>,
    pub deadline: Option<serde_json::Value>,
    pub duration: Option<serde_json::Value>,
    pub added_by_uid: Option<String>,
    pub added_at: Option<String>,
    pub responsible_uid: Option<String>,
    pub assigned_by_uid: Option<String>,
    pub note_count: Option<i32>,
    pub user_id: Option<String>,
    pub updated_at: Option<String>,
    pub is_deleted: bool,
    pub completed_at: Option<String>,
    pub completed_by_uid: Option<String>,
    pub day_order: Option<i32>,
    pub is_collapsed: bool,
}

/// What a [`Task`] holds, as plain mathematical values.
pub struct TaskView {
    pub id: Seq<char>,
    pub content: Seq<char>,
    pub description: Seq<char>,
    pub checked: bool,
    pub child_order: i32,
    pub priority: u8,
    pub project_id: Seq<char>,
    pub section_id: Option<Seq<char>>,
    pub parent_id: Option<Seq<char>>,
    pub labels: Seq<Seq<char>>,
    pub due: Option<DueView>,
    pub deadline: Option<serde_json::Value>,
    pub duration: Option<serde_json::Value>,
    pub added_by_uid: Option<Seq<char>>,
    pub added_at: Option<Seq<char>>,
    pub responsible_uid: Option<Seq<char>>,
    pub assigned_by_uid: Option<Seq<char>>,
    pub note_count: Option<i32>,
    pub user_id: Option<Seq<char>>,
    pub updated_at: Option<Seq<char>>,
    pub is_deleted: bool,
    pub completed_at: Option<Seq<char>>,
    pub completed_by_uid: Option<Seq<char>>,
    pub day_order: Option<i32>,
    pub is_collapsed: bool,
}

impl TaskView {
    /// The view of `Task::default()`: empty texts, no optional value, zeros.
    pub open spec fn blank() -> TaskView {
        TaskView {
            id: Seq::<char>::empty(),
            content: Seq::<char>::empty(),
            description: Seq::<char>::empty(),
            checked: false,
            child_order: 0,
            priority: 0,
            project_id: Seq::<char>::empty(),
            section_id: None,
            parent_id: None,
            labels: Seq::<Seq<char>>::empty(),
            due: None,
            deadline: None,
            duration: None,
            added_by_uid: None,
            added_at: None,
            responsible_uid: None,
            assigned_by_uid: None,
            note_count: None,
            user_id: None,
            updated_at: None,
            is_deleted: false,
            completed_at: None,
            completed_by_uid: None,
            day_order: None,
            is_collapsed: false,
        }
    }
}

impl DeepView for Task {
    type V = TaskView;

    open spec fn deep_view(&self) -> TaskView {
        TaskView {
            id: self.id@,
            content: self.content@,
            description: self.description@,
            checked: self.checked,
            child_order: self.child_order,
            priority: self.priority,
            project_id: self.project_id@,
            section_id: self.section_id.deep_view(),
            parent_id: self.parent_id.deep_view(),
            labels: self.labels.deep_view(),
            due: self.due.deep_view(),
            deadline: self.deadline,
            duration: self.duration,
            added_by_uid: self.added_by_uid.deep_view(),
            added_at: self.added_at.deep_view(),
            responsible_uid: self.responsible_uid.deep_view(),
            assigned_by_uid: self.assigned_by_uid.deep_view(),
            note_count: self.note_count,
            user_id: self.user_id.deep_view(),
            updated_at: self.updated_at.deep_view(),
            is_deleted: self.is_deleted,
            completed_at: self.completed_at.deep_view(),
            completed_by_uid: self.completed_by_uid.deep_view(),
            day_order: self.day_order,
            is_collapsed: self.is_collapsed,
        }
    }
}

impl Clone for Task {
    fn clone(&self) -> (r: Self)
        ensures
            r.deep_view() == self.deep_view(),
    {
        Task {
            id: self.id.clone(),
            content: self.content.clone(),
            description: self.description.clone(),
            checked: self.checked,
            child_order: self.child_order,
            priority: self.priority,
            project_id: self.project_id.clone(),
            section_id: clone_opt_text(&self.section_id),
            parent_id: clone_opt_text(&self.parent_id),
            labels: clone_texts(&self.labels),
            due: clone_opt_due(&self.due),
            deadline: clone_opt_json(&self.deadline),
            duration: clone_opt_json(&self.duration),
            added_by_uid: clone_opt_text(&self.added_by_uid),
            added_at: clone_opt_text(&self.added_at),
            responsible_uid: clone_opt_text(&self.responsible_uid),
            assigned_by_uid: clone_opt_text(&self.assigned_by_uid),
            note_count: self.note_count,
            user_id: clone_opt_text(&self.user_id),
            updated_at: clone_opt_text(&self.updated_at),
            is_deleted: self.is_deleted,
            completed_at: clone_opt_text(&self.completed_at),
            completed_by_uid: clone_opt_text(&self.completed_by_uid),
            day_order: self.day_order,
            is_collapsed: self.is_collapsed,
        }
    }
}

impl Default for Task {
    fn default() -> (r: Self)
        ensures
            r.deep_view() == TaskView::blank(),
    {
        let r = Task {
            id: String::new(),
            content: String::new(),
            description: String::new(),
            checked: false,
            child_order: 0,
            priority: 0,
            project_id: String::new(),
            section_id: None,
            parent_id: None,
            labels: Vec::new(),
            due: None,
            deadline: None,
            duration: None,
            added_by_uid: None,
            added_at: None,
            responsible_uid: None,
            assigned_by_uid: None,
            note_count: None,
            user_id: None,
            updated_at: None,
            is_deleted: false,
            completed_at: None,
            completed_by_uid: None,
            day_order: None,
            is_collapsed: false,
        };
        assert(r.labels.deep_view() =~= Seq::<Seq<char>>::empty());
        r
    }
}

/// A label; tasks refer to it by name.
#[derive(Debug)]
pub struct Label {
    pub id: String,
    pub name: String,
    pub color: String,
    pub item_order: Option<i32>,
    pub is_favorite: bool,
    pub is_deleted: Option<bool>,
}

/// What a [`Label`] holds, as plain mathematical values.
pub struct LabelView {
    pub id: Seq<char>,
    pub name: Seq<char>,
    pub color: Seq<char>,
    pub item_order: Option<i32>,
    pub is_favorite: bool,
    pub is_deleted: Option<bool>,
}

impl LabelView {
    /// The view of `Label::default()`: empty texts, no optional value, zeros.
    pub open spec fn blank() -> LabelView {
        LabelView {
            id: Seq::<char>::empty(),
            name: Seq::<char>::empty(),
            color: Seq::<char>::empty(),
            item_order: None,
            is_favorite: false,
            is_deleted: None,
        }
    }
}

impl DeepView for Label {
    type V = LabelView;

    open spec fn deep_view(&self) -> LabelView {
        LabelView {
            id: self.id@,
            name: self.name@,
            color: self.color@,
            item_order: self.item_order,
            is_favorite: self.is_favorite,
            is_deleted: self.is_deleted,
        }
    }
}

impl Clone for Label {
    fn clone(&self) -> (r: Self)
        ensures
            r == *self,
    {
        Label {
            id: self.id.clone(),
            name: self.name.clone(),
            color: self.color.clone(),
            item_order: self.item_order,
            is_favorite: self.is_favorite,
            is_deleted: self.is_deleted,
        }
    }
}

impl Default for Label {
    fn default() -> (r: Self)
        ensures
            r.deep_view() == LabelView::blank(),
    {
        let r = Label {
            id: String::new(),
            name: String::new(),
            color: String::new(),
            item_order: None,
            is_favorite: false,
            is_deleted: None,
        };
        r
    }
}

/// A section of a project.
#[derive(Debug)]
pub struct Section {
    pub id: String,
    pub project_id: String,
    pub section_order: Option<i32>,
    pub name: String,
    pub is_archived: Option<bool>,
    pub is_deleted: Option<bool>,
    pub is_collapsed: Option<bool>,
    pub added_at: Option<String>,
}

/// What a [`Section`] holds, as plain mathematical values.
pub struct SectionView {
    pub id: Seq<char>,
    pub project_id: Seq<char>,
    pub section_order: Option<i32>,
    pub name: Seq<char>,
    pub is_archived: Option<bool>,
    pub is_deleted: Option<bool>,
    pub is_collapsed: Option<bool>,
    pub added_at: Option<Seq<char>>,
}

impl SectionView {
    /// The view of `Section::default()`: empty texts, no optional value, zeros.
    pub open spec fn blank() -> SectionView {
        SectionView {
            id: Seq::<char>::empty(),
            project_id: Seq::<char>::empty(),
            section_order: None,
            name: Seq::<char>::empty(),
            is_archived: None,
            is_deleted: None,
            is_collapsed: None,
            added_at: None,
        }
    }
}

impl DeepView for Section {
    type V = SectionView;

    open spec fn deep_view(&self) -> SectionView {
        SectionView {
            id: self.id@,
            project_id: self.project_id@,
            section_order: self.section_order,
            name: self.name@,
            is_archived: self.is_archived,
            is_deleted: self.is_deleted,
            is_collapsed: self.is_collapsed,
            added_at: self.added_at.deep_view(),
        }
    }
}

impl Clone for Section {
    fn clone(&self) -> (r: Self)
        ensures
            r == *self,
    {
        Section {
            id: self.id.clone(),
            project_id: self.project_id.clone(),
            section_order: self.section_order,
            name: self.name.clone(),
            is_archived: self.is_archived,
            is_deleted: self.is_deleted,
            is_collapsed: self.is_collapsed,
            added_at: clone_opt_text(&self.added_at),
        }
    }
}

impl Default for Section {
    fn default() -> (r: Self)
        ensures
            r.deep_view() == SectionView::blank(),
    {
        let r = Section {
            id: String::new(),
            project_id: String::new(),
            section_order: None,
            name: String::new(),
            is_archived: None,
            is_deleted: None,
            is_collapsed: None,
            added_at: None,
        };
        r
    }
}

/// A comment on a task. `attachment` and `reactions` are carried through unread.
#[derive(Debug)]
pub struct Comment {
    pub id: String,
    pub content: String,
    pub posted_at: Option<String>,
    pub posted_by_uid: Option<String>,
    pub project_id: Option<String>,
    pub task_id: Option<String>,
    pub item_id: Option<String>,
    pub attachment: Option<serde_json::Value>,
    pub is_deleted: bool,
    pub reactions: Option<serde_json::Value>,
    pub uids_to_notify: Option<Vec<String>>,
}

/// What a [`Comment`] holds, as plain mathematical values.
pub struct CommentView {
    pub id: Seq<char>,
    pub content: Seq<char>,
    pub posted_at: Option<Seq<char>>,
    pub posted_by_uid: Option<Seq<char>>,
    pub project_id: Option<Seq<char>>,
    pub task_id: Option<Seq<char>>,
    pub item_id: Option<Seq<char>>,
    pub attachment: Option<serde_json::Value>,
    pub is_deleted: bool,
    pub reactions: Option<serde_json::Value>,
    pub uids_to_notify: Option<Seq<Seq<char>>>,
}

impl CommentView {
    /// The view of `Comment::default()`: empty texts, no optional value, zeros.
    pub open spec fn blank() -> CommentView {
        CommentView {
            id: Seq::<char>::empty(),
            content: Seq::<char>::empty(),
            posted_at: None,
            posted_by_uid: None,
            project_id: None,
            task_id: None,
            item_id: None,
            attachment: None,
            is_deleted: false,
            reactions: None,
            uids_to_notify: None,
        }
    }
}

impl DeepView for Comment {
    type V = CommentView;

    open spec fn deep_view(&self) -> CommentView {
        CommentView {
            id: self.id@,
            content: self.content@,
            posted_at: self.posted_at.deep_view(),
            posted_by_uid: self.posted_by_uid.deep_view(),
            project_id: self.project_id.deep_view(),
            task_id: self.task_id.deep_view(),
            item_id: self.item_id.deep_view(),
            attachment: self.attachment,
            is_deleted: self.is_deleted,
            reactions: self.reactions,
            uids_to_notify: self.uids_to_notify.deep_view(),
        }
    }
}

impl Clone for Comment {
    fn clone(&self) -> (r: Self)
        ensures
            r.deep_view() == self.deep_view(),
    {
        Comment {
            id: self.id.clone(),
            content: self.content.clone(),
            posted_at: clone_opt_text(&self.posted_at),
            posted_by_uid: clone_opt_text(&self.posted_by_uid),
            project_id: clone_opt_text(&self.project_id),
            task_id: clone_opt_text(&self.task_id),
            item_id: clone_opt_text(&self.item_id),
            attachment: clone_opt_json(&self.attachment),
            is_deleted: self.is_deleted,
            reactions: clone_opt_json(&self.reactions),
            uids_to_notify: clone_opt_texts(&self.uids_to_notify),
        }
    }
}

impl Default for Comment {
    fn default() -> (r: Self)
        ensures
            r.deep_view() == CommentView::blank(),
    {
        let r = Comment {
            id: String::new(),
            content: String::new(),
            posted_at: None,
            posted_by_uid: None,
            project_id: None,
            task_id: None,
            item_id: None,
            attachment: None,
            is_deleted: false,
            reactions: None,
            uids_to_notify: None,
        };
        r
    }
}

/// The signed-in user.
#[derive(Debug)]
pub struct UserInfo {
    pub id: String,
    pub full_name: Option<String>,
    pub email: Option<String>,
    pub websocket_url: Option<String>,
}

/// What a [`UserInfo`] holds, as plain mathematical values.
pub struct UserInfoView {
    pub id: Seq<char>,
    pub full_name: Option<Seq<char>>,
    pub email: Option<Seq<char>>,
    pub websocket_url: Option<Seq<char>>,
}

impl UserInfoView {
    /// The view of `UserInfo::default()`: empty texts, no optional value, zeros.
    pub open spec fn blank() -> UserInfoView {
        UserInfoView {
            id: Seq::<char>::empty(),
            full_name: None,
            email: None,
            websocket_url: None,
        }
    }
}

impl DeepView for UserInfo {
    type V = UserInfoView;

    open spec fn deep_view(&self) -> UserInfoView {
        UserInfoView {
            id: self.id@,
            full_name: self.full_name.deep_view(),
            email: self.email.deep_view(),
            websocket_url: self.websocket_url.deep_view(),
        }
    }
}

impl Clone for UserInfo {
    fn clone(&self) -> (r: Self)
        ensures
            r == *self,
    {
        UserInfo {
            id: self.id.clone(),
            full_name: clone_opt_text(&self.full_name),
            email: clone_opt_text(&self.email),
            websocket_url: clone_opt_text(&self.websocket_url),
        }
    }
}

impl Default for UserInfo {
    fn default() -> (r: Self)
        ensures
            r.deep_view() == UserInfoView::blank(),
    {
        let r = UserInfo {
            id: String::new(),
            full_name: None,
            email: None,
            websocket_url: None,
        };
        r
    }
}

/// Another user who shares a project.
#[derive(Debug)]
pub struct Collaborator {
    pub id: String,
    pub name: Option<String>,
    pub email: Option<String>,
}

/// What a [`Collaborator`] holds, as plain mathematical values.
pub struct CollaboratorView {
    pub id: Seq<char>,
    pub name: Option<Seq<char>>,
    pub email: Option<Seq<char>>,
}

impl CollaboratorView {
    /// The view of `Collaborator::default()`: empty texts, no optional value, zeros.
    pub open spec fn blank() -> CollaboratorView {
        CollaboratorView {
            id: Seq::<char>::empty(),
            name: None,
            email: None,
        }
    }
}

impl DeepView for Collaborator {
    type V = CollaboratorView;

    open spec fn deep_view(&self) -> CollaboratorView {
        CollaboratorView {
            id: self.id@,
            name: self.name.deep_view(),
            email: self.email.deep_view(),
        }
    }
}

impl Clone for Collaborator {
    fn clone(&self) -> (r: Self)
        ensures
            r == *self,
    {
        Collaborator {
            id: self.id.clone(),
            name: clone_opt_text(&self.name),
            email: clone_opt_text(&self.email),
        }
    }
}

impl Default for Collaborator {
    fn default() -> (r: Self)
        ensures
            r.deep_view() == CollaboratorView::blank(),
    {
        let r = Collaborator {
            id: String::new(),
            name: None,
            email: None,
        };
        r
    }
}

/// A workspace, which groups projects.
#[derive(Debug)]
pub struct Workspace {
    pub id: String,
    pub name: String,
    pub is_deleted: bool,
}

/// What a [`Workspace`] holds, as plain mathematical values.
pub struct WorkspaceView {
    pub id: Seq<char>,
    pub name: Seq<char>,
    pub is_deleted: bool,
}

impl WorkspaceView {
    /// The view of `Workspace::default()`: empty texts, no optional value, zeros.
    pub open spec fn blank() -> WorkspaceView {
        WorkspaceView {
            id: Seq::<char>::empty(),
            name: Seq::<char>::empty(),
            is_deleted: false,
        }
    }
}

impl DeepView for Workspace {
    type V = WorkspaceView;

    open spec fn deep_view(&self) -> WorkspaceView {
        WorkspaceView {
            id: self.id@,
            name: self.name@,
            is_deleted: self.is_deleted,
        }
    }
}

impl Clone for Workspace {
    fn clone(&self) -> (r: Self)
        ensures
            r == *self,
    {
        Workspace {
            id: self.id.clone(),
            name: self.name.clone(),
            is_deleted: self.is_deleted,
        }
    }
}

impl Default for Workspace {
    fn default() -> (r: Self)
        ensures
            r.deep_view() == WorkspaceView::blank(),
    {
        let r = Workspace {
            id: String::new(),
            name: String::new(),
            is_deleted: false,
        };
        r
    }
}

/// A folder of projects inside a workspace.
#[derive(Debug)]
pub struct Folder {
    pub id: String,
    pub name: String,
    pub workspace_id: String,
    pub child_order: i32,
    pub is_deleted: bool,
}

/// What a [`Folder`] holds, as plain mathematical values.
pub struct FolderView {
    pub id: Seq<char>,
    pub name: Seq<char>,
    pub workspace_id: Seq<char>,
    pub child_order: i32,
    pub is_deleted: bool,
}

impl FolderView {
    /// The view of `Folder::default()`: empty texts, no optional value, zeros.
    pub open spec fn blank() -> FolderView {
        FolderView {
            id: Seq::<char>::empty(),
            name: Seq::<char>::empty(),
            workspace_id: Seq::<char>::empty(),
            child_order: 0,
            is_deleted: false,
        }
    }
}

impl DeepView for Folder {
    type V = FolderView;

    open spec fn deep_view(&self) -> FolderView {
        FolderView {
            id: self.id@,
            name: self.name@,
            workspace_id: self.workspace_id@,
            child_order: self.child_order,
            is_deleted: self.is_deleted,
        }
    }
}

impl Clone for Folder {
    fn clone(&self) -> (r: Self)
        ensures
            r == *self,
    {
        Folder {
            id: self.id.clone(),
            name: self.name.clone(),
            workspace_id: self.workspace_id.clone(),
            child_order: self.child_order,
            is_deleted: self.is_deleted,
        }
    }
}

impl Default for Folder {
    fn default() -> (r: Self)
        ensures
            r.deep_view() == FolderView::blank(),
    {
        let r = Folder {
            id: String::new(),
            name: String::new(),
            workspace_id: String::new(),
            child_order: 0,
            is_deleted: false,
        };
        r
    }
}

/// What the merge of server data needs to know of an entity: the id it is
/// found by, and whether the record is a tombstone that asks for removal.
pub trait Entity: Sized {
    /// The entity's id.
    spec fn key(&self) -> Seq<char>;

    /// Whether the record marks the entity as deleted.
    spec fn tombstone(&self) -> bool;

    fn id_text(&self) -> (r: &String)
        ensures
            r@ == self.key(),
    ;

    fn is_tombstone(&self) -> (r: bool)
        ensures
            r == self.tombstone(),
    ;
}

/// `Some(true)` and nothing else.
pub open spec fn flag_set(flag: Option<bool>) -> bool {
    flag == Some(true)
}

/// Whether an optional flag is present and set.
pub fn is_flag_set(flag: Option<bool>) -> (r: bool)
    ensures
        r == flag_set(flag),
{
    match flag {
        Some(b) => b,
        None => false,
    }
}

impl Entity for Project {
    open spec fn key(&self) -> Seq<char> {
        self.id@
    }

    open spec fn tombstone(&self) -> bool {
        flag_set(self.is_deleted)
    }

    fn id_text(&self) -> (r: &String) {
        &self.id
    }

    fn is_tombstone(&self) -> (r: bool) {
        is_flag_set(self.is_deleted)
    }
}

impl Entity for Task {
    open spec fn key(&self) -> Seq<char> {
        self.id@
    }

    open spec fn tombstone(&self) -> bool {
        self.is_deleted
    }

    fn id_text(&self) -> (r: &String) {
        &self.id
    }

    fn is_tombstone(&self) -> (r: bool) {
        self.is_deleted
    }
}

impl Entity for Label {
    open spec fn key(&self) -> Seq<char> {
        self.id@
    }

    open spec fn tombstone(&self) -> bool {
        flag_set(self.is_deleted)
    }

    fn id_text(&self) -> (r: &String) {
        &self.id
    }

    fn is_tombstone(&self) -> (r: bool) {
        is_flag_set(self.is_deleted)
    }
}

impl Entity for Section {
    open spec fn key(&self) -> Seq<char> {
        self.id@
    }

    open spec fn tombstone(&self) -> bool {
        flag_set(self.is_deleted)
    }

    fn id_text(&self) -> (r: &String) {
        &self.id
    }

    fn is_tombstone(&self) -> (r: bool) {
        is_flag_set(self.is_deleted)
    }
}

impl Entity for Comment {
    open spec fn key(&self) -> Seq<char> {
        self.id@
    }

    open spec fn tombstone(&self) -> bool {
        self.is_deleted
    }

    fn id_text(&self) -> (r: &String) {
        &self.id
    }

    fn is_tombstone(&self) -> (r: bool) {
        self.is_deleted
    }
}

impl Entity for Workspace {
    open spec fn key(&self) -> Seq<char> {
        self.id@
    }

    open spec fn tombstone(&self) -> bool {
        self.is_deleted
    }

    fn id_text(&self) -> (r: &String) {
        &self.id
    }

    fn is_tombstone(&self) -> (r: bool) {
        self.is_deleted
    }
}

impl Entity for Folder {
    open spec fn key(&self) -> Seq<char> {
        self.id@
    }

    open spec fn tombstone(&self) -> bool {
        self.is_deleted
    }

    fn id_text(&self) -> (r: &String) {
        &self.id
    }

    fn is_tombstone(&self) -> (r: bool) {
        self.is_deleted
    }
}

impl Project {
    /// Whether this is the user's inbox.
    pub open spec fn inbox(&self) -> bool {
        flag_set(self.inbox_project)
    }

    /// Whether this is the user's inbox: the flag is present and set.
    pub fn is_inbox(&self) -> (r: bool)
        ensures
            r == self.inbox(),
    {
        is_flag_set(self.inbox_project)
    }

    /// Whether the project list pins this project to the top of its group:
    /// the inbox and the favorites are pinned.
    pub open spec fn pinned(&self) -> bool {
        self.inbox() || self.is_favorite
    }

    /// Whether the project is pinned.
    pub fn is_pinned(&self) -> (r: bool)
        ensures
            r == self.pinned(),
    {
        self.is_inbox() || self.is_favorite
    }
}

/// The label of a priority value: 4 is the most urgent, and every value
/// without a label of its own reads as the lowest priority.
pub open spec fn priority_label_text(p: u8) -> Seq<char> {
    if p == 4 {
        "P1  Urgent"@
    } else if p == 3 {
        "P2  High"@
    } else if p == 2 {
        "P3  Medium"@
    } else {
        "P4  Normal"@
    }
}

/// The label shown for priority `p`.
pub fn priority_label(p: u8) -> (r: &'static str)
    ensures
        r@ == priority_label_text(p),
{
    if p == 4 {
        "P1  Urgent"
    } else if p == 3 {
        "P2  High"
    } else if p == 2 {
        "P3  Medium"
    } else {
        "P4  Normal"
    }
}

/// The name of a priority in the form that adds a task.
pub open spec fn priority_name_text(p: u8) -> Seq<char> {
    if p == 4 {
        "P1 urgent"@
    } else if p == 3 {
        "P2 high"@
    } else if p == 2 {
        "P3 medium"@
    } else {
        "P4 normal"@
    }
}

/// The name of the priority `p` in the form that adds a task.
pub fn format_priority(p: u8) -> (r: String)
    ensures
        r@ == priority_name_text(p),
{
    if p == 4 {
        "P1 urgent".to_owned()
    } else if p == 3 {
        "P2 high".to_owned()
    } else if p == 2 {
        "P3 medium".to_owned()
    } else {
        "P4 normal".to_owned()
    }
}

/// One entry of the service's list of completed tasks.
pub struct CompletedRecord {
    pub task_id: String,
    pub content: String,
    pub completed_at: String,
    pub project_id: String,
    pub section_id: Option<String>,
    pub note_count: Option<i32>,
    pub user_id: Option<String>,
    pub item_object: Option<Task>,
}

impl CompletedRecord {
    /// The task that the record stands for. Where the service sent the full
    /// task it is that task; otherwise it is a checked task made of the
    /// record's own fields, everything else blank.
    pub open spec fn task_view(&self) -> TaskView {
        match self.item_object {
            Some(t) => t.deep_view(),
            None => TaskView {
                id: self.task_id@,
                content: self.content@,
                checked: true,
                project_id: self.project_id@,
                section_id: self.section_id.deep_view(),
                note_count: self.note_count,
                user_id: self.user_id.deep_view(),
                completed_at: Some(self.completed_at@),
                ..TaskView::blank()
            },
        }
    }

    /// Turns the record into a task.
    pub fn into_task(self) -> (t: Task)
        ensures
            t.deep_view() == self.task_view(),
    {
        match self.item_object {
            Some(t) => t,
            None => {
                let mut t = Task::default();
                t.id = self.task_id;
                t.content = self.content;
                t.checked = true;
                t.project_id = self.project_id;
                t.section_id = self.section_id;
                t.note_count = self.note_count;
                t.user_id = self.user_id;
                t.completed_at = Some(self.completed_at);
                t
            },
        }
    }
}

/// The service's reply to a request for completed tasks.
pub struct CompletedTasksResponse {
    pub items: Vec<CompletedRecord>,
}

impl CompletedTasksResponse {
    /// The tasks that the records stand for, in the order of the reply.
    pub fn into_tasks(self) -> (r: Vec<Task>)
        ensures
            r.len() == self.items.len(),
            forall|i: int| 0 <= i < r.len() ==> r[i].deep_view() == self.items[i].task_view(),
    {
        let mut out: Vec<Task> = Vec::new();
        for rec in it: self.items
            invariant
                it.seq() == self.items@,
                out.len() == it.index(),
                forall|i: int| 0 <= i < out.len() ==> out[i].deep_view() == self.items[i].task_view(),
        {
            out.push(rec.into_task());
        }
        out
    }
}

/// One page of a paged reply.
pub struct Paginated<T> {
    pub results: Vec<T>,
    pub next_cursor: Option<String>,
}

/// The arguments of a command that adds a task. Absent fields are left out of
/// the request.
pub struct ItemAddArgs {
    pub content: String,
    pub project_id: String,
    pub priority: Option<u8>,
    pub due_string: Option<String>,
    pub labels: Option<Vec<String>>,
    pub description: Option<String>,
    pub parent_id: Option<String>,
    pub section_id: Option<String>,
}

/// The day by which a task must be done.
#[derive(Debug)]
pub struct Deadline {
    pub date: String,
}

/// How long a task takes.
#[derive(Debug)]
pub struct TaskDuration {
    pub amount: u32,
    pub unit: String,
}

/// A file that is attached to a comment.
#[derive(Debug)]
pub struct Attachment {
    pub file_name: Option<String>,
    pub file_type: Option<String>,
    pub file_url: Option<String>,
    pub resource_type: String,
}

} // verus!
