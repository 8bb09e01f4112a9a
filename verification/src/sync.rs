//! The messages of the sync protocol, as plain values.

use crate::models::{
    Collaborator, Comment, Folder, Label, Project, Section, Task, UserInfo, Workspace,
};
use vstd::prelude::*;

verus! {

/// The arguments that a command may carry. Each command kind reads the
/// fields of its own schema; absent fields are left out of the request.
pub struct CommandArgs {
    pub id: Option<String>,
    pub item_id: Option<String>,
    pub content: Option<String>,
    pub description: Option<String>,
    pub project_id: Option<String>,
    pub priority: Option<u8>,
    pub due_string: Option<String>,
    pub is_favorite: Option<bool>,
}

/// What a [`CommandArgs`] holds.
pub struct CommandArgsView {
    pub id: Option<Seq<char>>,
    pub item_id: Option<Seq<char>>,
    pub content: Option<Seq<char>>,
    pub description: Option<Seq<char>>,
    pub project_id: Option<Seq<char>>,
    pub priority: Option<u8>,
    pub due_string: Option<Seq<char>>,
    pub is_favorite: Option<bool>,
}

impl CommandArgsView {
    /// No argument at all.
    pub open spec fn blank() -> CommandArgsView {
        CommandArgsView {
            id: None,
            item_id: None,
            content: None,
            description: None,
            project_id: None,
            priority: None,
            due_string: None,
            is_favorite: None,
        }
    }
}

impl DeepView for CommandArgs {
    type V = CommandArgsView;

    open spec fn deep_view(&self) -> CommandArgsView {
        CommandArgsView {
            id: self.id.deep_view(),
            item_id: self.item_id.deep_view(),
            content: self.content.deep_view(),
            description: self.description.deep_view(),
            project_id: self.project_id.deep_view(),
            priority: self.priority,
            due_string: self.due_string.deep_view(),
            is_favorite: self.is_favorite,
        }
    }
}

impl CommandArgs {
    /// Arguments with no field set.
    pub fn new() -> (r: Self)
        ensures
            r.deep_view() == CommandArgsView::blank(),
    {
        CommandArgs {
            id: None,
            item_id: None,
            content: None,
            description: None,
            project_id: None,
            priority: None,
            due_string: None,
            is_favorite: None,
        }
    }
}

/// One command of a batch.
pub struct SyncCommand {
    /// The command's type on the wire, such as `item_add`.
    pub kind: String,
    pub temp_id: Option<String>,
    pub uuid: String,
    pub args: CommandArgs,
}

/// What a [`SyncCommand`] holds.
pub struct SyncCommandView {
    pub kind: Seq<char>,
    pub temp_id: Option<Seq<char>>,
    pub uuid: Seq<char>,
    pub args: CommandArgsView,
}

impl DeepView for SyncCommand {
    type V = SyncCommandView;

    open spec fn deep_view(&self) -> SyncCommandView {
        SyncCommandView {
            kind: self.kind@,
            temp_id: self.temp_id.deep_view(),
            uuid: self.uuid@,
            args: self.args.deep_view(),
        }
    }
}

/// A request to the sync endpoint: the token to read from, the kinds of
/// entities wanted back, and the commands to run.
pub struct SyncRequest {
    pub sync_token: String,
    pub resource_types: Vec<String>,
    pub commands: Vec<SyncCommand>,
}

/// What a [`SyncRequest`] holds.
pub struct SyncRequestView {
    pub sync_token: Seq<char>,
    pub resource_types: Seq<Seq<char>>,
    pub commands: Seq<SyncCommandView>,
}

impl DeepView for SyncRequest {
    type V = SyncRequestView;

    open spec fn deep_view(&self) -> SyncRequestView {
        SyncRequestView {
            sync_token: self.sync_token@,
            resource_types: self.resource_types.deep_view(),
            commands: self.commands.deep_view(),
        }
    }
}

/// The rejection of one command.
pub struct SyncCommandError {
    pub error_code: i32,
    pub error: String,
    pub error_tag: Option<String>,
}

/// The outcome of one command.
pub enum SyncCommandResult {
    /// The command ran; the text is the service's word for it, `ok`.
    Accepted(String),
    /// The command was refused.
    Rejected(SyncCommandError),
}

impl SyncCommandResult {
    /// Whether the command was rejected.
    pub fn is_err(&self) -> (r: bool)
        ensures
            r == (self is Rejected),
    {
        match self {
            SyncCommandResult::Rejected(_) => true,
            SyncCommandResult::Accepted(_) => false,
        }
    }

    /// The service's message, where the command was rejected.
    pub fn error_message(&self) -> (r: Option<&str>)
        ensures
            match r {
                Some(m) => self is Rejected && m@ == self->Rejected_0.error@,
                None => self is Accepted,
            },
    {
        match self {
            SyncCommandResult::Rejected(e) => Some(e.error.as_str()),
            SyncCommandResult::Accepted(_) => None,
        }
    }
}

/// Whether a collaborator takes part in a project.
pub struct CollaboratorState {
    pub project_id: String,
    pub user_id: String,
    pub state: String,
    pub is_deleted: bool,
}

/// A reply of the sync endpoint. The outcomes and the id mapping are lists
/// in the order in which they are to be applied.
pub struct SyncResponse {
    pub full_sync: bool,
    pub sync_token: String,
    pub items: Option<Vec<Task>>,
    pub projects: Option<Vec<Project>>,
    pub sections: Option<Vec<Section>>,
    pub labels: Option<Vec<Label>>,
    pub notes: Option<Vec<Comment>>,
    pub collaborators: Option<Vec<Collaborator>>,
    pub workspaces: Option<Vec<Workspace>>,
    pub folders: Option<Vec<Folder>>,
    pub collaborator_states: Option<Vec<CollaboratorState>>,
    pub user: Option<UserInfo>,
    pub sync_status: Vec<(String, SyncCommandResult)>,
    pub temp_id_mapping: Vec<(String, String)>,
}

impl SyncResponse {
    /// A reply that carries nothing: no entity list, no outcome, the given
    /// token.
    pub fn empty(full_sync: bool, sync_token: String) -> (r: Self)
        ensures
            r.full_sync == full_sync,
            r.sync_token == sync_token,
            r.items is None,
            r.projects is None,
            r.sections is None,
            r.labels is None,
            r.notes is None,
            r.collaborators is None,
            r.workspaces is None,
            r.folders is None,
            r.collaborator_states is None,
            r.user is None,
            r.sync_status@.len() == 0,
            r.temp_id_mapping@.len() == 0,
    {
        SyncResponse {
            full_sync,
            sync_token,
            items: None,
            projects: None,
            sections: None,
            labels: None,
            notes: None,
            collaborators: None,
            workspaces: None,
            folders: None,
            collaborator_states: None,
            user: None,
            sync_status: Vec::new(),
            temp_id_mapping: Vec::new(),
        }
    }
}

/// The entity kinds that a full sync asks for.
pub open spec fn all_resource_types() -> Seq<Seq<char>> {
    seq![
        "items"@,
        "projects"@,
        "sections"@,
        "labels"@,
        "notes"@,
        "collaborators"@,
        "workspaces"@,
        "folders"@,
        "user"@,
    ]
}

/// The entity kinds that an incremental sync asks for.
pub open spec fn delta_resource_types() -> Seq<Seq<char>> {
    seq!["items"@, "projects"@, "sections"@, "labels"@, "notes"@]
}

/// The request of the first sync: everything, from the token `*`.
pub fn full_sync_request() -> (r: SyncRequest)
    ensures
        r.deep_view() == full_request_view(),
{
    let mut kinds: Vec<String> = Vec::new();
    kinds.push("items".to_owned());
    kinds.push("projects".to_owned());
    kinds.push("sections".to_owned());
    kinds.push("labels".to_owned());
    kinds.push("notes".to_owned());
    kinds.push("collaborators".to_owned());
    kinds.push("workspaces".to_owned());
    kinds.push("folders".to_owned());
    kinds.push("user".to_owned());
    assert(kinds.deep_view() =~= all_resource_types());
    let r = SyncRequest { sync_token: "*".to_owned(), resource_types: kinds, commands: Vec::new() };
    assert(r.commands.deep_view() =~= Seq::<SyncCommandView>::empty());
    r
}

/// The request of the first sync, as a value.
pub open spec fn full_request_view() -> SyncRequestView {
    SyncRequestView {
        sync_token: "*"@,
        resource_types: all_resource_types(),
        commands: Seq::empty(),
    }
}

/// The request of an incremental sync from `token`, as a value.
pub open spec fn delta_request_view(token: Seq<char>) -> SyncRequestView {
    SyncRequestView {
        sync_token: token,
        resource_types: delta_resource_types(),
        commands: Seq::empty(),
    }
}

/// The request that flushes `commands` with `token`, as a value.
pub open spec fn flush_request_view(token: Seq<char>, commands: Seq<SyncCommandView>) -> SyncRequestView {
    SyncRequestView { sync_token: token, resource_types: Seq::empty(), commands }
}

/// The request of an incremental sync from `token`.
pub fn delta_sync_request(token: &str) -> (r: SyncRequest)
    ensures
        r.deep_view() == delta_request_view(token@),
{
    let mut kinds: Vec<String> = Vec::new();
    kinds.push("items".to_owned());
    kinds.push("projects".to_owned());
    kinds.push("sections".to_owned());
    kinds.push("labels".to_owned());
    kinds.push("notes".to_owned());
    assert(kinds.deep_view() =~= delta_resource_types());
    let r = SyncRequest { sync_token: token.to_owned(), resource_types: kinds, commands: Vec::new() };
    assert(r.commands.deep_view() =~= Seq::<SyncCommandView>::empty());
    r
}

/// The request that flushes `commands`: no entity kind is asked for.
pub fn flush_request(token: &str, commands: Vec<SyncCommand>) -> (r: SyncRequest)
    ensures
        r.deep_view() == flush_request_view(token@, commands.deep_view()),
        r.commands == commands,
{
    let r = SyncRequest { sync_token: token.to_owned(), resource_types: Vec::new(), commands };
    assert(r.resource_types.deep_view() =~= Seq::<Seq<char>>::empty());
    r
}

} // verus!
