//! The state that the coordinator owns: the replica, the interface state,
//! the pending commands, and the effects that wait to be carried out.

use crate::dates::{offset_days_str, today_str, epoch_date_text, MAX_CLOCK_SECS};
use crate::models::{Comment, Folder, Label, Project, Section, Task, Workspace};
use crate::state::{
    AppError, DockItem, InputMode, OptimisticOp, Pane, SortMode, TaskFilter, TaskForm, UndoView,
    UserRecord, VimState,
};
use crate::strmap::{StrMap, StrSet};
use crate::sync::{SyncCommand, SyncRequest, SyncRequestView};
use vstd::prelude::*;

verus! {

/// Something that the coordinator asks its surroundings to do. Effects are
/// queued in the order in which they were decided.
pub enum Effect {
    /// Run the first sync, which asks for everything, and hand back the
    /// reply.
    FullSync(SyncRequest),
    /// Run an incremental sync and hand back the reply.
    Sync(SyncRequest),
    /// Send a batch of commands and hand back the reply.
    Flush(SyncRequest),
    /// Fetch the comments of a task; the reply carries `fetch_seq` back.
    FetchComments { task_id: String, fetch_seq: u64 },
    /// Fetch the completed tasks of a project.
    FetchCompleted { project_id: String },
    /// Write the sync token to disk.
    SaveSyncToken(String),
    /// Write the interface settings to disk.
    SaveUiSettings { theme: String, idle_timeout_secs: u64 },
    /// Open the push channel at this address.
    StartPush(String),
}

/// What an [`Effect`] holds.
pub enum EffectView {
    FullSync(SyncRequestView),
    Sync(SyncRequestView),
    Flush(SyncRequestView),
    FetchComments { task_id: Seq<char>, fetch_seq: u64 },
    FetchCompleted { project_id: Seq<char> },
    SaveSyncToken(Seq<char>),
    SaveUiSettings { theme: Seq<char>, idle_timeout_secs: u64 },
    StartPush(Seq<char>),
}

impl DeepView for Effect {
    type V = EffectView;

    open spec fn deep_view(&self) -> EffectView {
        match self {
            Effect::FullSync(r) => EffectView::FullSync(r.deep_view()),
            Effect::Sync(r) => EffectView::Sync(r.deep_view()),
            Effect::Flush(r) => EffectView::Flush(r.deep_view()),
            Effect::FetchComments { task_id, fetch_seq } => EffectView::FetchComments {
                task_id: task_id@,
                fetch_seq: *fetch_seq,
            },
            Effect::FetchCompleted { project_id } => EffectView::FetchCompleted {
                project_id: project_id@,
            },
            Effect::SaveSyncToken(t) => EffectView::SaveSyncToken(t@),
            Effect::SaveUiSettings { theme, idle_timeout_secs } => EffectView::SaveUiSettings {
                theme: theme@,
                idle_timeout_secs: *idle_timeout_secs,
            },
            Effect::StartPush(u) => EffectView::StartPush(u@),
        }
    }
}

/// The kind of a command, which names the action in error messages.
#[derive(Debug, Clone, Copy, PartialEq, Eq, Structural)]
pub enum CommandKind {
    TaskAdd,
    TaskUpdate,
    TaskComplete,
    TaskReopen,
    CommentAdd,
    ProjectUpdate,
}

/// A command that waits for its outcome: its kind and what undoes it.
pub struct PendingOp {
    pub kind: CommandKind,
    pub undo: OptimisticOp,
}

/// What a [`PendingOp`] holds.
pub struct PendingView {
    pub kind: CommandKind,
    pub undo: UndoView,
}

impl DeepView for PendingOp {
    type V = PendingView;

    open spec fn deep_view(&self) -> PendingView {
        PendingView { kind: self.kind, undo: self.undo.deep_view() }
    }
}

/// The records of a map of pending commands.
pub open spec fn pending_views(m: Map<Seq<char>, PendingOp>) -> Map<Seq<char>, PendingView> {
    Map::new(|k: Seq<char>| m.contains_key(k), |k: Seq<char>| m[k].deep_view())
}

/// The coordinator's state.
pub struct App {
    /// The projects as the replica holds them, in the order in which they
    /// came in.
    pub project_store: Vec<Project>,
    /// The projects in display order: the projects of the store, put in
    /// order after every change.
    pub projects: Vec<Project>,
    pub workspaces: Vec<Workspace>,
    pub folders: Vec<Folder>,
    pub tasks: Vec<Task>,
    pub labels: Vec<Label>,
    pub sections: Vec<Section>,
    pub comments_by_task: StrMap<Vec<Comment>>,
    pub completed_cache: StrMap<Vec<Task>>,
    pub user_names: StrMap<UserRecord>,
    pub current_user_id: Option<String>,
    pub current_user_name: Option<String>,
    pub websocket_url: Option<String>,
    pub sync_token: String,
    /// Clock reading at the last sync that was applied.
    pub last_sync_at: Option<u64>,
    pub selected_project: usize,
    pub selected_task: usize,
    pub active_pane: Pane,
    pub running: bool,
    pub error: Option<AppError>,
    pub input_mode: InputMode,
    pub show_settings: bool,
    pub show_help: bool,
    pub show_input: bool,
    pub input_buffer: String,
    pub settings_selection: usize,
    pub collapsed: StrSet,
    pub detail_scroll: u16,
    pub sort_mode: SortMode,
    /// The comments of the task whose detail is open.
    pub comments: Vec<Comment>,
    pub comment_input: bool,
    pub detail_field: usize,
    pub show_priority_picker: bool,
    pub priority_selection: u8,
    pub editing_field: bool,
    pub task_form: Option<TaskForm>,
    pub task_filter: TaskFilter,
    pub dock_focus: Option<usize>,
    pub dock_filter: Option<DockItem>,
    pub theme_names: Vec<String>,
    pub theme_idx: usize,
    pub show_theme_picker: bool,
    pub theme_selection: usize,
    pub websocket_connected: bool,
    pub idle_timeout_secs: u64,
    pub idle_forcer: bool,
    /// In ephemeral mode nothing is written to disk.
    pub ephemeral: bool,
    pub collapsed_folders: StrSet,
    pub folder_cursor: Option<usize>,
    /// The clock, in seconds since the epoch, as it was last read, and the
    /// nanoseconds within that second.
    pub now_secs: u64,
    pub now_nanos: u32,
    /// Today's date and the date six days later.
    pub today: String,
    pub week_end: String,
    /// Clock reading at the last key press.
    pub last_activity: u64,
    /// Whether a push event came in while the user was idle.
    pub pending_ws_sync: bool,
    /// The number of the latest request for comments.
    pub comments_fetch_seq: u64,
    pub pending_commands: Vec<SyncCommand>,
    /// The commands that wait for their outcome, by uuid.
    pub temp_id_pending: StrMap<PendingOp>,
    /// The number that the next uuid or temporary id is made of.
    pub command_counter: u64,
    /// Whether the key `z` was pressed and waits for its second key.
    pub pending_z: bool,
    /// The effects that wait to be carried out.
    pub outbox: Vec<Effect>,
}

/// Whether the user counts as idle: an idle timeout is set and at least that
/// long has passed since the last activity.
pub open spec fn idle_at(timeout: u64, last_activity: u64, now: u64) -> bool {
    timeout > 0 && now >= last_activity && now - last_activity >= timeout
}

/// Today's date and the date six days on, at the clock reading `now_secs`.
pub fn week_of(now_secs: u64) -> (r: (String, String))
    requires
        now_secs <= MAX_CLOCK_SECS,
    ensures
        r.0@ == epoch_date_text(now_secs as int),
        r.1@ == epoch_date_text(now_secs as int + 6 * 86400),
{
    (today_str(now_secs), offset_days_str(now_secs, 6))
}

impl App {
    /// A fresh state: an empty replica that reads from `sync_token`, the
    /// project pane in focus, the modal editor in normal mode, active tasks
    /// in default order, and the clock at `now_secs`.
    pub fn new(
        theme_names: Vec<String>,
        theme_idx: usize,
        sync_token: String,
        idle_timeout_secs: u64,
        idle_forcer: bool,
        ephemeral: bool,
        now_secs: u64,
    ) -> (app: Self)
        requires
            now_secs <= MAX_CLOCK_SECS,
        ensures
            app.project_store@.len() == 0,
            app.projects@.len() == 0,
            app.workspaces@.len() == 0,
            app.folders@.len() == 0,
            app.tasks@.len() == 0,
            app.labels@.len() == 0,
            app.sections@.len() == 0,
            app.comments@.len() == 0,
            app.comments_by_task@ == Map::<Seq<char>, Vec<Comment>>::empty(),
            app.completed_cache@ == Map::<Seq<char>, Vec<Task>>::empty(),
            app.user_names@ == Map::<Seq<char>, UserRecord>::empty(),
            app.temp_id_pending@ == Map::<Seq<char>, PendingOp>::empty(),
            app.collapsed@ == Set::<Seq<char>>::empty(),
            app.collapsed_folders@ == Set::<Seq<char>>::empty(),
            app.sync_token == sync_token,
            app.last_sync_at is None,
            app.current_user_id is None,
            app.websocket_url is None,
            app.selected_project == 0,
            app.selected_task == 0,
            app.active_pane == Pane::Projects,
            app.running,
            app.error is None,
            app.input_mode == InputMode::Vim(VimState::Normal),
            app.sort_mode == SortMode::Default,
            app.task_filter == TaskFilter::Active,
            app.dock_filter is None,
            app.task_form is None,
            app.theme_names == theme_names,
            app.theme_idx == theme_idx,
            app.theme_selection == theme_idx,
            app.idle_timeout_secs == idle_timeout_secs,
            app.idle_forcer == idle_forcer,
            app.ephemeral == ephemeral,
            app.now_secs == now_secs,
            app.last_activity == now_secs,
            app.today@ == epoch_date_text(now_secs as int),
            app.week_end@ == epoch_date_text(now_secs as int + 6 * 86400),
            !app.pending_ws_sync,
            app.comments_fetch_seq == 0,
            app.pending_commands@.len() == 0,
            app.command_counter == 0,
            app.outbox@.len() == 0,
            app.current_user_name is None,
            !app.show_settings,
            !app.show_help,
            !app.show_input,
            app.input_buffer@.len() == 0,
            app.settings_selection == 0,
            app.detail_scroll == 0,
            !app.comment_input,
            app.detail_field == 0,
            !app.show_priority_picker,
            app.priority_selection == 1,
            !app.editing_field,
            app.dock_focus is None,
            !app.show_theme_picker,
            !app.websocket_connected,
            app.folder_cursor is None,
            app.now_nanos == 0,
            !app.pending_z,
    {
        App {
            project_store: Vec::new(),
            projects: Vec::new(),
            workspaces: Vec::new(),
            folders: Vec::new(),
            tasks: Vec::new(),
            labels: Vec::new(),
            sections: Vec::new(),
            comments_by_task: StrMap::new(),
            completed_cache: StrMap::new(),
            user_names: StrMap::new(),
            current_user_id: None,
            current_user_name: None,
            websocket_url: None,
            sync_token,
            last_sync_at: None,
            selected_project: 0,
            selected_task: 0,
            active_pane: Pane::Projects,
            running: true,
            error: None,
            input_mode: InputMode::Vim(VimState::Normal),
            show_settings: false,
            show_help: false,
            show_input: false,
            input_buffer: String::new(),
            settings_selection: 0,
            collapsed: StrSet::new(),
            detail_scroll: 0,
            sort_mode: SortMode::Default,
            comments: Vec::new(),
            comment_input: false,
            detail_field: 0,
            show_priority_picker: false,
            priority_selection: 1,
            editing_field: false,
            task_form: None,
            task_filter: TaskFilter::Active,
            dock_focus: None,
            dock_filter: None,
            theme_names,
            theme_idx,
            show_theme_picker: false,
            theme_selection: theme_idx,
            websocket_connected: false,
            idle_timeout_secs,
            idle_forcer,
            ephemeral,
            collapsed_folders: StrSet::new(),
            folder_cursor: None,
            now_secs,
            now_nanos: 0,
            today: today_str(now_secs),
            week_end: offset_days_str(now_secs, 6),
            last_activity: now_secs,
            pending_ws_sync: false,
            comments_fetch_seq: 0,
            pending_commands: Vec::new(),
            temp_id_pending: StrMap::new(),
            command_counter: 0,
            pending_z: false,
            outbox: Vec::new(),
        }
    }

    /// Sets the clock. Today's date and the end of the week follow the clock
    /// as long as its year has four digits; a later reading leaves the two
    /// dates as they were.
    pub fn set_clock(&mut self, now_secs: u64)
        ensures
            final(self).now_secs == now_secs,
            now_secs <= MAX_CLOCK_SECS ==> final(self).today@ == epoch_date_text(now_secs as int)
                && final(self).week_end@ == epoch_date_text(now_secs as int + 6 * 86400),
            now_secs > MAX_CLOCK_SECS ==> final(self).today == old(self).today,
            now_secs > MAX_CLOCK_SECS ==> final(self).week_end == old(self).week_end,
            *final(self) == (App {
                now_secs: final(self).now_secs,
                today: final(self).today,
                week_end: final(self).week_end,
                ..*old(self)
            }),
    {
        if now_secs <= MAX_CLOCK_SECS {
            let (today, week_end) = week_of(now_secs);
            self.put_clock(now_secs, today, week_end);
        } else {
            self.now_secs = now_secs;
        }
    }

    /// Sets the clock and the two dates that follow it.
    fn put_clock(&mut self, now_secs: u64, today: String, week_end: String)
        ensures
            *final(self) == (App { now_secs, today, week_end, ..*old(self) }),
    {
        self.now_secs = now_secs;
        self.today = today;
        self.week_end = week_end;
    }

    /// Whether the user is idle at the current clock reading.
    pub open spec fn idle(&self) -> bool {
        idle_at(self.idle_timeout_secs, self.last_activity, self.now_secs)
    }

    /// Whether the user is idle.
    pub fn is_idle(&self) -> (r: bool)
        ensures
            r == self.idle(),
    {
        self.idle_timeout_secs > 0 && self.now_secs >= self.last_activity && self.now_secs
            - self.last_activity >= self.idle_timeout_secs
    }

    /// Queues the effect `e`.
    pub fn emit(&mut self, e: Effect)
        ensures
            final(self).outbox.deep_view() == old(self).outbox.deep_view().push(e.deep_view()),
            final(self).outbox@ == old(self).outbox@.push(e),
            *final(self) == (App { outbox: final(self).outbox, ..*old(self) }),
    {
        self.outbox.push(e);
        assert(self.outbox.deep_view() =~= old(self).outbox.deep_view().push(e.deep_view()));
    }

    /// Takes the queued effects out, the oldest first.
    pub fn take_effects(&mut self) -> (r: Vec<Effect>)
        ensures
            r == old(self).outbox,
            final(self).outbox@.len() == 0,
            *final(self) == (App { outbox: final(self).outbox, ..*old(self) }),
    {
        let mut out: Vec<Effect> = Vec::new();
        core::mem::swap(&mut out, &mut self.outbox);
        out
    }
}

} // verus!
