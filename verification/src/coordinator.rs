//! The coordinator: what each event does to the state, and which effects it
//! asks for.
//!
//! Background work never touches the state. It hands its result to the
//! coordinator as an event, and the coordinator applies the events one after
//! the other.

use crate::app::{App, Effect, EffectView};
use crate::commands::first_changed;
use crate::errors::{api_error_view, error_fields};
use crate::models::{Comment, Task};
use crate::replica::{clone_comments, row_id};
use crate::state::AppError;
use crate::sync::{
    delta_request_view, delta_sync_request, full_request_view, full_sync_request, SyncResponse,
};
use vstd::prelude::*;

verus! {

/// The result of background work, or a signal of the push channel.
pub enum BgResult {
    /// The reply to the first sync.
    InitialSync(SyncResponse),
    /// The first sync failed with this message.
    InitialSyncFailed(String),
    /// The reply to an incremental sync.
    SyncDelta(SyncResponse),
    /// An incremental sync failed with this message.
    SyncFailed(String),
    /// The reply to a batch of commands.
    CommandResults(SyncResponse),
    /// A batch of commands could not be sent.
    FlushFailed(String),
    /// The completed tasks of a project, or the message of the failure.
    CompletedTasks { project_id: String, records: Result<Vec<Task>, String> },
    WebSocketConnected,
    WebSocketEvent,
    WebSocketDisconnected,
    /// The comments of a task, or the message of the failure, with the
    /// number of the request.
    Comments { task_id: String, comments: Result<Vec<Comment>, String>, fetch_seq: u64 },
}

/// A count of comments as a task holds it: it stops at the largest `i32`.
pub open spec fn count_of(n: nat) -> i32 {
    if n > i32::MAX {
        i32::MAX
    } else {
        n as i32
    }
}

/// The change that sets the comment count of a task to `n`.
pub open spec fn counting(n: i32) -> spec_fn(Task) -> Task {
    |t: Task| Task { note_count: Some(n), ..t }
}

/// Sets the comment count of the first task of id `id`.
pub fn set_note_count(tasks: &mut Vec<Task>, id: &str, n: i32)
    ensures
        final(tasks)@ == first_changed(old(tasks)@, id@, counting(n)),
{
    let i = crate::merge::find_by_id(tasks, id);
    if i < tasks.len() {
        tasks[i].note_count = Some(n);
        assert(tasks@ =~= first_changed(old(tasks)@, id@, counting(n)));
    }
}

impl App {
    /// What asking for an incremental sync does: one request that reads from
    /// the current token is queued.
    pub open spec fn sync_requested(pre: App, post: App) -> bool {
        &&& post.outbox.deep_view() == pre.outbox.deep_view().push(
            EffectView::Sync(delta_request_view(pre.sync_token@)),
        )
        &&& post == (App { outbox: post.outbox, ..pre })
    }

    /// Asks for an incremental sync.
    pub fn spawn_incremental_sync(&mut self)
        ensures
            Self::sync_requested(*old(self), *final(self)),
    {
        let request = delta_sync_request(self.sync_token.as_str());
        self.emit(Effect::Sync(request));
    }

    /// What starting up does: the first sync is asked for.
    pub open spec fn started(pre: App, post: App) -> bool {
        &&& post.outbox.deep_view() == pre.outbox.deep_view().push(
            EffectView::FullSync(full_request_view()),
        )
        &&& post == (App { outbox: post.outbox, ..pre })
    }

    /// Starts up: asks for the first sync.
    pub fn start(&mut self)
        ensures
            Self::started(*old(self), *final(self)),
    {
        self.emit(Effect::FullSync(full_sync_request()));
    }

    /// Notes that the push channel is up, or down.
    fn set_connected(&mut self, up: bool)
        ensures
            *final(self) == (App { websocket_connected: up, ..*old(self) }),
    {
        self.websocket_connected = up;
    }

    /// Notes whether a sync is owed to a push event.
    fn set_pending_sync(&mut self, owed: bool)
        ensures
            *final(self) == (App { pending_ws_sync: owed, ..*old(self) }),
    {
        self.pending_ws_sync = owed;
    }

    /// What a push event does. While the user is idle the sync is put off:
    /// it is owed. Otherwise one incremental sync is asked for.
    pub open spec fn push_event_handled(pre: App, post: App) -> bool {
        if pre.idle() {
            post == (App { websocket_connected: true, pending_ws_sync: true, ..pre })
        } else {
            Self::sync_requested(App { websocket_connected: true, ..pre }, post)
        }
    }

    /// Handles a signal of the push channel that something changed.
    pub fn on_push_event(&mut self)
        ensures
            Self::push_event_handled(*old(self), *final(self)),
    {
        self.set_connected(true);
        if self.is_idle() {
            self.set_pending_sync(true);
        } else {
            self.spawn_incremental_sync();
        }
    }

    /// Notes the time of the last activity.
    fn touch(&mut self)
        ensures
            *final(self) == (App { last_activity: old(self).now_secs, ..*old(self) }),
    {
        self.last_activity = self.now_secs;
    }

    /// What a key press does to the sync schedule: the user is active again,
    /// and a sync that was owed from the idle time is asked for, once.
    pub open spec fn activity_noted(pre: App, post: App) -> bool {
        if pre.idle() && pre.pending_ws_sync {
            Self::sync_requested(
                App { last_activity: pre.now_secs, pending_ws_sync: false, ..pre },
                post,
            )
        } else {
            post == (App { last_activity: pre.now_secs, ..pre })
        }
    }

    /// Notes a key press.
    pub fn note_activity(&mut self)
        ensures
            Self::activity_noted(*old(self), *final(self)),
    {
        let was_idle = self.is_idle();
        self.touch();
        if was_idle && self.pending_ws_sync {
            self.set_pending_sync(false);
            self.spawn_incremental_sync();
        }
    }

    /// What a failure of `context` with the message `raw` does: the error is
    /// shown.
    pub open spec fn error_set(pre: App, post: App, raw: Seq<char>, context: Seq<char>) -> bool {
        &&& post.error.deep_view() == Some(api_error_view(context, raw, error_fields(raw)))
        &&& post == (App { error: post.error, ..pre })
    }

    /// Shows the error that `context` failed with the message `raw`.
    pub fn set_error(&mut self, raw: &str, context: &str)
        ensures
            Self::error_set(*old(self), *final(self), raw@, context@),
    {
        self.error = Some(AppError::from_api(raw, context));
    }

    /// What asking for the completed tasks of a project does.
    pub open spec fn completed_requested(pre: App, post: App, project: Seq<char>) -> bool {
        &&& post.outbox.deep_view() == pre.outbox.deep_view().push(
            EffectView::FetchCompleted { project_id: project },
        )
        &&& post == (App { outbox: post.outbox, ..pre })
    }

    /// Asks for the completed tasks of the project `project_id`.
    pub fn spawn_completed_tasks_fetch(&mut self, project_id: String)
        ensures
            Self::completed_requested(*old(self), *final(self), project_id@),
    {
        self.emit(Effect::FetchCompleted { project_id });
    }

    /// What the completed tasks of a project do when they arrive: they are
    /// kept for the project, in place of what was kept before.
    pub open spec fn completed_arrived(pre: App, post: App, project: Seq<char>, records: Vec<Task>) -> bool {
        &&& post.completed_cache@ == pre.completed_cache@.insert(project, records)
        &&& post == (App { completed_cache: post.completed_cache, ..pre })
    }

    /// Keeps the completed tasks of a project.
    pub fn store_completed(&mut self, project_id: String, records: Vec<Task>)
        ensures
            Self::completed_arrived(*old(self), *final(self), project_id@, records),
    {
        self.completed_cache.insert(project_id, records);
    }

    /// Notes how many comments the first task of id `id` has.
    fn put_note_count(&mut self, id: &str, n: i32)
        ensures
            final(self).tasks@ == first_changed(old(self).tasks@, id@, counting(n)),
            *final(self) == (App { tasks: final(self).tasks, ..*old(self) }),
    {
        set_note_count(&mut self.tasks, id, n);
    }

    /// Keeps the comments `list` for the task `id`.
    fn put_bucket(&mut self, id: String, list: Vec<Comment>)
        ensures
            final(self).comments_by_task@ == old(self).comments_by_task@.insert(id@, list),
            *final(self) == (App { comments_by_task: final(self).comments_by_task, ..*old(self) }),
    {
        self.comments_by_task.insert(id, list);
    }

    /// Shows `list` in the open detail, where there is one.
    fn show_comments(&mut self, list: Option<Vec<Comment>>)
        ensures
            final(self).comments == (match list {
                Some(l) => l,
                None => old(self).comments,
            }),
            *final(self) == (App { comments: final(self).comments, ..*old(self) }),
    {
        match list {
            Some(l) => {
                self.comments = l;
            },
            None => {},
        }
    }

    /// What the comments of a task do when they arrive: the task's comment
    /// count follows them, they are kept for the task, and they are shown
    /// where the detail of that task is open and no later request for
    /// comments was made since.
    pub open spec fn comments_arrived(
        pre: App,
        post: App,
        task: Seq<char>,
        list: Vec<Comment>,
        fetch_seq: u64,
    ) -> bool {
        &&& post.tasks@ == first_changed(pre.tasks@, task, counting(count_of(list@.len())))
        &&& post.comments_by_task@ == pre.comments_by_task@.insert(task, list)
        &&& post.comments.deep_view() == (if row_id(pre.rows(), pre.selected_task) == Some(task)
            && fetch_seq == pre.comments_fetch_seq {
            list.deep_view()
        } else {
            pre.comments.deep_view()
        })
        &&& post == (App {
            tasks: post.tasks,
            comments_by_task: post.comments_by_task,
            comments: post.comments,
            ..pre
        })
    }

    /// Notes the comment count `n` for the task `task_id`, shows `copy` in
    /// the open detail where there is one, and keeps `list` for the task.
    fn file_comments(&mut self, task_id: String, list: Vec<Comment>, copy: Option<Vec<Comment>>, n: i32)
        ensures
            final(self).tasks@ == first_changed(old(self).tasks@, task_id@, counting(n)),
            final(self).comments_by_task@ == old(self).comments_by_task@.insert(task_id@, list),
            final(self).comments == (match copy {
                Some(l) => l,
                None => old(self).comments,
            }),
            *final(self) == (App {
                tasks: final(self).tasks,
                comments_by_task: final(self).comments_by_task,
                comments: final(self).comments,
                ..*old(self)
            }),
    {
        self.put_note_count(task_id.as_str(), n);
        self.show_comments(copy);
        self.put_bucket(task_id, list);
    }

    /// Takes in the comments of a task.
    pub fn store_comments(&mut self, task_id: String, list: Vec<Comment>, fetch_seq: u64)
        ensures
            Self::comments_arrived(*old(self), *final(self), task_id@, list, fetch_seq),
    {
        let shown = self.detail_is_of(task_id.as_str()) && fetch_seq == self.comments_fetch_seq;
        let n: i32 = if list.len() > 0x7fff_ffff {
            i32::MAX
        } else {
            list.len() as i32
        };
        let copy = if shown {
            Some(clone_comments(&list))
        } else {
            None
        };
        self.file_comments(task_id, list, copy, n);
    }

    /// What the reply to the first sync does: it is applied, and the push
    /// channel is opened where the reply brought its address.
    pub open spec fn initial_sync_applied(pre: App, post: App, resp: SyncResponse) -> bool {
        exists|mid: App|
            {
                &&& #[trigger] Self::sync_applied(pre, mid, resp)
                &&& match mid.websocket_url {
                    Some(url) => {
                        &&& post.outbox.deep_view() == mid.outbox.deep_view().push(
                            EffectView::StartPush(url@),
                        )
                        &&& post == (App { outbox: post.outbox, ..mid })
                    },
                    None => post == mid,
                }
            }
    }

    /// Applies the reply to the first sync.
    pub fn apply_initial_sync(&mut self, resp: SyncResponse)
        ensures
            Self::initial_sync_applied(*old(self), *final(self), resp),
    {
        self.apply_sync_delta(resp);
        let ghost mid = *self;
        let url = crate::models::clone_opt_text(&self.websocket_url);
        match url {
            Some(u) => {
                self.emit(Effect::StartPush(u));
            },
            None => {},
        }
        assert(Self::sync_applied(*old(self), mid, resp));
    }

    /// What an event does to the state.
    pub open spec fn handled(pre: App, post: App, event: BgResult) -> bool {
        match event {
            BgResult::InitialSync(resp) => Self::initial_sync_applied(pre, post, resp),
            BgResult::InitialSyncFailed(raw) => Self::error_set(pre, post, raw@, "Initial sync"@),
            BgResult::SyncDelta(resp) => Self::sync_applied(pre, post, resp),
            BgResult::SyncFailed(_) => post == pre,
            BgResult::CommandResults(resp) => Self::reconciled(pre, post, resp),
            BgResult::FlushFailed(_) => post == pre,
            BgResult::CompletedTasks { project_id, records } => match records {
                Ok(list) => Self::completed_arrived(pre, post, project_id@, list),
                Err(raw) => Self::error_set(pre, post, raw@, "Load completed tasks"@),
            },
            BgResult::WebSocketConnected => post == (App { websocket_connected: true, ..pre }),
            BgResult::WebSocketEvent => Self::push_event_handled(pre, post),
            BgResult::WebSocketDisconnected => post == (App { websocket_connected: false, ..pre }),
            BgResult::Comments { task_id, comments, fetch_seq } => match comments {
                Ok(list) => Self::comments_arrived(pre, post, task_id@, list, fetch_seq),
                Err(raw) => Self::error_set(pre, post, raw@, "Load comments"@),
            },
        }
    }

    /// Applies one event. A sync or a flush that failed leaves the state as
    /// it is: the replica keeps its token, and the next sync sets right what
    /// the service has seen.
    #[verifier::rlimit(40)]
    pub fn handle(&mut self, event: BgResult)
        ensures
            Self::handled(*old(self), *final(self), event),
    {
        match event {
            BgResult::InitialSync(resp) => {
                self.apply_initial_sync(resp);
            },
            BgResult::InitialSyncFailed(raw) => {
                self.set_error(raw.as_str(), "Initial sync");
            },
            BgResult::SyncDelta(resp) => {
                self.apply_sync_delta(resp);
            },
            BgResult::SyncFailed(_) => {},
            BgResult::CommandResults(resp) => {
                self.apply_command_results(resp);
            },
            BgResult::FlushFailed(_) => {},
            BgResult::CompletedTasks { project_id, records } => match records {
                Ok(list) => {
                    self.store_completed(project_id, list);
                },
                Err(raw) => {
                    self.set_error(raw.as_str(), "Load completed tasks");
                },
            },
            BgResult::WebSocketConnected => {
                self.set_connected(true);
            },
            BgResult::WebSocketEvent => {
                self.on_push_event();
            },
            BgResult::WebSocketDisconnected => {
                self.set_connected(false);
            },
            BgResult::Comments { task_id, comments, fetch_seq } => match comments {
                Ok(list) => {
                    self.store_comments(task_id, list, fetch_seq);
                },
                Err(raw) => {
                    self.set_error(raw.as_str(), "Load comments");
                },
            },
        }
    }

    /// Applies the events `events`, the oldest first.
    pub fn drain_bg_results(&mut self, events: Vec<BgResult>)
        ensures
            Self::all_handled(*old(self), *final(self), events@),
    {
        let ghost mut states: Seq<App> = seq![*self];
        let ghost all = events@;
        for e in it: events
            invariant
                it.seq() == all,
                states.len() == it.index() + 1,
                states[0] == *old(self),
                states.last() == *self,
                forall|j: int|
                    0 <= j < it.index() ==> Self::handled(states[j], #[trigger] states[j + 1], all[j]),
        {
            let ghost before = states;
            self.handle(e);
            proof {
                states = states.push(*self);
                assert forall|j: int| 0 <= j < it.index() + 1 implies Self::handled(
                    states[j],
                    #[trigger] states[j + 1],
                    all[j],
                ) by {
                    if j < it.index() {
                        assert(states[j] == before[j]);
                        assert(states[j + 1] == before[j + 1]);
                    }
                }
            }
        }
        assert(Self::events_handled(states, all));
    }

    /// Whether `states` are the states that the events `events` lead
    /// through, one after the other.
    pub open spec fn events_handled(states: Seq<App>, events: Seq<BgResult>) -> bool {
        &&& states.len() == events.len() + 1
        &&& forall|i: int|
            0 <= i < events.len() ==> Self::handled(states[i], #[trigger] states[i + 1], events[i])
    }

    /// What a run of events does: each is applied to the state that the one
    /// before it left.
    pub open spec fn all_handled(pre: App, post: App, events: Seq<BgResult>) -> bool {
        exists|states: Seq<App>|
            {
                &&& #[trigger] Self::events_handled(states, events)
                &&& states[0] == pre
                &&& states.last() == post
            }
    }
}

} // verus!
