//! The command engine: optimistic changes, their reversal, and the batch
//! that carries the commands to the service.
//!
//! Every command gets a uuid made of the clock and a counter. The local
//! change is made at once; what undoes it is kept under the uuid until the
//! service has answered.

use crate::app::{
    pending_views, App, CommandKind, Effect, EffectView, PendingOp, PendingView,
};
use crate::merge::{find_by_id, first_index, remove_by_id, without_key};
use crate::models::{Comment, CommentView, Entity, Project, Task, TaskView};
use crate::projects::{project_order, selection_after};
use crate::state::{OptimisticOp, UndoView};
use crate::sync::{
    flush_request, flush_request_view, CommandArgs, CommandArgsView, SyncCommand, SyncCommandView,
};
use crate::text::{digits, render_uint, zero_pad};
use vstd::prelude::*;

verus! {

/// The uuid made at `nanos` nanoseconds with the counter at `counter`: both
/// in hexadecimal, padded to 8 and 16 digits, and a fixed tail.
pub open spec fn uuid_text(nanos: u32, counter: u64) -> Seq<char> {
    zero_pad(digits(nanos as nat, 16), 8) + seq!['-'] + zero_pad(digits(counter as nat, 16), 16)
        + "-4000-8000-000000000000"@
}

/// The temporary id made with the counter at `counter`.
pub open spec fn temp_id_text(counter: u64) -> Seq<char> {
    "tmp_"@ + digits(counter as nat, 10)
}

/// The counter after one more id.
pub open spec fn counter_after(counter: u64) -> u64 {
    if counter == u64::MAX {
        0
    } else {
        (counter + 1) as u64
    }
}

/// A uuid for a command.
pub fn new_uuid(nanos: u32, counter: u64) -> (r: String)
    ensures
        r@ == uuid_text(nanos, counter),
{
    let mut out = render_uint(nanos as u64, 16, 8);
    out.push('-');
    let c = render_uint(counter, 16, 16);
    out.append(c.as_str());
    out.append("-4000-8000-000000000000");
    assert(out@ =~= uuid_text(nanos, counter));
    out
}

/// A temporary id for an entity that the service has not seen yet.
pub fn new_temp_id(counter: u64) -> (r: String)
    ensures
        r@ == temp_id_text(counter),
{
    let mut out = "tmp_".to_owned();
    let c = render_uint(counter, 10, 0);
    out.append(c.as_str());
    assert(zero_pad(digits(counter as nat, 10), 0) == digits(counter as nat, 10));
    out
}

/// The wire name of a command kind. Completing a recurring task is
/// `item_complete`, which moves the series on; `item_close` ends a task.
pub open spec fn wire_name(kind: CommandKind, recurring: bool) -> Seq<char> {
    match kind {
        CommandKind::TaskAdd => "item_add"@,
        CommandKind::TaskUpdate => "item_update"@,
        CommandKind::TaskComplete => if recurring {
            "item_complete"@
        } else {
            "item_close"@
        },
        CommandKind::TaskReopen => "item_reopen"@,
        CommandKind::CommentAdd => "note_add"@,
        CommandKind::ProjectUpdate => "project_update"@,
    }
}

/// The wire name of a command kind.
pub fn wire_name_of(kind: CommandKind, recurring: bool) -> (r: &'static str)
    ensures
        r@ == wire_name(kind, recurring),
{
    match kind {
        CommandKind::TaskAdd => "item_add",
        CommandKind::TaskUpdate => "item_update",
        CommandKind::TaskComplete => if recurring {
            "item_complete"
        } else {
            "item_close"
        },
        CommandKind::TaskReopen => "item_reopen",
        CommandKind::CommentAdd => "note_add",
        CommandKind::ProjectUpdate => "project_update",
    }
}

/// The pending commands after the command `uuid` was recorded with what
/// undoes it; a command with nothing to undo leaves no record.
pub open spec fn recorded(
    pending: Map<Seq<char>, PendingView>,
    uuid: Seq<char>,
    kind: CommandKind,
    undo: Option<UndoView>,
) -> Map<Seq<char>, PendingView> {
    match undo {
        Some(u) => pending.insert(uuid, PendingView { kind, undo: u }),
        None => pending,
    }
}

/// The records of the pending commands after the command `uuid` was
/// recorded with `undo`.
pub open spec fn kept(
    pending: Map<Seq<char>, PendingOp>,
    uuid: Seq<char>,
    kind: CommandKind,
    undo: Option<OptimisticOp>,
) -> Map<Seq<char>, PendingOp> {
    match undo {
        Some(u) => pending.insert(uuid, PendingOp { kind, undo: u }),
        None => pending,
    }
}

/// The command that is sent.
pub open spec fn command_view(
    name: Seq<char>,
    temp_id: Option<Seq<char>>,
    uuid: Seq<char>,
    args: CommandArgsView,
) -> SyncCommandView {
    SyncCommandView { kind: name, temp_id, uuid, args }
}

/// Keeps what undoes the command `uuid`, where there is anything to undo.
fn keep_undo(
    pending: &mut crate::strmap::StrMap<PendingOp>,
    uuid: String,
    kind: CommandKind,
    undo: Option<OptimisticOp>,
)
    ensures
        pending_views(final(pending)@) == recorded(
            pending_views(old(pending)@),
            uuid@,
            kind,
            undo.deep_view(),
        ),
        final(pending)@ == kept(old(pending)@, uuid@, kind, undo),
{
    match undo {
        Some(u) => {
            pending.insert(uuid, PendingOp { kind, undo: u });
            assert(pending_views(pending@) =~= recorded(
                pending_views(old(pending)@),
                uuid@,
                kind,
                undo.deep_view(),
            ));
        },
        None => {},
    }
}

impl App {
    /// What issuing a command does to the state `pre`: the uuid is made of
    /// the counter reading `counter`, which then moves on; what undoes the
    /// command is kept under the uuid; and one batch is queued that holds the
    /// commands that waited and then this one.
    pub open spec fn issued(
        pre: App,
        post: App,
        name: Seq<char>,
        temp_id: Option<Seq<char>>,
        args: CommandArgsView,
        kind: CommandKind,
        undo: Option<UndoView>,
        counter: u64,
    ) -> bool {
        let uuid = uuid_text(pre.now_nanos, counter);
        &&& post.command_counter == counter_after(counter)
        &&& pending_views(post.temp_id_pending@) == recorded(
            pending_views(pre.temp_id_pending@),
            uuid,
            kind,
            undo,
        )
        &&& post.pending_commands@.len() == 0
        &&& post.outbox.deep_view() == pre.outbox.deep_view().push(
            EffectView::Flush(
                flush_request_view(
                    pre.sync_token@,
                    pre.pending_commands.deep_view().push(command_view(name, temp_id, uuid, args)),
                ),
            ),
        )
    }

    /// Takes the next number of the id counter.
    pub fn next_counter(&mut self) -> (c: u64)
        ensures
            c == old(self).command_counter,
            final(self).command_counter == counter_after(old(self).command_counter),
            *final(self) == (App { command_counter: final(self).command_counter, ..*old(self) }),
    {
        let c = self.command_counter;
        self.command_counter = if c == u64::MAX {
            0
        } else {
            c + 1
        };
        c
    }

    /// Sends the waiting commands, if there are any, as one batch that reads
    /// from the current token.
    pub fn flush_commands(&mut self)
        ensures
            final(self).pending_commands@.len() == 0,
            final(self).outbox.deep_view() == (if old(self).pending_commands@.len() == 0 {
                old(self).outbox.deep_view()
            } else {
                old(self).outbox.deep_view().push(
                    EffectView::Flush(
                        flush_request_view(
                            old(self).sync_token@,
                            old(self).pending_commands.deep_view(),
                        ),
                    ),
                )
            }),
            *final(self) == (App {
                pending_commands: final(self).pending_commands,
                outbox: final(self).outbox,
                ..*old(self)
            }),
    {
        if self.pending_commands.len() == 0 {
            return ;
        }
        let mut commands: Vec<SyncCommand> = Vec::new();
        core::mem::swap(&mut commands, &mut self.pending_commands);
        let request = flush_request(self.sync_token.as_str(), commands);
        self.emit(Effect::Flush(request));
    }

    /// Keeps what undoes the command `uuid`.
    fn record(&mut self, uuid: String, kind: CommandKind, undo: Option<OptimisticOp>)
        ensures
            pending_views(final(self).temp_id_pending@) == recorded(
                pending_views(old(self).temp_id_pending@),
                uuid@,
                kind,
                undo.deep_view(),
            ),
            final(self).temp_id_pending@ == kept(old(self).temp_id_pending@, uuid@, kind, undo),
            *final(self) == (App { temp_id_pending: final(self).temp_id_pending, ..*old(self) }),
    {
        keep_undo(&mut self.temp_id_pending, uuid, kind, undo);
    }

    /// Puts a command at the end of the waiting commands.
    fn enqueue(&mut self, command: SyncCommand)
        ensures
            final(self).pending_commands.deep_view() == old(self).pending_commands.deep_view().push(
                command.deep_view(),
            ),
            final(self).pending_commands@.len() == old(self).pending_commands@.len() + 1,
            *final(self) == (App { pending_commands: final(self).pending_commands, ..*old(self) }),
    {
        self.pending_commands.push(command);
        assert(self.pending_commands.deep_view() =~= old(self).pending_commands.deep_view().push(
            command.deep_view(),
        ));
    }

    /// Issues a command: gives it a uuid, keeps what undoes it, and sends it
    /// with the commands that wait.
    pub fn issue(
        &mut self,
        name: &str,
        temp_id: Option<String>,
        args: CommandArgs,
        kind: CommandKind,
        undo: Option<OptimisticOp>,
    )
        ensures
            Self::issued(
                *old(self),
                *final(self),
                name@,
                temp_id.deep_view(),
                args.deep_view(),
                kind,
                undo.deep_view(),
                old(self).command_counter,
            ),
            final(self).temp_id_pending@ == kept(
                old(self).temp_id_pending@,
                uuid_text(old(self).now_nanos, old(self).command_counter),
                kind,
                undo,
            ),
            *final(self) == (App {
                command_counter: final(self).command_counter,
                temp_id_pending: final(self).temp_id_pending,
                pending_commands: final(self).pending_commands,
                outbox: final(self).outbox,
                ..*old(self)
            }),
    {
        let c = self.next_counter();
        let uuid = new_uuid(self.now_nanos, c);
        self.record(uuid.clone(), kind, undo);
        self.enqueue(SyncCommand { kind: name.to_owned(), temp_id, uuid, args });
        self.flush_commands();
    }
}

/// The change that sets the completion flag of a task to `v`.
pub open spec fn checking(v: bool) -> spec_fn(Task) -> Task {
    |t: Task| Task { checked: v, ..t }
}

/// The change that sets the priority of a task to `p`.
pub open spec fn prioritizing(p: u8) -> spec_fn(Task) -> Task {
    |t: Task| Task { priority: p, ..t }
}

/// The change that sets the content of a task to `s`.
pub open spec fn retitling(s: String) -> spec_fn(Task) -> Task {
    |t: Task| Task { content: s, ..t }
}

/// The change that sets the description of a task to `s`.
pub open spec fn describing(s: String) -> spec_fn(Task) -> Task {
    |t: Task| Task { description: s, ..t }
}

/// The change that sets the favorite flag of a project to `v`.
pub open spec fn starring(v: bool) -> spec_fn(Project) -> Project {
    |p: Project| Project { is_favorite: v, ..p }
}

/// The change that puts `x` in the place of an entity.
pub open spec fn replacing<T>(x: T) -> spec_fn(T) -> T {
    |t: T| x
}

/// The collection with `change` made to the first entity of id `id`; the
/// collection as it is where none has the id.
pub open spec fn first_changed<T: Entity>(s: Seq<T>, id: Seq<char>, change: spec_fn(T) -> T) -> Seq<
    T,
> {
    let i = first_index(s, id);
    if i < s.len() {
        s.update(i, change(s[i]))
    } else {
        s
    }
}

/// Sets the completion flag of the first task of id `id`.
pub fn set_checked(tasks: &mut Vec<Task>, id: &str, v: bool)
    ensures
        final(tasks)@ == first_changed(old(tasks)@, id@, checking(v)),
{
    let i = find_by_id(tasks, id);
    if i < tasks.len() {
        tasks[i].checked = v;
        assert(tasks@ =~= first_changed(old(tasks)@, id@, checking(v)));
    }
}

/// The view of the first task of id `id`, where there is one.
pub open spec fn copy_of_first(tasks: Seq<Task>, id: Seq<char>) -> Option<TaskView> {
    let i = first_index(tasks, id);
    if i < tasks.len() {
        Some(tasks[i].deep_view())
    } else {
        None
    }
}

/// Sets the priority of the first task of id `id`.
pub fn set_priority(tasks: &mut Vec<Task>, id: &str, p: u8)
    ensures
        final(tasks)@ == first_changed(old(tasks)@, id@, prioritizing(p)),
{
    let i = find_by_id(tasks, id);
    if i < tasks.len() {
        tasks[i].priority = p;
        assert(tasks@ =~= first_changed(old(tasks)@, id@, prioritizing(p)));
    }
}

/// Sets the content of the first task of id `id`.
pub fn set_content(tasks: &mut Vec<Task>, id: &str, s: String)
    ensures
        final(tasks)@ == first_changed(old(tasks)@, id@, retitling(s)),
{
    let i = find_by_id(tasks, id);
    if i < tasks.len() {
        tasks[i].content = s;
        assert(tasks@ =~= first_changed(old(tasks)@, id@, retitling(s)));
    }
}

/// Sets the description of the first task of id `id`.
pub fn set_description(tasks: &mut Vec<Task>, id: &str, s: String)
    ensures
        final(tasks)@ == first_changed(old(tasks)@, id@, describing(s)),
{
    let i = find_by_id(tasks, id);
    if i < tasks.len() {
        tasks[i].description = s;
        assert(tasks@ =~= first_changed(old(tasks)@, id@, describing(s)));
    }
}

/// Puts `x` in the place of the first entity of id `id`.
pub fn put_back<T: Entity>(store: &mut Vec<T>, id: &str, x: T)
    ensures
        final(store)@ == first_changed(old(store)@, id@, replacing(x)),
{
    let i = find_by_id(store, id);
    if i < store.len() {
        store[i] = x;
        assert(store@ =~= first_changed(old(store)@, id@, replacing(x)));
    }
}

/// Sets the favorite flag of the first project of id `id`.
pub fn set_favorite(projects: &mut Vec<Project>, id: &str, v: bool)
    ensures
        final(projects)@ == first_changed(old(projects)@, id@, starring(v)),
{
    let i = find_by_id(projects, id);
    if i < projects.len() {
        projects[i].is_favorite = v;
        assert(projects@ =~= first_changed(old(projects)@, id@, starring(v)));
    }
}

} // verus!
