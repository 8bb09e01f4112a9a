//! Reconciling the replica with the outcomes of commands.
//!
//! A command that the service accepted needs nothing undone. A command that
//! it refused is rolled back with the record kept for it, and the user is
//! told. Temporary ids give way to the ids that the service assigned.

use crate::app::{pending_views, App, CommandKind, Effect, EffectView, PendingOp};
use crate::commands::{first_changed, put_back, replacing};
use crate::errors::{rejection_error, rejection_view};
use crate::merge::{remove_by_id, without_key};
use crate::strmap::{assoc, keys_distinct, lemma_assoc_entry, slot_of, StrMap};
use crate::models::{Comment, Project, Task};
use crate::projects::{opt_is, project_order, selection_after};
use crate::replica::{new_token, row_id, token_effects};
use crate::state::{AppError, OptimisticOp};
use crate::submit::bumped;
use crate::sync::{SyncCommandResult, SyncResponse};
use vstd::prelude::*;

verus! {

/// The id of a task after the temporary id `temp` gave way to `actual`.
pub open spec fn renamed_id(id: Seq<char>, temp: Seq<char>, actual: Seq<char>) -> Seq<char> {
    if id == temp {
        actual
    } else {
        id
    }
}

/// Whether `after` is the task `before` with the temporary id replaced.
pub open spec fn task_renamed(before: Task, after: Task, temp: Seq<char>, actual: Seq<char>) -> bool {
    &&& after.id@ == renamed_id(before.id@, temp, actual)
    &&& after == (Task { id: after.id, ..before })
    &&& before.id@ != temp ==> after == before
}

/// An optional id after the temporary id `temp` gave way to `actual`.
pub open spec fn renamed_opt(id: Option<String>, temp: Seq<char>, actual: Seq<char>) -> Option<
    Seq<char>,
> {
    match id {
        Some(i) => Some(renamed_id(i@, temp, actual)),
        None => None,
    }
}

/// Whether the comment `c` carries the id `id`, as its own id or as the id of
/// its task under either name.
pub open spec fn comment_carries(c: Comment, id: Seq<char>) -> bool {
    ||| c.id@ == id
    ||| c.item_id.deep_view() == Some(id)
    ||| c.task_id.deep_view() == Some(id)
}

/// Whether `after` is the comment `before` with the temporary id replaced,
/// as its own id and as the id of its task under either name.
pub open spec fn comment_renamed(before: Comment, after: Comment, temp: Seq<char>, actual: Seq<char>) -> bool {
    &&& after.id@ == renamed_id(before.id@, temp, actual)
    &&& after.item_id.deep_view() == renamed_opt(before.item_id, temp, actual)
    &&& after.task_id.deep_view() == renamed_opt(before.task_id, temp, actual)
    &&& after == (Comment {
        id: after.id,
        item_id: after.item_id,
        task_id: after.task_id,
        ..before
    })
    &&& !comment_carries(before, temp) ==> after == before
}

/// Whether `after` is `before` with the temporary id replaced throughout.
pub open spec fn tasks_renamed(before: Seq<Task>, after: Seq<Task>, temp: Seq<char>, actual: Seq<char>) -> bool {
    &&& after.len() == before.len()
    &&& forall|i: int| 0 <= i < before.len() ==> task_renamed(before[i], #[trigger] after[i], temp, actual)
}

/// Whether `after` is `before` with the temporary id replaced throughout.
pub open spec fn comments_renamed(
    before: Seq<Comment>,
    after: Seq<Comment>,
    temp: Seq<char>,
    actual: Seq<char>,
) -> bool {
    &&& after.len() == before.len()
    &&& forall|i: int|
        0 <= i < before.len() ==> comment_renamed(before[i], #[trigger] after[i], temp, actual)
}

/// Gives every task of id `temp` the id `actual`.
pub fn rename_tasks(tasks: &mut Vec<Task>, temp: &str, actual: &str)
    ensures
        tasks_renamed(old(tasks)@, final(tasks)@, temp@, actual@),
{
    let mut i: usize = 0;
    while i < tasks.len()
        invariant
            i <= tasks.len(),
            tasks.len() == old(tasks).len(),
            forall|j: int| 0 <= j < i ==> task_renamed(old(tasks)@[j], #[trigger] tasks@[j], temp@, actual@),
            forall|j: int| i <= j < tasks.len() ==> tasks@[j] == old(tasks)@[j],
        decreases tasks.len() - i,
    {
        if tasks[i].id.as_str().eq(temp) {
            tasks[i].id = actual.to_owned();
        }
        i += 1;
    }
}

/// Gives every comment of id `temp` the id `actual`, and every comment of the
/// task `temp` the task `actual`.
pub fn rename_comments(comments: &mut Vec<Comment>, temp: &str, actual: &str)
    ensures
        comments_renamed(old(comments)@, final(comments)@, temp@, actual@),
{
    let mut i: usize = 0;
    while i < comments.len()
        invariant
            i <= comments.len(),
            comments.len() == old(comments).len(),
            forall|j: int|
                0 <= j < i ==> comment_renamed(
                    old(comments)@[j],
                    #[trigger] comments@[j],
                    temp@,
                    actual@,
                ),
            forall|j: int| i <= j < comments.len() ==> comments@[j] == old(comments)@[j],
        decreases comments.len() - i,
    {
        if comments[i].id.as_str().eq(temp) {
            comments[i].id = actual.to_owned();
        }
        if opt_is(&comments[i].item_id, temp) {
            comments[i].item_id = Some(actual.to_owned());
        }
        if opt_is(&comments[i].task_id, temp) {
            comments[i].task_id = Some(actual.to_owned());
        }
        i += 1;
    }
}

/// The bucket of the task `actual` after the bucket `moved` of the temporary
/// id came to it: what the task had, then what came.
pub open spec fn joined_bucket(
    rest: Map<Seq<char>, Vec<Comment>>,
    moved: Seq<Comment>,
    actual: Seq<char>,
) -> Seq<Comment> {
    if rest.contains_key(actual) {
        rest[actual]@ + moved
    } else {
        moved
    }
}

/// Whether `after` holds the buckets of `before` with the temporary id
/// replaced throughout: every comment of every bucket is renamed, and the
/// bucket of the task `temp` has gone to the end of the bucket of the task
/// `actual`.
pub open spec fn buckets_renamed(
    before: Map<Seq<char>, Vec<Comment>>,
    after: Map<Seq<char>, Vec<Comment>>,
    temp: Seq<char>,
    actual: Seq<char>,
) -> bool {
    let rest = before.remove(temp);
    &&& forall|k: Seq<char>| #[trigger]
        after.contains_key(k) == (rest.contains_key(k) || (k == actual && before.contains_key(temp)))
    &&& forall|k: Seq<char>|
        rest.contains_key(k) && !(k == actual && before.contains_key(temp)) ==> comments_renamed(
            rest[k]@,
            #[trigger] after[k]@,
            temp,
            actual,
        )
    &&& before.contains_key(temp) ==> comments_renamed(
        joined_bucket(rest, before[temp]@, actual),
        after[actual]@,
        temp,
        actual,
    )
}

/// Renames the comments of every bucket; the buckets stay under their keys.
fn rename_each_bucket(buckets: &mut StrMap<Vec<Comment>>, temp: &str, actual: &str)
    ensures
        forall|k: Seq<char>| #[trigger] final(buckets)@.contains_key(k) == old(buckets)@.contains_key(k),
        forall|k: Seq<char>|
            old(buckets)@.contains_key(k) ==> comments_renamed(
                old(buckets)@[k]@,
                #[trigger] final(buckets)@[k]@,
                temp@,
                actual@,
            ),
{
    let mut entries = buckets.take_all();
    let ghost all = entries@;
    while entries.len() > 0
        invariant
            keys_distinct(all),
            entries@.len() <= all.len(),
            entries@ == all.take(entries@.len() as int),
            forall|k: Seq<char>| #[trigger]
                buckets@.contains_key(k) == (exists|j: int|
                    entries@.len() <= j < all.len() && #[trigger] all[j].0@ == k),
            forall|j: int|
                entries@.len() <= j < all.len() ==> comments_renamed(
                    all[j].1@,
                    buckets@[#[trigger] all[j].0@]@,
                    temp@,
                    actual@,
                ),
        decreases entries.len(),
    {
        let ghost n = entries@.len() - 1;
        let ghost held = buckets@;
        let entry = entries.pop().unwrap();
        let key = entry.0;
        let mut list = entry.1;
        assert(key@ == all[n].0@ && list@ == all[n].1@);
        rename_comments(&mut list, temp, actual);
        buckets.insert(key, list);
        proof {
            assert(entries@ =~= all.take(n));
            assert forall|k: Seq<char>| #[trigger]
                buckets@.contains_key(k) == (exists|j: int|
                    n <= j < all.len() && #[trigger] all[j].0@ == k) by {
                if held.contains_key(k) {
                    let j = choose|j: int| n + 1 <= j < all.len() && #[trigger] all[j].0@ == k;
                    assert(all[j].0@ == k);
                }
                if k == all[n].0@ {
                    assert(all[n].0@ == k);
                }
                if exists|j: int| n <= j < all.len() && #[trigger] all[j].0@ == k {
                    let j = choose|j: int| n <= j < all.len() && #[trigger] all[j].0@ == k;
                    if j > n {
                        assert(held.contains_key(k));
                    }
                }
            }
            assert forall|j: int| n <= j < all.len() implies comments_renamed(
                all[j].1@,
                buckets@[#[trigger] all[j].0@]@,
                temp@,
                actual@,
            ) by {
                if j > n {
                    assert(all[n].0@ != all[j].0@);
                }
            }
        }
    }
    proof {
        assert forall|k: Seq<char>| #[trigger]
            buckets@.contains_key(k) == old(buckets)@.contains_key(k) by {
            if old(buckets)@.contains_key(k) {
                let j = slot_of(all, k);
                assert(all[j].0@ == k);
            }
        }
        assert forall|k: Seq<char>| old(buckets)@.contains_key(k) implies comments_renamed(
            old(buckets)@[k]@,
            #[trigger] buckets@[k]@,
            temp@,
            actual@,
        ) by {
            let j = slot_of(all, k);
            lemma_assoc_entry(all, j);
        }
    }
}

/// A renamed list after a renamed list is the two lists, one after the
/// other, renamed.
pub proof fn lemma_renamed_join(
    a: Seq<Comment>,
    a2: Seq<Comment>,
    b: Seq<Comment>,
    b2: Seq<Comment>,
    temp: Seq<char>,
    actual: Seq<char>,
)
    requires
        comments_renamed(a, a2, temp, actual),
        comments_renamed(b, b2, temp, actual),
    ensures
        comments_renamed(a + b, a2 + b2, temp, actual),
{
    assert forall|i: int| 0 <= i < (a + b).len() implies comment_renamed(
        (a + b)[i],
        #[trigger] (a2 + b2)[i],
        temp,
        actual,
    ) by {
        if i < a.len() {
            assert(comment_renamed(a[i], a2[i], temp, actual));
        } else {
            assert(comment_renamed(b[i - a.len()], b2[i - a.len()], temp, actual));
        }
    }
}

/// Replaces the temporary id in every bucket, and moves the bucket of the
/// task `temp` to the end of the bucket of the task `actual`.
pub fn rename_buckets(buckets: &mut StrMap<Vec<Comment>>, temp: &str, actual: &str)
    ensures
        buckets_renamed(old(buckets)@, final(buckets)@, temp@, actual@),
{
    let moved = buckets.remove(temp);
    let ghost rest = buckets@;
    rename_each_bucket(buckets, temp, actual);
    let ghost renamed = buckets@;
    match moved {
        Some(mut tail) => {
            let ghost tail_before = tail@;
            rename_comments(&mut tail, temp, actual);
            let ghost tail_after = tail@;
            let joined = match buckets.remove(actual) {
                Some(mut head) => {
                    let ghost head_after = head@;
                    head.append(&mut tail);
                    proof {
                        lemma_renamed_join(
                            rest[actual@]@,
                            head_after,
                            tail_before,
                            tail_after,
                            temp@,
                            actual@,
                        );
                    }
                    head
                },
                None => tail,
            };
            buckets.insert(actual.to_owned(), joined);
            assert(renamed.contains_key(actual@) == rest.contains_key(actual@));
        },
        None => {
            assert(rest =~= old(buckets)@);
        },
    }
    assert forall|k: Seq<char>| #[trigger]
        buckets@.contains_key(k) == (rest.contains_key(k) || (k == actual@ && old(
            buckets,
        )@.contains_key(temp@))) by {
        assert(renamed.contains_key(k) == rest.contains_key(k));
    }
}

impl App {
    /// What the mapping of the temporary id `temp` to `actual` does: the
    /// tasks, the comments of the open detail and the comments of every
    /// bucket carry `actual` wherever they carried `temp`.
    pub open spec fn mapped(pre: App, post: App, temp: Seq<char>, actual: Seq<char>) -> bool {
        &&& tasks_renamed(pre.tasks@, post.tasks@, temp, actual)
        &&& comments_renamed(pre.comments@, post.comments@, temp, actual)
        &&& buckets_renamed(pre.comments_by_task@, post.comments_by_task@, temp, actual)
        &&& post == (App {
            tasks: post.tasks,
            comments: post.comments,
            comments_by_task: post.comments_by_task,
            ..pre
        })
    }

    /// Replaces the temporary id `temp_id` by the id `real_id` that the
    /// service assigned.
    pub fn apply_temp_id_mapping(&mut self, temp_id: &str, real_id: &str)
        ensures
            Self::mapped(*old(self), *final(self), temp_id@, real_id@),
    {
        rename_tasks(&mut self.tasks, temp_id, real_id);
        rename_comments(&mut self.comments, temp_id, real_id);
        rename_buckets(&mut self.comments_by_task, temp_id, real_id);
    }

    /// Removes every task of id `id`.
    fn drop_task(&mut self, id: &str)
        ensures
            final(self).tasks@ == without_key(old(self).tasks@, id@),
            *final(self) == (App { tasks: final(self).tasks, ..*old(self) }),
    {
        remove_by_id(&mut self.tasks, id);
    }

    /// Puts `before` in the place of the first task of id `id`.
    fn restore_task(&mut self, id: &str, before: Task)
        ensures
            final(self).tasks@ == first_changed(old(self).tasks@, id@, replacing(before)),
            *final(self) == (App { tasks: final(self).tasks, ..*old(self) }),
    {
        put_back(&mut self.tasks, id, before);
    }

    /// Whether the row under the cursor is the task `task`.
    pub fn detail_is_of(&self, task: &str) -> (r: bool)
        ensures
            r == (row_id(self.rows(), self.selected_task) == Some(task@)),
    {
        match self.selected_task() {
            Some(t) => t.id.as_str().eq(task),
            None => false,
        }
    }

    /// Takes every comment of id `temp` out of the comment list.
    fn drop_comment(&mut self, temp: &str)
        ensures
            final(self).comments@ == without_key(old(self).comments@, temp@),
            *final(self) == (App { comments: final(self).comments, ..*old(self) }),
    {
        remove_by_id(&mut self.comments, temp);
    }

    /// Puts `before` in the place of the first project of id `id` in the
    /// store and puts the projects in order.
    fn restore_project(&mut self, id: &str, before: Project)
        ensures
            final(self).project_store@ == first_changed(
                old(self).project_store@,
                id@,
                replacing(before),
            ),
            final(self).projects@ == project_order(
                final(self).project_store@,
                old(self).workspaces@,
                old(self).folders@,
            ),
            final(self).selected_project == selection_after(
                old(self).projects@,
                old(self).selected_project as int,
                final(self).projects@,
            ),
            *final(self) == (App {
                project_store: final(self).project_store,
                projects: final(self).projects,
                selected_project: final(self).selected_project,
                ..*old(self)
            }),
    {
        self.replace_project(id, before);
        self.sort_projects();
    }

    /// Puts `before` in the place of the first project of id `id` in the
    /// store.
    fn replace_project(&mut self, id: &str, before: Project)
        ensures
            final(self).project_store@ == first_changed(
                old(self).project_store@,
                id@,
                replacing(before),
            ),
            *final(self) == (App { project_store: final(self).project_store, ..*old(self) }),
    {
        put_back(&mut self.project_store, id, before);
    }

    /// What undoing the optimistic change `op` does: an added task or
    /// comment leaves, whatever the cursor is on, and a changed task or
    /// project is as it was.
    pub open spec fn reverted(pre: App, post: App, op: OptimisticOp) -> bool {
        match op {
            OptimisticOp::TaskAdded { temp_id } => {
                &&& post.tasks@ == without_key(pre.tasks@, temp_id@)
                &&& post == (App { tasks: post.tasks, ..pre })
            },
            OptimisticOp::TaskRemoved { snapshot } => {
                &&& post.tasks@ == pre.tasks@.push(snapshot)
                &&& post == (App { tasks: post.tasks, ..pre })
            },
            OptimisticOp::TaskUpdated { task_id, before } => {
                &&& post.tasks@ == first_changed(pre.tasks@, task_id@, replacing(before))
                &&& post == (App { tasks: post.tasks, ..pre })
            },
            OptimisticOp::CommentAdded { temp_id, task_id } => {
                &&& post.comments@ == without_key(pre.comments@, temp_id@)
                &&& post == (App { comments: post.comments, ..pre })
            },
            OptimisticOp::ProjectUpdated { project_id, before } => {
                &&& post.project_store@ == first_changed(
                    pre.project_store@,
                    project_id@,
                    replacing(before),
                )
                &&& post.projects@ == project_order(
                    post.project_store@,
                    pre.workspaces@,
                    pre.folders@,
                )
                &&& post.selected_project == selection_after(
                    pre.projects@,
                    pre.selected_project as int,
                    post.projects@,
                )
                &&& post == (App {
                    project_store: post.project_store,
                    projects: post.projects,
                    selected_project: post.selected_project,
                    ..pre
                })
            },
        }
    }

    /// Undoes an optimistic change.
    pub fn revert_optimistic(&mut self, op: OptimisticOp)
        ensures
            Self::reverted(*old(self), *final(self), op),
    {
        match op {
            OptimisticOp::TaskAdded { temp_id } => self.drop_task(temp_id.as_str()),
            OptimisticOp::TaskRemoved { snapshot } => self.add_task(snapshot),
            OptimisticOp::TaskUpdated { task_id, before } => self.restore_task(
                task_id.as_str(),
                before,
            ),
            OptimisticOp::CommentAdded { temp_id, task_id } => self.drop_comment(temp_id.as_str()),
            OptimisticOp::ProjectUpdated { project_id, before } => self.restore_project(
                project_id.as_str(),
                before,
            ),
        }
    }

    /// What asking for the comments of the task `task` does: the request
    /// gets the next number, and the reply to it will be the only one that
    /// counts.
    pub open spec fn comments_requested(pre: App, post: App, task: Seq<char>) -> bool {
        &&& post.comments_fetch_seq == bumped(pre.comments_fetch_seq)
        &&& post.outbox.deep_view() == pre.outbox.deep_view().push(
            EffectView::FetchComments { task_id: task, fetch_seq: post.comments_fetch_seq },
        )
        &&& post == (App {
            comments_fetch_seq: post.comments_fetch_seq,
            outbox: post.outbox,
            ..pre
        })
    }

    /// Asks for the comments of the task `task_id`.
    pub fn spawn_comments_fetch(&mut self, task_id: String)
        ensures
            Self::comments_requested(*old(self), *final(self), task_id@),
    {
        let fetch_seq = self.next_fetch_seq();
        self.emit(Effect::FetchComments { task_id, fetch_seq });
    }

    /// Counts one more request for comments and returns its number.
    fn next_fetch_seq(&mut self) -> (n: u64)
        ensures
            n == bumped(old(self).comments_fetch_seq),
            final(self).comments_fetch_seq == n,
            *final(self) == (App { comments_fetch_seq: n, ..*old(self) }),
    {
        if self.comments_fetch_seq < u64::MAX {
            self.comments_fetch_seq = self.comments_fetch_seq + 1;
        }
        self.comments_fetch_seq
    }

    /// Takes out the record kept for the command `uuid`.
    fn take_pending(&mut self, uuid: &str) -> (r: Option<PendingOp>)
        ensures
            final(self).temp_id_pending@ == old(self).temp_id_pending@.remove(uuid@),
            r == (if old(self).temp_id_pending@.contains_key(uuid@) {
                Some(old(self).temp_id_pending@[uuid@])
            } else {
                None
            }),
            *final(self) == (App { temp_id_pending: final(self).temp_id_pending, ..*old(self) }),
    {
        self.temp_id_pending.remove(uuid)
    }

    /// Shows an error.
    fn show_error(&mut self, e: AppError)
        ensures
            final(self).error == Some(e),
            *final(self) == (App { error: final(self).error, ..*old(self) }),
    {
        self.error = Some(e);
    }

    /// What the outcome `status` of the command `uuid` does. The record kept
    /// for the command is dropped. A refused command is rolled back with its
    /// record, and the error names the action, carries the service's message
    /// and the hint for its tag. An accepted comment on the task whose
    /// detail is open asks for the comments of that task.
    pub open spec fn outcome_applied(pre: App, post: App, uuid: Seq<char>, status: SyncCommandResult) -> bool {
        let record = if pre.temp_id_pending@.contains_key(uuid) {
            Some(pre.temp_id_pending@[uuid])
        } else {
            None
        };
        let taken = App { temp_id_pending: post.temp_id_pending, ..pre };
        &&& post.temp_id_pending@ == pre.temp_id_pending@.remove(uuid)
        &&& match status {
            SyncCommandResult::Rejected(e) => {
                &&& post.error.deep_view() == Some(
                    rejection_view(
                        match record {
                            Some(r) => Some(r.kind),
                            None => None,
                        },
                        e,
                    ),
                )
                &&& match record {
                    Some(r) => Self::reverted(taken, App { error: pre.error, ..post }, r.undo),
                    None => post == (App { error: post.error, ..taken }),
                }
            },
            SyncCommandResult::Accepted(_) => match Self::task_to_refresh(taken, record) {
                Some(t) => Self::comments_requested(taken, post, t),
                None => post == taken,
            },
        }
    }

    /// Undoes the change `undo`, where there is one, and shows the error
    /// `err`.
    fn undo_and_show(&mut self, undo: Option<OptimisticOp>, err: AppError)
        ensures
            final(self).error == Some(err),
            match undo {
                Some(u) => Self::reverted(*old(self), App { error: old(self).error, ..*final(self) }, u),
                None => *final(self) == (App { error: final(self).error, ..*old(self) }),
            },
    {
        match undo {
            Some(u) => self.revert_optimistic(u),
            None => {},
        }
        self.show_error(err);
    }

    /// Asks for the comments of the task `task`, where there is one.
    fn refresh_comments(&mut self, task: Option<String>)
        ensures
            match task {
                Some(t) => Self::comments_requested(*old(self), *final(self), t@),
                None => *final(self) == *old(self),
            },
    {
        match task {
            Some(t) => self.spawn_comments_fetch(t),
            None => {},
        }
    }

    /// The task whose comments are to be fetched anew after the command
    /// with the record `record` was accepted: the task of an added comment,
    /// where its detail is open.
    pub open spec fn task_to_refresh(pre: App, record: Option<PendingOp>) -> Option<Seq<char>> {
        match record {
            Some(r) => match r.undo {
                OptimisticOp::CommentAdded { temp_id, task_id } => if row_id(
                    pre.rows(),
                    pre.selected_task,
                ) == Some(task_id@) {
                    Some(task_id@)
                } else {
                    None
                },
                _ => None,
            },
            None => None,
        }
    }

    /// The task whose comments are to be fetched anew after the command
    /// with the record `record` was accepted.
    fn refresh_target(&self, record: Option<PendingOp>) -> (r: Option<String>)
        ensures
            r.deep_view() == Self::task_to_refresh(*self, record),
    {
        match record {
            Some(r) => match r.undo {
                OptimisticOp::CommentAdded { temp_id, task_id } => {
                    if self.detail_is_of(task_id.as_str()) {
                        Some(task_id)
                    } else {
                        None
                    }
                },
                _ => None,
            },
            None => None,
        }
    }

    /// Applies the outcome of one command.
    pub fn settle(&mut self, uuid: &str, status: &SyncCommandResult)
        ensures
            Self::outcome_applied(*old(self), *final(self), uuid@, *status),
    {
        let record = self.take_pending(uuid);
        match status {
            SyncCommandResult::Rejected(e) => {
                let (kind, undo) = match record {
                    Some(r) => (Some(r.kind), Some(r.undo)),
                    None => (None, None),
                };
                let err = rejection_error(kind, e);
                self.undo_and_show(undo, err);
            },
            SyncCommandResult::Accepted(_) => {
                let target = self.refresh_target(record);
                self.refresh_comments(target);
            },
        }
    }

    /// Whether `states` are the states that the outcomes `outcomes` lead
    /// through, one after the other.
    pub open spec fn outcomes_applied(states: Seq<App>, outcomes: Seq<(String, SyncCommandResult)>) -> bool {
        &&& states.len() == outcomes.len() + 1
        &&& forall|i: int|
            0 <= i < outcomes.len() ==> Self::outcome_applied(
                states[i],
                #[trigger] states[i + 1],
                outcomes[i].0@,
                outcomes[i].1,
            )
    }

    /// Whether `states` are the states that the id mappings `mappings` lead
    /// through, one after the other.
    pub open spec fn mappings_applied(states: Seq<App>, mappings: Seq<(String, String)>) -> bool {
        &&& states.len() == mappings.len() + 1
        &&& forall|i: int|
            0 <= i < mappings.len() ==> Self::mapped(
                states[i],
                #[trigger] states[i + 1],
                mappings[i].0@,
                mappings[i].1@,
            )
    }

    /// What taking over the token of a reply does: the token is replaced
    /// unless the reply's is empty, and is written to disk unless nothing is
    /// to be written.
    pub open spec fn token_adopted(pre: App, post: App, token: Seq<char>) -> bool {
        &&& post.sync_token@ == new_token(pre.sync_token@, token)
        &&& post.outbox.deep_view() == pre.outbox.deep_view() + token_effects(token, pre.ephemeral)
        &&& post == (App { sync_token: post.sync_token, outbox: post.outbox, ..pre })
    }

    /// Takes over the token of a reply to a batch of commands.
    pub fn adopt_token(&mut self, token: String)
        ensures
            Self::token_adopted(*old(self), *final(self), token@),
    {
        if !token.as_str().is_empty() {
            self.put_token(token);
            if !self.ephemeral {
                let copy = self.sync_token.clone();
                self.emit(Effect::SaveSyncToken(copy));
            }
        }
        assert(self.outbox.deep_view() =~= old(self).outbox.deep_view() + token_effects(
            token@,
            old(self).ephemeral,
        ));
    }

    /// Replaces the token.
    fn put_token(&mut self, token: String)
        ensures
            final(self).sync_token == token,
            *final(self) == (App { sync_token: token, ..*old(self) }),
    {
        self.sync_token = token;
    }

    /// What the reply to a batch of commands does: its outcomes are applied
    /// in order, then its id mappings in order, then its token is taken
    /// over.
    pub open spec fn reconciled(pre: App, post: App, resp: SyncResponse) -> bool {
        exists|a: Seq<App>, b: Seq<App>|
            {
                &&& #[trigger] Self::outcomes_applied(a, resp.sync_status@)
                &&& #[trigger] Self::mappings_applied(b, resp.temp_id_mapping@)
                &&& a[0] == pre
                &&& b[0] == a.last()
                &&& Self::token_adopted(b.last(), post, resp.sync_token@)
            }
    }

    /// Applies the outcomes of a reply, in order.
    fn settle_all(&mut self, outcomes: &Vec<(String, SyncCommandResult)>) -> (states: Ghost<Seq<App>>)
        ensures
            Self::outcomes_applied(states@, outcomes@),
            states@[0] == *old(self),
            states@.last() == *final(self),
    {
        let ghost mut states: Seq<App> = seq![*self];
        let mut i: usize = 0;
        while i < outcomes.len()
            invariant
                i <= outcomes.len(),
                Self::outcomes_applied(states, outcomes@.take(i as int)),
                states[0] == *old(self),
                states.last() == *self,
            decreases outcomes.len() - i,
        {
            let ghost before = states;
            self.settle(outcomes[i].0.as_str(), &outcomes[i].1);
            proof {
                states = states.push(*self);
                assert forall|j: int| 0 <= j < i + 1 implies Self::outcome_applied(
                    states[j],
                    #[trigger] states[j + 1],
                    outcomes@.take(i + 1)[j].0@,
                    outcomes@.take(i + 1)[j].1,
                ) by {
                    if j < i {
                        assert(states[j] == before[j]);
                        assert(states[j + 1] == before[j + 1]);
                        assert(outcomes@.take(i as int)[j] == outcomes@.take(i + 1)[j]);
                    }
                }
            }
            i += 1;
        }
        assert(outcomes@.take(outcomes.len() as int) == outcomes@);
        Ghost(states)
    }

    /// Applies the id mappings of a reply, in order.
    fn map_all(&mut self, mappings: &Vec<(String, String)>) -> (states: Ghost<Seq<App>>)
        ensures
            Self::mappings_applied(states@, mappings@),
            states@[0] == *old(self),
            states@.last() == *final(self),
    {
        let ghost mut states: Seq<App> = seq![*self];
        let mut i: usize = 0;
        while i < mappings.len()
            invariant
                i <= mappings.len(),
                Self::mappings_applied(states, mappings@.take(i as int)),
                states[0] == *old(self),
                states.last() == *self,
            decreases mappings.len() - i,
        {
            let ghost before = states;
            self.apply_temp_id_mapping(mappings[i].0.as_str(), mappings[i].1.as_str());
            proof {
                states = states.push(*self);
                assert forall|j: int| 0 <= j < i + 1 implies Self::mapped(
                    states[j],
                    #[trigger] states[j + 1],
                    mappings@.take(i + 1)[j].0@,
                    mappings@.take(i + 1)[j].1@,
                ) by {
                    if j < i {
                        assert(states[j] == before[j]);
                        assert(states[j + 1] == before[j + 1]);
                        assert(mappings@.take(i as int)[j] == mappings@.take(i + 1)[j]);
                    }
                }
            }
            i += 1;
        }
        assert(mappings@.take(mappings.len() as int) == mappings@);
        Ghost(states)
    }

    /// Applies the reply to a batch of commands.
    pub fn apply_command_results(&mut self, resp: SyncResponse)
        ensures
            Self::reconciled(*old(self), *final(self), resp),
    {
        let a = self.settle_all(&resp.sync_status);
        let b = self.map_all(&resp.temp_id_mapping);
        self.adopt_token(resp.sync_token);
    }
}

} // verus!
