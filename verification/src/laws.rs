//! Laws of the replica engine, proved from the contracts of its functions.

use crate::app::{pending_views, App, CommandKind, EffectView, PendingOp, PendingView};
use crate::commands::{
    checking, copy_of_first, counter_after, describing, first_changed, prioritizing, recorded,
    replacing, retitling, starring, temp_id_text, uuid_text,
};
use crate::state::{OptimisticOp, UndoView};
use crate::submit::{row_at, toggle_kind, update_undo};
use crate::text::trimmed;
use crate::merge::{
    absent, alive, distinct_keys, first_index, lemma_first_index, lemma_merge_all_settles,
    lemma_merge_keeps_alive, lemma_without_key, lemma_without_tombstones, merge_all, merge_one,
    settled, without_key,
};
use crate::models::{
    Collaborator, Comment, Entity, Folder, Label, Project, Section, Task, TaskView, UserInfo,
    Workspace,
};
use crate::order::{
    in_order, is_strict_order, lemma_slot_for, lemma_sorted_by_is_in_order, slot_for, sorted_by,
};
use crate::selector::{
    added_key, by_added, by_child_order, by_child_then_project, by_due, by_priority, by_section,
    gathered_rows, is_top_row, lemma_first_of_each, top_order, top_rows, visible_rows,
    SelectionView,
};
use crate::text::lex_lt;
use crate::projects::{
    child_of, folder_of, folder_rank, folders_part, forest, ids_of, in_folder, in_workspace,
    is_personal, is_unfiled, kids, not_among, pin_first, project_order, reached, subtree,
    workspace_part, workspaces_part,
};
use crate::reconcile::{
    comment_carries, comment_renamed, comments_renamed, joined_bucket, task_renamed, tasks_renamed,
};
use crate::replica::{
    bucket_filled, bucket_merged, buckets_after, incoming, new_token, note_task, row_id, synced,
    users_after, with_user, ReplicaView, UserRecordView,
};
use crate::coordinator::BgResult;
use crate::sync::{delta_request_view, SyncCommandError, SyncCommandResult, SyncResponse};
use crate::replay::{
    lemma_distinct_lives_first, lemma_merge_twice, lemma_merged_where_twice, lives_first,
    merged_where,
};
use vstd::prelude::*;

verus! {

/// No id occurs twice in the list, where there is one.
pub open spec fn distinct_ids<T: Entity>(list: Option<Vec<T>>) -> bool {
    match list {
        Some(l) => distinct_keys(l@),
        None => true,
    }
}

/// The list, where there is one, names no entity as live that it named as
/// deleted before.
pub open spec fn lives_first_in<T: Entity>(list: Option<Vec<T>>) -> bool {
    match list {
        Some(l) => lives_first(l@),
        None => true,
    }
}

/// A reply that can be applied again: a full sync; or an incremental one in
/// which no list names as live an entity that it named as deleted before.
pub open spec fn repeatable(r: SyncResponse) -> bool {
    r.full_sync || {
        &&& lives_first_in(r.projects)
        &&& lives_first_in(r.items)
        &&& lives_first_in(r.labels)
        &&& lives_first_in(r.sections)
        &&& lives_first_in(r.workspaces)
        &&& lives_first_in(r.folders)
        &&& lives_first_in(r.notes)
    }
}

/// A reply in which no list names an entity twice can be applied again.
pub proof fn lemma_distinct_is_repeatable(r: SyncResponse)
    requires
        distinct_ids(r.projects),
        distinct_ids(r.items),
        distinct_ids(r.labels),
        distinct_ids(r.sections),
        distinct_ids(r.workspaces),
        distinct_ids(r.folders),
        distinct_ids(r.notes),
    ensures
        repeatable(r),
{
    if r.projects is Some {
        lemma_distinct_lives_first(r.projects->Some_0@);
    }
    if r.items is Some {
        lemma_distinct_lives_first(r.items->Some_0@);
    }
    if r.labels is Some {
        lemma_distinct_lives_first(r.labels->Some_0@);
    }
    if r.sections is Some {
        lemma_distinct_lives_first(r.sections->Some_0@);
    }
    if r.workspaces is Some {
        lemma_distinct_lives_first(r.workspaces->Some_0@);
    }
    if r.folders is Some {
        lemma_distinct_lives_first(r.folders->Some_0@);
    }
    if r.notes is Some {
        lemma_distinct_lives_first(r.notes->Some_0@);
    }
}

/// Taking a list in twice gives what taking it in once gives.
pub proof fn lemma_incoming_idempotent<T: Entity>(current: Seq<T>, list: Option<Vec<T>>, full: bool)
    requires
        full || lives_first_in(list),
    ensures
        incoming(incoming(current, list, full), list, full) == incoming(current, list, full),
{
    match list {
        Some(l) => {
            if !full {
                lemma_merge_twice(current, l@);
            }
        },
        None => {},
    }
}

/// The buckets after the comments `notes` of an incremental sync.
pub open spec fn merged_buckets(m: Map<Seq<char>, Seq<Comment>>, notes: Seq<Comment>) -> Map<
    Seq<char>,
    Seq<Comment>,
> {
    notes.fold_left(m, |acc: Map<Seq<char>, Seq<Comment>>, c: Comment| bucket_merged(acc, c))
}

/// The test "belongs to the task `task`".
pub open spec fn of_task(task: Seq<char>) -> spec_fn(Comment) -> bool {
    |c: Comment| note_task(c) == task
}

/// The bucket of the task `task`; empty where the task has none.
pub open spec fn bucket_of(m: Map<Seq<char>, Seq<Comment>>, task: Seq<char>) -> Seq<Comment> {
    if m.contains_key(task) {
        m[task]
    } else {
        Seq::empty()
    }
}

/// Whether `notes` bring a live comment to the task `task`.
pub open spec fn brings(notes: Seq<Comment>, task: Seq<char>) -> bool {
    exists|i: int|
        0 <= i < notes.len() && !(#[trigger] notes[i]).is_deleted && note_task(notes[i]) == task
}

/// What the comments of an incremental sync do to the bucket of one task:
/// the task has a bucket afterwards where it had one or a live comment came
/// for it, and its bucket is the bucket it had with the comments of the task
/// merged into it.
pub proof fn lemma_merged_buckets_are(
    m: Map<Seq<char>, Seq<Comment>>,
    notes: Seq<Comment>,
    task: Seq<char>,
)
    ensures
        merged_buckets(m, notes).contains_key(task) == (m.contains_key(task) || brings(notes, task)),
        bucket_of(merged_buckets(m, notes), task) == merged_where(
            bucket_of(m, task),
            notes,
            of_task(task),
        ),
    decreases notes.len(),
{
    if notes.len() > 0 {
        let init = notes.drop_last();
        let c = notes.last();
        let mid = merged_buckets(m, init);
        let after = merged_buckets(m, notes);
        lemma_merged_buckets_are(m, init, task);
        assert(after == bucket_merged(mid, c));
        assert(notes[notes.len() - 1] == c);
        if brings(init, task) {
            let i = choose|i: int|
                0 <= i < init.len() && !(#[trigger] init[i]).is_deleted && note_task(init[i]) == task;
            assert(notes[i] == init[i]);
        }
        if brings(notes, task) && !(note_task(c) == task && !c.is_deleted) {
            let i = choose|i: int|
                0 <= i < notes.len() && !(#[trigger] notes[i]).is_deleted && note_task(notes[i])
                    == task;
            assert(init[i] == notes[i]);
        }
        if note_task(c) == task {
            let had = bucket_of(mid, task);
            lemma_first_index(had, c.key());
            if !mid.contains_key(task) {
                if c.is_deleted {
                    assert(merge_one(had, c) =~= had);
                } else {
                    assert(merge_one(had, c) =~= seq![c]);
                }
            }
        }
    }
}

/// Taking the comments of a reply in twice gives what taking them in once
/// gives.
pub proof fn lemma_buckets_idempotent(m: Map<Seq<char>, Seq<Comment>>, notes: Option<Vec<Comment>>, full: bool)
    requires
        full || lives_first_in(notes),
    ensures
        buckets_after(buckets_after(m, notes, full), notes, full) == buckets_after(m, notes, full),
{
    match notes {
        Some(l) => {
            if !full {
                let once = merged_buckets(m, l@);
                let twice = merged_buckets(once, l@);
                assert forall|k: Seq<char>| #[trigger]
                    twice.dom().contains(k) == once.dom().contains(k) by {
                    lemma_merged_buckets_are(m, l@, k);
                    lemma_merged_buckets_are(once, l@, k);
                }
                assert forall|k: Seq<char>| once.dom().contains(k) implies #[trigger] twice[k]
                    == once[k] by {
                    lemma_merged_buckets_are(m, l@, k);
                    lemma_merged_buckets_are(once, l@, k);
                    lemma_merged_where_twice(bucket_of(m, k), l@, of_task(k));
                    assert(bucket_of(twice, k) == twice[k]);
                    assert(bucket_of(once, k) == once[k]);
                }
                assert(twice.dom() =~= once.dom());
                assert(twice =~= once);
            }
        },
        None => {},
    }
}

/// The users after the collaborators `list` were met.
pub open spec fn met(m: Map<Seq<char>, UserRecordView>, list: Seq<Collaborator>) -> Map<
    Seq<char>,
    UserRecordView,
> {
    list.fold_left(
        m,
        |acc: Map<Seq<char>, UserRecordView>, c: Collaborator| with_user(acc, c.id@, c.name, c.email),
    )
}

/// Meeting collaborators keeps the users that are known, and knows each
/// collaborator afterwards.
pub proof fn lemma_met_knows(m: Map<Seq<char>, UserRecordView>, list: Seq<Collaborator>)
    ensures
        forall|k: Seq<char>| m.contains_key(k) ==> #[trigger] met(m, list).contains_key(k),
        forall|i: int| 0 <= i < list.len() ==> met(m, list).contains_key(#[trigger] list[i].id@),
    decreases list.len(),
{
    if list.len() > 0 {
        let init = list.drop_last();
        lemma_met_knows(m, init);
        assert(met(m, list) == with_user(
            met(m, init),
            list.last().id@,
            list.last().name,
            list.last().email,
        ));
        assert forall|i: int| 0 <= i < list.len() implies met(m, list).contains_key(
            #[trigger] list[i].id@,
        ) by {
            if i < list.len() - 1 {
                assert(init[i] == list[i]);
            }
        }
    }
}

/// Meeting collaborators who are all known changes nothing.
pub proof fn lemma_met_known(m: Map<Seq<char>, UserRecordView>, list: Seq<Collaborator>)
    requires
        forall|i: int| 0 <= i < list.len() ==> m.contains_key(#[trigger] list[i].id@),
    ensures
        met(m, list) == m,
    decreases list.len(),
{
    if list.len() > 0 {
        let init = list.drop_last();
        assert forall|i: int| 0 <= i < init.len() implies m.contains_key(#[trigger] init[i].id@) by {
            assert(init[i] == list[i]);
        }
        lemma_met_known(m, init);
        assert(met(m, list) == with_user(
            met(m, init),
            list.last().id@,
            list.last().name,
            list.last().email,
        ));
        assert(m.contains_key(list[list.len() - 1].id@));
    }
}

/// Meeting the users of a reply twice gives what meeting them once gives.
pub proof fn lemma_users_idempotent(
    m: Map<Seq<char>, UserRecordView>,
    collaborators: Option<Vec<Collaborator>>,
    user: Option<UserInfo>,
)
    ensures
        users_after(users_after(m, collaborators, user), collaborators, user) == users_after(
            m,
            collaborators,
            user,
        ),
{
    let once = users_after(m, collaborators, user);
    match collaborators {
        Some(l) => {
            lemma_met_knows(m, l@);
            let first = met(m, l@);
            assert forall|i: int| 0 <= i < l@.len() implies once.contains_key(
                #[trigger] l@[i].id@,
            ) by {}
            lemma_met_known(once, l@);
        },
        None => {},
    }
}

/// Every entity of `s` passes `good`.
pub open spec fn all_pass<T>(s: Seq<T>, good: spec_fn(T) -> bool) -> bool {
    forall|i: int| 0 <= i < s.len() ==> good(#[trigger] s[i])
}

/// A selection of entities that all pass passes.
pub proof fn lemma_filter_passes<T>(s: Seq<T>, f: spec_fn(T) -> bool, good: spec_fn(T) -> bool)
    requires
        all_pass(s, good),
    ensures
        all_pass(s.filter(f), good),
{
    let r = s.filter(f);
    assert forall|i: int| 0 <= i < r.len() implies good(#[trigger] r[i]) by {
        assert(r.contains(r[i]));
        s.lemma_filter_contains_rev(f, r[i]);
        let j = choose|j: int| 0 <= j < s.len() && s[j] == r[i];
        assert(good(s[j]));
    }
}

/// A sorted list of entities that all pass passes.
pub proof fn lemma_sorted_passes<T>(s: Seq<T>, rank: spec_fn(T, T) -> bool, good: spec_fn(T) -> bool)
    requires
        all_pass(s, good),
    ensures
        all_pass(sorted_by(s, rank), good),
    decreases s.len(),
{
    if s.len() > 0 {
        let init = s.drop_last();
        assert(all_pass(init, good)) by {
            assert forall|i: int| 0 <= i < init.len() implies good(#[trigger] init[i]) by {
                assert(init[i] == s[i]);
            }
        }
        lemma_sorted_passes(init, rank, good);
        let acc = sorted_by(init, rank);
        let x = s.last();
        lemma_slot_for(acc, x, rank);
        let k = slot_for(acc, x, rank);
        let r = sorted_by(s, rank);
        assert(r == acc.insert(k, x));
        assert(good(s[s.len() - 1]));
        assert forall|i: int| 0 <= i < r.len() implies good(#[trigger] r[i]) by {
            if i < k {
                assert(r[i] == acc[i]);
            } else if i > k {
                assert(r[i] == acc[i - 1]);
            }
        }
    }
}

/// Two lists of entities that all pass, joined, pass.
pub proof fn lemma_joined_passes<T>(a: Seq<T>, b: Seq<T>, good: spec_fn(T) -> bool)
    requires
        all_pass(a, good),
        all_pass(b, good),
    ensures
        all_pass(a + b, good),
{
    assert forall|i: int| 0 <= i < (a + b).len() implies good(#[trigger] (a + b)[i]) by {
        if i < a.len() {
            assert((a + b)[i] == a[i]);
        } else {
            assert((a + b)[i] == b[i - a.len()]);
        }
    }
}

/// The flattened trees of projects that all pass, pass.
pub proof fn lemma_forest_passes(group: Seq<Project>, roots: Seq<Project>, depth: nat, good: spec_fn(Project) -> bool)
    requires
        all_pass(group, good),
        all_pass(roots, good),
    ensures
        all_pass(forest(group, roots, depth), good),
    decreases depth, roots.len(),
{
    if roots.len() > 0 {
        let r = roots.last();
        let init = roots.drop_last();
        assert(all_pass(init, good)) by {
            assert forall|i: int| 0 <= i < init.len() implies good(#[trigger] init[i]) by {
                assert(init[i] == roots[i]);
            }
        }
        lemma_forest_passes(group, init, depth, good);
        let below = if depth == 0 {
            Seq::<Project>::empty()
        } else {
            forest(group, kids(group, Some(r.id@)), (depth - 1) as nat)
        };
        if depth > 0 {
            lemma_kids_pass(group, Some(r.id@), good);
            lemma_forest_passes(group, kids(group, Some(r.id@)), (depth - 1) as nat, good);
        }
        assert(good(roots[roots.len() - 1]));
        let one = seq![r];
        assert(all_pass(one, good));
        lemma_joined_passes(forest(group, init, depth), one, good);
        lemma_joined_passes(forest(group, init, depth) + one, below, good);
    }
}

/// The children of a parent among projects that all pass, pass.
pub proof fn lemma_kids_pass(group: Seq<Project>, parent: Option<Seq<char>>, good: spec_fn(Project) -> bool)
    requires
        all_pass(group, good),
    ensures
        all_pass(kids(group, parent), good),
{
    lemma_filter_passes(group, child_of(parent), good);
    lemma_sorted_passes(group.filter(child_of(parent)), pin_first(), good);
}

/// The subtree of a parent among projects that all pass, passes.
pub proof fn lemma_subtree_passes(group: Seq<Project>, parent: Option<Seq<char>>, good: spec_fn(Project) -> bool)
    requires
        all_pass(group, good),
    ensures
        all_pass(subtree(group, parent), good),
{
    lemma_kids_pass(group, parent, good);
    lemma_forest_passes(group, kids(group, parent), group.len(), good);
}

/// The part of the folders, among projects that all pass, passes.
pub proof fn lemma_folders_part_passes(group: Seq<Project>, folders: Seq<Folder>, good: spec_fn(Project) -> bool)
    requires
        all_pass(group, good),
    ensures
        all_pass(folders_part(group, folders), good),
    decreases folders.len(),
{
    if folders.len() > 0 {
        let init = folders.drop_last();
        let f = folders.last();
        lemma_folders_part_passes(group, init, good);
        lemma_filter_passes(group, in_folder(f.id@), good);
        lemma_subtree_passes(group.filter(in_folder(f.id@)), None, good);
        lemma_joined_passes(
            folders_part(group, init),
            subtree(group.filter(in_folder(f.id@)), None),
            good,
        );
    }
}

/// The part of a workspace, among projects that all pass, passes.
pub proof fn lemma_workspace_part_passes(
    ps: Seq<Project>,
    ws: Seq<char>,
    folders: Seq<Folder>,
    good: spec_fn(Project) -> bool,
)
    requires
        all_pass(ps, good),
    ensures
        all_pass(workspace_part(ps, ws, folders), good),
{
    let group = ps.filter(in_workspace(ws));
    lemma_filter_passes(ps, in_workspace(ws), good);
    lemma_filter_passes(group, is_unfiled(), good);
    lemma_subtree_passes(group.filter(is_unfiled()), None, good);
    let sorted = sorted_by(folders.filter(folder_of(ws)), folder_rank());
    lemma_folders_part_passes(group, sorted, good);
    lemma_joined_passes(
        subtree(group.filter(is_unfiled()), None),
        folders_part(group, sorted),
        good,
    );
}

/// The parts of the workspaces, among projects that all pass, pass.
pub proof fn lemma_workspaces_part_passes(
    ps: Seq<Project>,
    wss: Seq<Workspace>,
    folders: Seq<Folder>,
    good: spec_fn(Project) -> bool,
)
    requires
        all_pass(ps, good),
    ensures
        all_pass(workspaces_part(ps, wss, folders), good),
    decreases wss.len(),
{
    if wss.len() > 0 {
        let init = wss.drop_last();
        let w = wss.last();
        lemma_workspaces_part_passes(ps, init, folders, good);
        lemma_workspace_part_passes(ps, w.id@, folders, good);
        lemma_joined_passes(
            workspaces_part(ps, init, folders),
            workspace_part(ps, w.id@, folders),
            good,
        );
    }
}

/// Putting projects in display order brings in no project: what holds of
/// every project of the list holds of every project of the ordered list.
pub proof fn lemma_project_order_passes(
    ps: Seq<Project>,
    wss: Seq<Workspace>,
    folders: Seq<Folder>,
    good: spec_fn(Project) -> bool,
)
    requires
        all_pass(ps, good),
    ensures
        all_pass(project_order(ps, wss, folders), good),
{
    lemma_filter_passes(ps, is_personal(), good);
    lemma_subtree_passes(ps.filter(is_personal()), None, good);
    lemma_workspaces_part_passes(ps, wss, folders, good);
    let r = reached(ps, wss, folders);
    lemma_joined_passes(
        subtree(ps.filter(is_personal()), None),
        workspaces_part(ps, wss, folders),
        good,
    );
    lemma_filter_passes(ps, not_among(ids_of(r)), good);
    lemma_joined_passes(r, ps.filter(not_among(ids_of(r))), good);
}

/// The test "is no tombstone".
pub open spec fn live<T: Entity>() -> spec_fn(T) -> bool {
    |e: T| !e.tombstone()
}

/// A collection that held no tombstone holds none after a list came in; in
/// a full sync a collection that the reply carries holds none in any case.
pub proof fn lemma_incoming_is_live<T: Entity>(current: Seq<T>, list: Option<Vec<T>>, full: bool)
    requires
        all_pass(current, live::<T>()) || (full && list is Some),
    ensures
        all_pass(incoming(current, list, full), live::<T>()),
{
    match list {
        Some(l) => {
            if full {
                lemma_without_tombstones(l@);
            } else {
                lemma_merge_keeps_alive(current, l@);
            }
        },
        None => {},
    }
}

/// Every comment of every bucket passes `good`.
pub open spec fn buckets_pass(m: Map<Seq<char>, Seq<Comment>>, good: spec_fn(Comment) -> bool) -> bool {
    forall|k: Seq<char>| m.contains_key(k) ==> all_pass(#[trigger] m[k], good)
}

/// The buckets hold no tombstone after the comments of a reply came in, if
/// they held none before; after a full sync that carries comments they hold
/// none in any case.
pub proof fn lemma_buckets_are_live(m: Map<Seq<char>, Seq<Comment>>, notes: Option<Vec<Comment>>, full: bool)
    requires
        buckets_pass(m, live::<Comment>()) || (full && notes is Some),
    ensures
        buckets_pass(buckets_after(m, notes, full), live::<Comment>()),
{
    match notes {
        Some(l) => {
            if full {
                lemma_filled_buckets_are_live(l@);
            } else {
                lemma_merged_buckets_are_live(m, l@);
            }
        },
        None => {},
    }
}

/// The buckets of a full sync hold no tombstone.
pub proof fn lemma_filled_buckets_are_live(notes: Seq<Comment>)
    ensures
        buckets_pass(
            notes.fold_left(
                Map::<Seq<char>, Seq<Comment>>::empty(),
                |acc: Map<Seq<char>, Seq<Comment>>, c: Comment| bucket_filled(acc, c),
            ),
            live::<Comment>(),
        ),
    decreases notes.len(),
{
    if notes.len() > 0 {
        let init = notes.drop_last();
        let c = notes.last();
        lemma_filled_buckets_are_live(init);
        let mid = init.fold_left(
            Map::<Seq<char>, Seq<Comment>>::empty(),
            |acc: Map<Seq<char>, Seq<Comment>>, c: Comment| bucket_filled(acc, c),
        );
        let after = bucket_filled(mid, c);
        assert forall|k: Seq<char>| after.contains_key(k) implies all_pass(
            #[trigger] after[k],
            live::<Comment>(),
        ) by {
            if !c.is_deleted && k == note_task(c) {
                if mid.contains_key(k) {
                    let b = mid[k];
                    assert(all_pass(b, live::<Comment>()));
                    assert forall|i: int| 0 <= i < b.push(c).len() implies (live::<Comment>())(
                        #[trigger] b.push(c)[i],
                    ) by {
                        if i < b.len() {
                            assert(b.push(c)[i] == b[i]);
                        }
                    }
                }
            } else {
                assert(mid.contains_key(k));
                assert(after[k] == mid[k]);
            }
        }
    }
}

/// The buckets of an incremental sync hold no tombstone if they held none.
pub proof fn lemma_merged_buckets_are_live(m: Map<Seq<char>, Seq<Comment>>, notes: Seq<Comment>)
    requires
        buckets_pass(m, live::<Comment>()),
    ensures
        buckets_pass(merged_buckets(m, notes), live::<Comment>()),
    decreases notes.len(),
{
    if notes.len() > 0 {
        let init = notes.drop_last();
        let c = notes.last();
        lemma_merged_buckets_are_live(m, init);
        let mid = merged_buckets(m, init);
        let after = bucket_merged(mid, c);
        assert(merged_buckets(m, notes) == after);
        assert forall|k: Seq<char>| after.contains_key(k) implies all_pass(
            #[trigger] after[k],
            live::<Comment>(),
        ) by {
            if k == note_task(c) {
                if mid.contains_key(k) {
                    let b = mid[k];
                    assert(all_pass(b, live::<Comment>()));
                    let d = seq![c];
                    assert(merge_all(b, d) == merge_one(b, c)) by {
                        assert(d.drop_last() =~= Seq::<Comment>::empty());
                        assert(merge_all(b, d.drop_last()) == b);
                    }
                    lemma_merge_keeps_alive(b, d);
                }
            } else {
                assert(mid.contains_key(k));
                assert(after[k] == mid[k]);
            }
        }
    }
}

/// No collection of the replica holds a tombstone.
pub open spec fn holds_no_tombstone(v: ReplicaView) -> bool {
    &&& all_pass(v.project_store, live::<Project>())
    &&& all_pass(v.projects, live::<Project>())
    &&& all_pass(v.workspaces, live::<Workspace>())
    &&& all_pass(v.folders, live::<Folder>())
    &&& all_pass(v.tasks, live::<Task>())
    &&& all_pass(v.labels, live::<Label>())
    &&& all_pass(v.sections, live::<Section>())
    &&& buckets_pass(v.comments_by_task, live::<Comment>())
}

/// **Full-replace monotonicity.** After a full sync, no collection that the
/// reply carried holds an entity that is marked as deleted.
pub proof fn lemma_full_sync_leaves_no_tombstone(v: ReplicaView, r: SyncResponse, now: u64)
    requires
        r.full_sync,
    ensures
        r.projects is Some ==> all_pass(synced(v, r, now).project_store, live::<Project>()),
        r.projects is Some ==> all_pass(synced(v, r, now).projects, live::<Project>()),
        r.workspaces is Some ==> all_pass(synced(v, r, now).workspaces, live::<Workspace>()),
        r.folders is Some ==> all_pass(synced(v, r, now).folders, live::<Folder>()),
        r.items is Some ==> all_pass(synced(v, r, now).tasks, live::<Task>()),
        r.labels is Some ==> all_pass(synced(v, r, now).labels, live::<Label>()),
        r.sections is Some ==> all_pass(synced(v, r, now).sections, live::<Section>()),
        r.notes is Some ==> buckets_pass(synced(v, r, now).comments_by_task, live::<Comment>()),
{
    if r.projects is Some {
        lemma_incoming_is_live(v.project_store, r.projects, true);
        lemma_project_order_passes(
            incoming(v.project_store, r.projects, true),
            synced(v, r, now).workspaces,
            synced(v, r, now).folders,
            live::<Project>(),
        );
    }
    if r.workspaces is Some {
        lemma_incoming_is_live(v.workspaces, r.workspaces, true);
    }
    if r.folders is Some {
        lemma_incoming_is_live(v.folders, r.folders, true);
    }
    if r.items is Some {
        lemma_incoming_is_live(v.tasks, r.items, true);
    }
    if r.labels is Some {
        lemma_incoming_is_live(v.labels, r.labels, true);
    }
    if r.sections is Some {
        lemma_incoming_is_live(v.sections, r.sections, true);
    }
    if r.notes is Some {
        lemma_buckets_are_live(v.comments_by_task, r.notes, true);
    }
}

/// A replica that holds no tombstone holds none after any sync, so that a
/// replica that started empty never holds one.
pub proof fn lemma_sync_keeps_replica_live(v: ReplicaView, r: SyncResponse, now: u64)
    requires
        holds_no_tombstone(v),
    ensures
        holds_no_tombstone(synced(v, r, now)),
{
    let f = r.full_sync;
    lemma_incoming_is_live(v.project_store, r.projects, f);
    lemma_project_order_passes(
        incoming(v.project_store, r.projects, f),
        synced(v, r, now).workspaces,
        synced(v, r, now).folders,
        live::<Project>(),
    );
    lemma_incoming_is_live(v.workspaces, r.workspaces, f);
    lemma_incoming_is_live(v.folders, r.folders, f);
    lemma_incoming_is_live(v.tasks, r.items, f);
    lemma_incoming_is_live(v.labels, r.labels, f);
    lemma_incoming_is_live(v.sections, r.sections, f);
    lemma_buckets_are_live(v.comments_by_task, r.notes, f);
}

/// How many entities of `s` have the key `k`.
pub open spec fn occurrences<T: Entity>(s: Seq<T>, k: Seq<char>) -> nat
    decreases s.len(),
{
    if s.len() == 0 {
        0
    } else if s.last().key() == k {
        occurrences(s.drop_last(), k) + 1
    } else {
        occurrences(s.drop_last(), k)
    }
}

/// A key occurs in a collection just if it is not absent from it.
pub proof fn lemma_occurrences_absent<T: Entity>(s: Seq<T>, k: Seq<char>)
    ensures
        occurrences(s, k) == 0 <==> absent(s, k),
    decreases s.len(),
{
    if s.len() > 0 {
        let init = s.drop_last();
        lemma_occurrences_absent(init, k);
        if absent(s, k) {
            assert(s[s.len() - 1].key() != k);
            assert forall|i: int| 0 <= i < init.len() implies init[i].key() != k by {
                assert(init[i] == s[i]);
            }
        }
        if occurrences(s, k) == 0 {
            assert forall|i: int| 0 <= i < s.len() implies s[i].key() != k by {
                if i < s.len() - 1 {
                    assert(init[i] == s[i]);
                }
            }
        }
    }
}

/// Removing the entities of a key leaves the count of any other key.
pub proof fn lemma_occurrences_without<T: Entity>(s: Seq<T>, q: Seq<char>, k: Seq<char>)
    requires
        q != k,
    ensures
        occurrences(without_key(s, q), k) == occurrences(s, k),
    decreases s.len(),
{
    reveal(Seq::filter);
    if s.len() > 0 {
        let init = s.drop_last();
        lemma_occurrences_without(init, q, k);
        let g = without_key(init, q);
        if s.last().key() != q {
            assert(without_key(s, q) == g.push(s.last()));
            assert(g.push(s.last()).drop_last() == g);
        } else {
            assert(without_key(s, q) == g);
        }
    }
}

/// Replacing an entity by one of the same key leaves every count.
pub proof fn lemma_occurrences_update<T: Entity>(s: Seq<T>, i: int, e: T, k: Seq<char>)
    requires
        0 <= i < s.len(),
        s[i].key() == e.key(),
    ensures
        occurrences(s.update(i, e), k) == occurrences(s, k),
    decreases s.len(),
{
    let u = s.update(i, e);
    if i == s.len() - 1 {
        assert(u.drop_last() == s.drop_last());
    } else {
        assert(u.drop_last() == s.drop_last().update(i, e));
        assert(u.last() == s.last());
        lemma_occurrences_update(s.drop_last(), i, e, k);
    }
}

/// What one record of a delta does to the count of a key: a record of
/// another key leaves it; a tombstone of the key brings it to none; a live
/// record of the key brings a count of none to one and leaves any other.
pub proof fn lemma_occurrences_merge_one<T: Entity>(s: Seq<T>, e: T, k: Seq<char>)
    ensures
        e.key() != k ==> occurrences(merge_one(s, e), k) == occurrences(s, k),
        e.key() == k && e.tombstone() ==> occurrences(merge_one(s, e), k) == 0,
        e.key() == k && !e.tombstone() ==> occurrences(merge_one(s, e), k) == (if occurrences(s, k)
            == 0 {
            1
        } else {
            occurrences(s, k)
        }),
{
    lemma_first_index(s, e.key());
    let i = first_index(s, e.key());
    if e.tombstone() {
        if e.key() == k {
            lemma_without_key(s, k);
            lemma_occurrences_absent(without_key(s, k), k);
        } else {
            lemma_occurrences_without(s, e.key(), k);
        }
    } else if i < s.len() {
        lemma_occurrences_update(s, i, e, k);
        if e.key() == k {
            lemma_occurrences_absent(s, k);
        }
    } else {
        assert(s.push(e).drop_last() == s);
        if e.key() == k {
            lemma_occurrences_absent(s, k);
        }
    }
}

/// A delta without a record of the key `k` leaves the count of `k`.
pub proof fn lemma_occurrences_merge_all<T: Entity>(s: Seq<T>, delta: Seq<T>, k: Seq<char>)
    requires
        absent(delta, k),
    ensures
        occurrences(merge_all(s, delta), k) == occurrences(s, k),
    decreases delta.len(),
{
    if delta.len() > 0 {
        let init = delta.drop_last();
        assert forall|i: int| 0 <= i < init.len() implies init[i].key() != k by {
            assert(init[i] == delta[i]);
        }
        lemma_occurrences_merge_all(s, init, k);
        assert(delta[delta.len() - 1].key() != k);
        lemma_occurrences_merge_one(merge_all(s, init), delta.last(), k);
    }
}

/// A delta never brings the count of a key from at most one to more.
pub proof fn lemma_occurrences_stay_single<T: Entity>(s: Seq<T>, delta: Seq<T>, k: Seq<char>)
    requires
        occurrences(s, k) <= 1,
    ensures
        occurrences(merge_all(s, delta), k) <= 1,
    decreases delta.len(),
{
    if delta.len() > 0 {
        let init = delta.drop_last();
        lemma_occurrences_stay_single(s, init, k);
        lemma_occurrences_merge_one(merge_all(s, init), delta.last(), k);
    }
}

/// Renaming turns the tasks of the temporary id into tasks of the assigned
/// id and leaves the others.
pub proof fn lemma_occurrences_renamed(
    before: Seq<Task>,
    after: Seq<Task>,
    temp: Seq<char>,
    actual: Seq<char>,
)
    requires
        tasks_renamed(before, after, temp, actual),
        temp != actual,
    ensures
        occurrences(after, temp) == 0,
        occurrences(after, actual) == occurrences(before, temp) + occurrences(before, actual),
    decreases before.len(),
{
    if before.len() > 0 {
        let b = before.drop_last();
        let a = after.drop_last();
        assert(tasks_renamed(b, a, temp, actual)) by {
            assert forall|i: int| 0 <= i < b.len() implies task_renamed(
                b[i],
                #[trigger] a[i],
                temp,
                actual,
            ) by {
                assert(b[i] == before[i]);
                assert(a[i] == after[i]);
            }
        }
        lemma_occurrences_renamed(b, a, temp, actual);
        assert(task_renamed(before[before.len() - 1], after[after.len() - 1], temp, actual));
    } else {
        assert(after.len() == 0);
    }
}

/// No comment of `list` carries the id `id`, as its own id or as the id of
/// its task.
pub open spec fn carries_nowhere(list: Seq<Comment>, id: Seq<char>) -> bool {
    forall|i: int| 0 <= i < list.len() ==> !comment_carries(#[trigger] list[i], id)
}

/// A renamed list of comments carries the temporary id nowhere.
pub proof fn lemma_renamed_carries_nowhere(
    before: Seq<Comment>,
    after: Seq<Comment>,
    temp: Seq<char>,
    actual: Seq<char>,
)
    requires
        comments_renamed(before, after, temp, actual),
        temp != actual,
    ensures
        carries_nowhere(after, temp),
{
    assert forall|i: int| 0 <= i < after.len() implies !comment_carries(#[trigger] after[i], temp) by {
        assert(comment_renamed(before[i], after[i], temp, actual));
    }
}

/// **Round trip of a temporary id.** Once the reply to a command that added
/// a task has mapped the temporary id `temp` to the id `actual`, no task
/// carries `temp`, and no comment does, in the open detail or in any bucket,
/// as its own id or as the id of its task; no bucket is kept under `temp`;
/// and every comment that belonged to the task `temp` belongs to the task
/// `actual`. When the next delta then brings the task `actual`, the replica
/// holds exactly one task of that id, provided that it held at most one task
/// of the two ids before, and still none of the temporary id.
pub proof fn lemma_temp_id_round_trip(
    pre: App,
    post: App,
    temp: Seq<char>,
    actual: Seq<char>,
    delta: Seq<Task>,
    at: int,
)
    requires
        App::mapped(pre, post, temp, actual),
        temp != actual,
        occurrences(pre.tasks@, temp) + occurrences(pre.tasks@, actual) <= 1,
        distinct_keys(delta),
        absent(delta, temp),
        0 <= at < delta.len(),
        delta[at].key() == actual,
        !delta[at].tombstone(),
    ensures
        absent(post.tasks@, temp),
        carries_nowhere(post.comments@, temp),
        !post.comments_by_task@.contains_key(temp),
        forall|k: Seq<char>| #[trigger]
            post.comments_by_task@.contains_key(k) ==> carries_nowhere(
                post.comments_by_task@[k]@,
                temp,
            ),
        forall|i: int|
            0 <= i < pre.comments@.len() && (#[trigger] pre.comments@[i]).item_id.deep_view()
                == Some(temp) ==> post.comments@[i].item_id.deep_view() == Some(actual),
        forall|i: int|
            0 <= i < pre.comments@.len() && (#[trigger] pre.comments@[i]).task_id.deep_view()
                == Some(temp) ==> post.comments@[i].task_id.deep_view() == Some(actual),
        occurrences(merge_all(post.tasks@, delta), actual) == 1,
        absent(merge_all(post.tasks@, delta), temp),
{
    lemma_renamed_carries_nowhere(pre.comments@, post.comments@, temp, actual);
    let before = pre.comments_by_task@;
    let after = post.comments_by_task@;
    let rest = before.remove(temp);
    assert(after.contains_key(temp) == (rest.contains_key(temp) || (temp == actual
        && before.contains_key(temp))));
    assert forall|k: Seq<char>| #[trigger] after.contains_key(k) implies carries_nowhere(
        after[k]@,
        temp,
    ) by {
        assert(after.contains_key(k) == (rest.contains_key(k) || (k == actual
            && before.contains_key(temp))));
        if k == actual && before.contains_key(temp) {
            lemma_renamed_carries_nowhere(
                joined_bucket(rest, before[temp]@, actual),
                after[actual]@,
                temp,
                actual,
            );
        } else {
            assert(comments_renamed(rest[k]@, after[k]@, temp, actual));
            lemma_renamed_carries_nowhere(rest[k]@, after[k]@, temp, actual);
        }
    }
    assert forall|i: int|
        0 <= i < pre.comments@.len() && (#[trigger] pre.comments@[i]).task_id.deep_view() == Some(
            temp,
        ) implies post.comments@[i].task_id.deep_view() == Some(actual) by {
        assert(comment_renamed(pre.comments@[i], post.comments@[i], temp, actual));
    }
    lemma_occurrences_renamed(pre.tasks@, post.tasks@, temp, actual);
    lemma_occurrences_absent(post.tasks@, temp);
    assert forall|i: int|
        0 <= i < pre.comments@.len() && (#[trigger] pre.comments@[i]).item_id.deep_view() == Some(
            temp,
        ) implies post.comments@[i].item_id.deep_view() == Some(actual) by {
        assert(comment_renamed(pre.comments@[i], post.comments@[i], temp, actual));
    }
    let merged = merge_all(post.tasks@, delta);
    lemma_occurrences_merge_all(post.tasks@, delta, temp);
    lemma_occurrences_absent(merged, temp);
    lemma_occurrences_stay_single(post.tasks@, delta, actual);
    lemma_merge_all_settles(post.tasks@, delta);
    assert(settled(merged, delta[at]));
    lemma_first_index(merged, actual);
    lemma_occurrences_absent(merged, actual);
}

/// Whether two states hold the same entities: every collection of the one
/// holds what the same collection of the other holds.
pub open spec fn same_entities(a: App, b: App) -> bool {
    &&& a.project_store@ == b.project_store@
    &&& a.projects@ == b.projects@
    &&& a.workspaces@ == b.workspaces@
    &&& a.folders@ == b.folders@
    &&& a.labels@ == b.labels@
    &&& a.sections@ == b.sections@
    &&& a.tasks.deep_view() == b.tasks.deep_view()
    &&& a.comments.deep_view() == b.comments.deep_view()
    &&& a.comments_by_task@ == b.comments_by_task@
    &&& a.completed_cache@ == b.completed_cache@
}

/// Collections with the same keys at the same places find a key at the same
/// place.
pub proof fn lemma_first_index_by_keys<T: Entity>(s: Seq<T>, t: Seq<T>, k: Seq<char>)
    requires
        s.len() == t.len(),
        forall|i: int| 0 <= i < s.len() ==> s[i].key() == t[i].key(),
    ensures
        first_index(s, k) == first_index(t, k),
{
    lemma_first_index(s, k);
    lemma_first_index(t, k);
    let i = first_index(s, k);
    let j = first_index(t, k);
    if i < j {
        assert(t[i].key() == s[i].key());
    } else if j < i {
        assert(s[j].key() == t[j].key());
    }
}

/// Undoing a change of the first task of id `id` with a copy of the task as
/// it was restores the tasks.
pub proof fn lemma_undo_restores_tasks(
    tasks: Seq<Task>,
    id: Seq<char>,
    change: spec_fn(Task) -> Task,
    before: Task,
)
    requires
        forall|t: Task| (#[trigger] change(t)).id@ == t.id@,
        match copy_of_first(tasks, id) {
            Some(v) => before.deep_view() == v,
            None => true,
        },
    ensures
        task_views(first_changed(first_changed(tasks, id, change), id, replacing(before)))
            == task_views(tasks),
{
    let i = first_index(tasks, id);
    let mid = first_changed(tasks, id, change);
    lemma_first_index(tasks, id);
    if i < tasks.len() {
        assert forall|j: int| 0 <= j < tasks.len() implies tasks[j].key() == mid[j].key() by {}
        lemma_first_index_by_keys(tasks, mid, id);
    }
    let end = first_changed(mid, id, replacing(before));
    assert(task_views(end) =~= task_views(tasks));
}

/// The views of a list of tasks.
pub open spec fn task_views(s: Seq<Task>) -> Seq<TaskView> {
    Seq::new(s.len(), |i: int| s[i].deep_view())
}

/// A record of a pending command is kept just where its view is kept.
pub proof fn lemma_pending_views(m: Map<Seq<char>, PendingOp>, k: Seq<char>)
    ensures
        pending_views(m).contains_key(k) == m.contains_key(k),
        m.contains_key(k) ==> pending_views(m)[k] == m[k].deep_view(),
{
}

/// What is known of a command that was just issued and is refused next: its
/// record is the one that was kept for it.
pub proof fn lemma_refused_finds_record(
    pre: App,
    mid: App,
    uuid: Seq<char>,
    kind: CommandKind,
    undo: Option<UndoView>,
)
    requires
        pending_views(mid.temp_id_pending@) == recorded(
            pending_views(pre.temp_id_pending@),
            uuid,
            kind,
            undo,
        ),
        !pre.temp_id_pending@.contains_key(uuid),
    ensures
        match undo {
            Some(u) => mid.temp_id_pending@.contains_key(uuid) && mid.temp_id_pending@[uuid].undo.deep_view()
                == u,
            None => !mid.temp_id_pending@.contains_key(uuid),
        },
{
    lemma_pending_views(pre.temp_id_pending@, uuid);
    lemma_pending_views(mid.temp_id_pending@, uuid);
    match undo {
        Some(u) => {
            assert(pending_views(mid.temp_id_pending@).contains_key(uuid));
            assert(pending_views(mid.temp_id_pending@)[uuid] == (PendingView { kind, undo: u }));
        },
        None => {},
    }
}

/// **Rollback of a completion.** When the command that completes or reopens
/// the task under the cursor is refused, the replica holds what it held
/// before the command, provided that the uuid of the command was not in use.
pub proof fn lemma_rollback_toggle(pre: App, mid: App, post: App, e: SyncCommandError)
    requires
        App::toggled_completion(pre, mid),
        App::outcome_applied(
            mid,
            post,
            uuid_text(pre.now_nanos, pre.command_counter),
            SyncCommandResult::Rejected(e),
        ),
        !pre.temp_id_pending@.contains_key(uuid_text(pre.now_nanos, pre.command_counter)),
    ensures
        same_entities(pre, post),
{
    let uuid = uuid_text(pre.now_nanos, pre.command_counter);
    match row_at(pre.rows(), pre.selected_task) {
        None => {},
        Some(row) => {
            let before = copy_of_first(pre.tasks@, row.id@);
            lemma_refused_finds_record(pre, mid, uuid, toggle_kind(row), update_undo(row.id@, before));
            match before {
                Some(b) => {
                    let op = mid.temp_id_pending@[uuid].undo;
                    match op {
                        OptimisticOp::TaskUpdated { task_id, before: copy } => {
                            lemma_undo_restores_tasks(
                                pre.tasks@,
                                row.id@,
                                checking(!row.checked),
                                copy,
                            );
                            assert(post.tasks.deep_view() =~= task_views(post.tasks@));
                            assert(pre.tasks.deep_view() =~= task_views(pre.tasks@));
                        },
                        _ => {},
                    }
                },
                None => {
                    lemma_first_index(pre.tasks@, row.id@);
                },
            }
        },
    }
}

/// The row under the cursor is the replica's own task of its id, or is no
/// task of the replica at all, as a fetched completed task is.
pub open spec fn row_is_first(tasks: Seq<Task>, row: Task) -> bool {
    match copy_of_first(tasks, row.id@) {
        Some(v) => v == row.deep_view(),
        None => true,
    }
}

/// **Rollback of a priority.** When the command that sets the priority of
/// the task under the cursor is refused, the replica holds what it held
/// before.
pub proof fn lemma_rollback_priority(pre: App, mid: App, post: App, p: u8, e: SyncCommandError)
    requires
        App::prioritized(pre, mid, p),
        App::outcome_applied(
            mid,
            post,
            uuid_text(pre.now_nanos, pre.command_counter),
            SyncCommandResult::Rejected(e),
        ),
        !pre.temp_id_pending@.contains_key(uuid_text(pre.now_nanos, pre.command_counter)),
        match row_at(pre.rows(), pre.selected_task) {
            Some(row) => row_is_first(pre.tasks@, row),
            None => true,
        },
    ensures
        same_entities(pre, post),
{
    let uuid = uuid_text(pre.now_nanos, pre.command_counter);
    match row_at(pre.rows(), pre.selected_task) {
        None => {},
        Some(row) => {
            if row.priority != p {
                lemma_refused_finds_record(
                    pre,
                    mid,
                    uuid,
                    CommandKind::TaskUpdate,
                    Some(UndoView::TaskUpdated { task_id: row.id@, before: row.deep_view() }),
                );
                let op = mid.temp_id_pending@[uuid].undo;
                match op {
                    OptimisticOp::TaskUpdated { task_id, before: copy } => {
                        lemma_undo_restores_tasks(pre.tasks@, row.id@, prioritizing(p), copy);
                        assert(post.tasks.deep_view() =~= task_views(post.tasks@));
                        assert(pre.tasks.deep_view() =~= task_views(pre.tasks@));
                    },
                    _ => {},
                }
            }
        },
    }
}

/// **Rollback of an edit.** When the command that sets a field of the task
/// under the cursor is refused, the replica holds what it held before.
pub proof fn lemma_rollback_field_edit(pre: App, mid: App, post: App, value: String, e: SyncCommandError)
    requires
        App::field_edited(pre, mid, value),
        App::outcome_applied(
            mid,
            post,
            uuid_text(pre.now_nanos, pre.command_counter),
            SyncCommandResult::Rejected(e),
        ),
        !pre.temp_id_pending@.contains_key(uuid_text(pre.now_nanos, pre.command_counter)),
        match row_at(pre.rows(), pre.selected_task) {
            Some(row) => row_is_first(pre.tasks@, row),
            None => true,
        },
    ensures
        same_entities(pre, post),
{
    let uuid = uuid_text(pre.now_nanos, pre.command_counter);
    let field = pre.detail_field;
    match row_at(pre.rows(), pre.selected_task) {
        None => {},
        Some(row) => {
            if field == 0 || field == 2 || field == 3 {
                lemma_refused_finds_record(
                    pre,
                    mid,
                    uuid,
                    CommandKind::TaskUpdate,
                    Some(UndoView::TaskUpdated { task_id: row.id@, before: row.deep_view() }),
                );
                let op = mid.temp_id_pending@[uuid].undo;
                match op {
                    OptimisticOp::TaskUpdated { task_id, before: copy } => {
                        if field == 0 {
                            lemma_undo_restores_tasks(pre.tasks@, row.id@, retitling(value), copy);
                        } else if field == 3 {
                            lemma_undo_restores_tasks(pre.tasks@, row.id@, describing(value), copy);
                        } else {
                            lemma_undo_restores_tasks(pre.tasks@, row.id@, |t: Task| t, copy);
                            lemma_first_index(pre.tasks@, row.id@);
                            assert(first_changed(pre.tasks@, row.id@, |t: Task| t) =~= pre.tasks@);
                        }
                        assert(post.tasks.deep_view() =~= task_views(post.tasks@));
                        assert(pre.tasks.deep_view() =~= task_views(pre.tasks@));
                    },
                    _ => {},
                }
            }
        },
    }
}

/// **Rollback of an added task.** When the command that adds a task is
/// refused, the replica holds what it held before the form was submitted,
/// provided that no task carried the temporary id.
pub proof fn lemma_rollback_task_add(pre: App, mid: App, post: App, e: SyncCommandError)
    requires
        App::form_submitted(pre, mid),
        App::outcome_applied(
            mid,
            post,
            uuid_text(pre.now_nanos, counter_after(pre.command_counter)),
            SyncCommandResult::Rejected(e),
        ),
        !pre.temp_id_pending@.contains_key(
            uuid_text(pre.now_nanos, counter_after(pre.command_counter)),
        ),
        absent(pre.tasks@, temp_id_text(pre.command_counter)),
    ensures
        same_entities(pre, post),
{
    let uuid = uuid_text(pre.now_nanos, counter_after(pre.command_counter));
    let temp = temp_id_text(pre.command_counter);
    match pre.task_form {
        None => {},
        Some(form) => {
            if trimmed(form.content@).len() != 0 {
                lemma_refused_finds_record(
                    pre,
                    mid,
                    uuid,
                    CommandKind::TaskAdd,
                    Some(UndoView::TaskAdded { temp_id: temp }),
                );
                let added = mid.tasks@.last();
                assert(mid.tasks@ == pre.tasks@.push(added));
                reveal(Seq::filter);
                assert(added.key() == temp);
                assert(without_key(mid.tasks@, temp) == without_key(pre.tasks@, temp));
                lemma_without_key(pre.tasks@, temp);
            }
        },
    }
}

/// **Rollback of an added comment.** When the command that adds a comment is
/// refused, the replica holds what it held before, provided that no comment
/// of the open detail carried the temporary id.
pub proof fn lemma_rollback_comment_add(pre: App, mid: App, post: App, content: String, e: SyncCommandError)
    requires
        App::comment_submitted(pre, mid, content),
        App::outcome_applied(
            mid,
            post,
            uuid_text(pre.now_nanos, counter_after(pre.command_counter)),
            SyncCommandResult::Rejected(e),
        ),
        !pre.temp_id_pending@.contains_key(
            uuid_text(pre.now_nanos, counter_after(pre.command_counter)),
        ),
        absent(pre.comments@, temp_id_text(pre.command_counter)),
    ensures
        same_entities(pre, post),
{
    let uuid = uuid_text(pre.now_nanos, counter_after(pre.command_counter));
    let temp = temp_id_text(pre.command_counter);
    match row_at(pre.rows(), pre.selected_task) {
        None => {},
        Some(row) => {
            lemma_refused_finds_record(
                pre,
                mid,
                uuid,
                CommandKind::CommentAdd,
                Some(UndoView::CommentAdded { temp_id: temp, task_id: row.id@ }),
            );
            let added = mid.comments@.last();
            assert(mid.comments@ == pre.comments@.push(added));
            reveal(Seq::filter);
            assert(added.key() == temp);
            assert(without_key(mid.comments@, temp) == without_key(pre.comments@, temp));
            lemma_without_key(pre.comments@, temp);
        },
    }
}

/// Whether each state of `states` but the first is what a push event made
/// of the state before it.
pub open spec fn pushes_handled(states: Seq<App>) -> bool {
    forall|i: int|
        0 <= i < states.len() - 1 ==> App::push_event_handled(states[i], #[trigger] states[i + 1])
}

/// While the user is idle, push events ask for nothing: they leave the
/// state as it is but for the note that a sync is owed.
pub proof fn lemma_idle_pushes_wait(states: Seq<App>, n: int)
    requires
        states.len() >= 1,
        states[0].idle(),
        pushes_handled(states),
        0 <= n < states.len(),
    ensures
        states[n] == (App {
            websocket_connected: states[n].websocket_connected,
            pending_ws_sync: states[n].pending_ws_sync,
            ..states[0]
        }),
        n >= 1 ==> states[n].pending_ws_sync,
    decreases n,
{
    if n > 0 {
        lemma_idle_pushes_wait(states, n - 1);
        assert(App::push_event_handled(states[n - 1], states[n - 1 + 1]));
        assert(states[n - 1].idle());
    }
}

/// **Idle coalescing.** However many push events come in while the user is
/// idle, they ask for no sync; the first key press after them asks for
/// exactly one, and owes none afterwards.
pub proof fn lemma_idle_coalescing(states: Seq<App>, post: App)
    requires
        states.len() >= 2,
        states[0].idle(),
        pushes_handled(states),
        App::activity_noted(states.last(), post),
    ensures
        forall|i: int| 0 <= i < states.len() ==> (#[trigger] states[i]).outbox == states[0].outbox,
        post.outbox.deep_view() == states[0].outbox.deep_view().push(
            EffectView::Sync(delta_request_view(states[0].sync_token@)),
        ),
        !post.pending_ws_sync,
{
    assert forall|i: int| 0 <= i < states.len() implies (#[trigger] states[i]).outbox
        == states[0].outbox by {
        lemma_idle_pushes_wait(states, i);
    }
    lemma_idle_pushes_wait(states, states.len() - 1);
}

/// While the user is not idle, each push event asks for exactly one sync.
pub proof fn lemma_active_push_syncs(pre: App, post: App)
    requires
        !pre.idle(),
        App::push_event_handled(pre, post),
    ensures
        post.outbox.deep_view() == pre.outbox.deep_view().push(
            EffectView::Sync(delta_request_view(pre.sync_token@)),
        ),
        post.pending_ws_sync == pre.pending_ws_sync,
{
}

/// The token that an event brings: that of the reply it carries, where the
/// reply has one. A failure brings none.
pub open spec fn token_of(event: BgResult) -> Option<Seq<char>> {
    match event {
        BgResult::InitialSync(r) => if r.sync_token@.len() > 0 {
            Some(r.sync_token@)
        } else {
            None
        },
        BgResult::SyncDelta(r) => if r.sync_token@.len() > 0 {
            Some(r.sync_token@)
        } else {
            None
        },
        BgResult::CommandResults(r) => if r.sync_token@.len() > 0 {
            Some(r.sync_token@)
        } else {
            None
        },
        _ => None,
    }
}

/// The token after an event.
pub open spec fn token_after(token: Seq<char>, event: BgResult) -> Seq<char> {
    match token_of(event) {
        Some(t) => t,
        None => token,
    }
}

/// The token after a run of events: that of the last event that brought
/// one, and the token before the run where none did.
pub open spec fn token_after_all(token: Seq<char>, events: Seq<BgResult>) -> Seq<char> {
    events.fold_left(token, |t: Seq<char>, e: BgResult| token_after(t, e))
}

/// The outcomes of commands leave the token.
pub proof fn lemma_outcomes_keep_token(states: Seq<App>, outcomes: Seq<(String, SyncCommandResult)>)
    requires
        App::outcomes_applied(states, outcomes),
    ensures
        states.last().sync_token == states[0].sync_token,
        states.last().ephemeral == states[0].ephemeral,
    decreases outcomes.len(),
{
    if outcomes.len() > 0 {
        let n = outcomes.len() as int;
        let init = states.drop_last();
        let outs = outcomes.drop_last();
        assert(App::outcomes_applied(init, outs)) by {
            assert forall|i: int| 0 <= i < outs.len() implies App::outcome_applied(
                init[i],
                #[trigger] init[i + 1],
                outs[i].0@,
                outs[i].1,
            ) by {
                assert(init[i] == states[i]);
                assert(init[i + 1] == states[i + 1]);
                assert(outs[i] == outcomes[i]);
            }
        }
        lemma_outcomes_keep_token(init, outs);
        assert(App::outcome_applied(
            states[n - 1],
            states[n - 1 + 1],
            outcomes[n - 1].0@,
            outcomes[n - 1].1,
        ));
        assert(init.last() == states[n - 1]);
    }
}

/// The mappings of temporary ids leave the token.
pub proof fn lemma_mappings_keep_token(states: Seq<App>, mappings: Seq<(String, String)>)
    requires
        App::mappings_applied(states, mappings),
    ensures
        states.last().sync_token == states[0].sync_token,
        states.last().ephemeral == states[0].ephemeral,
    decreases mappings.len(),
{
    if mappings.len() > 0 {
        let n = mappings.len() as int;
        let init = states.drop_last();
        let maps = mappings.drop_last();
        assert(App::mappings_applied(init, maps)) by {
            assert forall|i: int| 0 <= i < maps.len() implies App::mapped(
                init[i],
                #[trigger] init[i + 1],
                maps[i].0@,
                maps[i].1@,
            ) by {
                assert(init[i] == states[i]);
                assert(init[i + 1] == states[i + 1]);
                assert(maps[i] == mappings[i]);
            }
        }
        lemma_mappings_keep_token(init, maps);
        assert(App::mapped(states[n - 1], states[n - 1 + 1], mappings[n - 1].0@, mappings[n - 1].1@));
        assert(init.last() == states[n - 1]);
    }
}

/// A sync reply that was applied brings its token, where it has one.
pub proof fn lemma_sync_token(pre: App, post: App, r: SyncResponse)
    requires
        App::sync_applied(pre, post, r),
    ensures
        post.sync_token@ == new_token(pre.sync_token@, r.sync_token@),
{
    assert(post.replica().sync_token == synced(pre.replica(), r, pre.now_secs).sync_token);
}

/// The reply to the first sync brings its token, where it has one.
pub proof fn lemma_initial_sync_token(pre: App, post: App, r: SyncResponse)
    requires
        App::initial_sync_applied(pre, post, r),
    ensures
        post.sync_token@ == new_token(pre.sync_token@, r.sync_token@),
{
    let mid = choose|mid: App| #[trigger]
        App::sync_applied(pre, mid, r) && match mid.websocket_url {
            Some(url) => {
                &&& post.outbox.deep_view() == mid.outbox.deep_view().push(
                    EffectView::StartPush(url@),
                )
                &&& post == (App { outbox: post.outbox, ..mid })
            },
            None => post == mid,
        };
    lemma_sync_token(pre, mid, r);
}

/// The reply to a batch of commands brings its token, where it has one.
pub proof fn lemma_reconciled_token(pre: App, post: App, r: SyncResponse)
    requires
        App::reconciled(pre, post, r),
    ensures
        post.sync_token@ == new_token(pre.sync_token@, r.sync_token@),
{
    let (a, b) = choose|a: Seq<App>, b: Seq<App>|
        {
            &&& #[trigger] App::outcomes_applied(a, r.sync_status@)
            &&& #[trigger] App::mappings_applied(b, r.temp_id_mapping@)
            &&& a[0] == pre
            &&& b[0] == a.last()
            &&& App::token_adopted(b.last(), post, r.sync_token@)
        };
    lemma_outcomes_keep_token(a, r.sync_status@);
    lemma_mappings_keep_token(b, r.temp_id_mapping@);
}

/// What an event does to the token: a reply that carries a token replaces
/// it, and anything else, a failed call among them, leaves it.
pub proof fn lemma_event_token(pre: App, post: App, event: BgResult)
    requires
        App::handled(pre, post, event),
    ensures
        post.sync_token@ == token_after(pre.sync_token@, event),
{
    match event {
        BgResult::InitialSync(r) => {
            lemma_initial_sync_token(pre, post, r);
        },
        BgResult::InitialSyncFailed(raw) => {
            assert(App::error_set(pre, post, raw@, "Initial sync"@));
        },
        BgResult::SyncDelta(r) => {
            lemma_sync_token(pre, post, r);
        },
        BgResult::SyncFailed(_) => {},
        BgResult::CommandResults(r) => {
            lemma_reconciled_token(pre, post, r);
        },
        BgResult::FlushFailed(_) => {},
        BgResult::CompletedTasks { project_id, records } => {
            match records {
                Ok(list) => {
                    assert(App::completed_arrived(pre, post, project_id@, list));
                },
                Err(raw) => {
                    assert(App::error_set(pre, post, raw@, "Load completed tasks"@));
                },
            }
        },
        BgResult::WebSocketConnected => {},
        BgResult::WebSocketEvent => {
            assert(App::push_event_handled(pre, post));
        },
        BgResult::WebSocketDisconnected => {},
        BgResult::Comments { task_id, comments, fetch_seq } => {
            match comments {
                Ok(list) => {
                    assert(App::comments_arrived(pre, post, task_id@, list, fetch_seq));
                },
                Err(raw) => {
                    assert(App::error_set(pre, post, raw@, "Load comments"@));
                },
            }
        },
    }
}

/// **Sync-token monotonicity.** After any run of events the token is that
/// of the most recent reply that was applied and carried one; failed calls
/// do not alter it.
pub proof fn lemma_token_follows_replies(states: Seq<App>, events: Seq<BgResult>)
    requires
        App::events_handled(states, events),
    ensures
        states.last().sync_token@ == token_after_all(states[0].sync_token@, events),
    decreases events.len(),
{
    if events.len() > 0 {
        let n = events.len() as int;
        let init = states.drop_last();
        let evs = events.drop_last();
        assert(App::events_handled(init, evs)) by {
            assert forall|i: int| 0 <= i < evs.len() implies App::handled(
                init[i],
                #[trigger] init[i + 1],
                evs[i],
            ) by {
                assert(init[i] == states[i]);
                assert(init[i + 1] == states[i + 1]);
                assert(evs[i] == events[i]);
            }
        }
        lemma_token_follows_replies(init, evs);
        assert(App::handled(states[n - 1], states[n - 1 + 1], events[n - 1]));
        lemma_event_token(states[n - 1], states[n], events[n - 1]);
        assert(init.last() == states[n - 1]);
        assert(init[0] == states[0]);
    }
}

/// The token that is written to disk is the token of the reply: a reply
/// that carries a token asks for just that token to be written, unless
/// nothing is to be written at all, and a reply without token asks for
/// nothing.
pub proof fn lemma_token_is_persisted(pre: App, post: App, resp: SyncResponse)
    requires
        App::sync_applied(pre, post, resp),
    ensures
        post.outbox.deep_view() == (if resp.sync_token@.len() > 0 && !pre.ephemeral {
            pre.outbox.deep_view().push(EffectView::SaveSyncToken(post.sync_token@))
        } else {
            pre.outbox.deep_view()
        }),
{
    assert(pre.outbox.deep_view() + Seq::<EffectView>::empty() =~= pre.outbox.deep_view());
    assert(pre.outbox.deep_view() + seq![EffectView::SaveSyncToken(resp.sync_token@)]
        =~= pre.outbox.deep_view().push(EffectView::SaveSyncToken(resp.sync_token@)));
}

/// No text sorts before itself.
pub proof fn lemma_lex_lt_irreflexive(a: Seq<char>)
    ensures
        !lex_lt(a, a),
    decreases a.len(),
{
    if a.len() > 0 {
        lemma_lex_lt_irreflexive(a.drop_first());
    }
}

/// A text that sorts before a second, which sorts before a third, sorts
/// before the third.
pub proof fn lemma_lex_lt_transitive(a: Seq<char>, b: Seq<char>, c: Seq<char>)
    requires
        lex_lt(a, b),
        lex_lt(b, c),
    ensures
        lex_lt(a, c),
    decreases a.len(),
{
    if a.len() > 0 && b.len() > 0 && c.len() > 0 {
        if a[0] == b[0] && b[0] == c[0] {
            lemma_lex_lt_transitive(a.drop_first(), b.drop_first(), c.drop_first());
        }
    }
}

/// The orders that the selector and the project list sort by are strict
/// orders, so that what they sort comes out in order.
pub proof fn lemma_rankings_are_strict(sections: Seq<Section>)
    ensures
        is_strict_order(pin_first()),
        is_strict_order(folder_rank()),
        is_strict_order(by_child_order()),
        is_strict_order(by_priority()),
        is_strict_order(by_section(sections)),
        is_strict_order(by_child_then_project()),
        is_strict_order(by_due()),
        is_strict_order(by_added()),
{
    assert forall|a: Task| !#[trigger] (by_child_then_project())(a, a) by {
        lemma_lex_lt_irreflexive(a.project_id@);
    }
    assert forall|a: Task, b: Task, c: Task| #[trigger]
        (by_child_then_project())(a, b) && #[trigger] (by_child_then_project())(
            b,
            c,
        ) implies (by_child_then_project())(a, c) by {
        if a.child_order == b.child_order && b.child_order == c.child_order {
            lemma_lex_lt_transitive(a.project_id@, b.project_id@, c.project_id@);
        }
    }
    assert forall|a: Task| !#[trigger] (by_due())(a, a) by {
        if a.due is Some {
            lemma_lex_lt_irreflexive(a.due->Some_0.date@);
        }
    }
    assert forall|a: Task, b: Task, c: Task| #[trigger]
        (by_due())(a, b) && #[trigger] (by_due())(b, c) implies (by_due())(a, c) by {
        if a.due is Some && b.due is Some && c.due is Some {
            lemma_lex_lt_transitive(a.due->Some_0.date@, b.due->Some_0.date@, c.due->Some_0.date@);
        }
    }
    assert forall|a: Task| !#[trigger] (by_added())(a, a) by {
        lemma_lex_lt_irreflexive(added_key(a));
    }
    assert forall|a: Task, b: Task, c: Task| #[trigger]
        (by_added())(a, b) && #[trigger] (by_added())(b, c) implies (by_added())(a, c) by {
        lemma_lex_lt_transitive(added_key(c), added_key(b), added_key(a));
    }
}

/// The top-level rows come out in the order of the sort mode.
pub proof fn lemma_top_rows_are_in_order(s: SelectionView)
    ensures
        in_order(top_rows(s), top_order(s)),
{
    lemma_rankings_are_strict(s.sections);
    lemma_sorted_by_is_in_order(s.tasks.filter(is_top_row(s)), top_order(s));
}

/// Whether two collections hold entities of the same ids.
pub open spec fn same_ids<T: Entity>(a: Seq<T>, b: Seq<T>) -> bool {
    forall|k: Seq<char>| absent(a, k) == absent(b, k)
}

/// Putting projects in display order loses no id and brings none in.
pub proof fn lemma_project_order_same_ids(ps: Seq<Project>, wss: Seq<Workspace>, folders: Seq<Folder>)
    ensures
        same_ids(project_order(ps, wss, folders), ps),
{
    let o = project_order(ps, wss, folders);
    let r = reached(ps, wss, folders);
    let rest = ps.filter(not_among(ids_of(r)));
    assert forall|k: Seq<char>| absent(o, k) == absent(ps, k) by {
        let good = |p: Project| p.id@ != k;
        if absent(ps, k) {
            assert(all_pass(ps, good));
            lemma_project_order_passes(ps, wss, folders, good);
            assert forall|i: int| 0 <= i < o.len() implies o[i].key() != k by {
                assert(good(o[i]));
            }
        }
        if absent(o, k) && !absent(ps, k) {
            let i = choose|i: int| 0 <= i < ps.len() && ps[i].key() == k;
            if ids_of(r).contains(k) {
                let j = choose|j: int| 0 <= j < r.len() && #[trigger] r[j].id@ == k;
                assert(o[j] == r[j]);
                assert(o[j].key() == k);
            } else {
                assert((not_among(ids_of(r)))(ps[i]));
                ps.lemma_filter_contains(not_among(ids_of(r)), i);
                let j = choose|j: int| 0 <= j < rest.len() && rest[j] == ps[i];
                assert(o[r.len() + j] == rest[j]);
                assert(o[r.len() + j].key() == k);
            }
        }
    }
}

/// **Delta idempotence.** Applying a reply twice gives what applying it once
/// gives: for every full sync, and for every incremental sync in which no
/// list names as live an entity that it named as deleted before.
pub proof fn lemma_sync_idempotent(v: ReplicaView, r: SyncResponse, now: u64)
    requires
        repeatable(r),
    ensures
        synced(synced(v, r, now), r, now) == synced(v, r, now),
{
    let f = r.full_sync;
    lemma_incoming_idempotent(v.project_store, r.projects, f);
    lemma_incoming_idempotent(v.workspaces, r.workspaces, f);
    lemma_incoming_idempotent(v.folders, r.folders, f);
    lemma_incoming_idempotent(v.tasks, r.items, f);
    lemma_incoming_idempotent(v.labels, r.labels, f);
    lemma_incoming_idempotent(v.sections, r.sections, f);
    lemma_buckets_idempotent(v.comments_by_task, r.notes, f);
    lemma_users_idempotent(v.users, r.collaborators, r.user);
}

/// **Delta idempotence, of the state.** When a reply is applied twice, the
/// replica after the second time is the replica after the first, in every
/// collection, the token and the time of the sync, for every reply that can
/// be applied again. The comments of the open detail are the same too, as
/// long as the cursor is on the same task both times.
pub proof fn lemma_sync_twice(pre: App, once: App, twice: App, r: SyncResponse)
    requires
        App::sync_applied(pre, once, r),
        App::sync_applied(once, twice, r),
        repeatable(r),
    ensures
        twice.replica() == once.replica(),
        row_id(twice.rows(), once.selected_task) == row_id(once.rows(), pre.selected_task)
            ==> twice.comments.deep_view() == once.comments.deep_view(),
{
    lemma_sync_idempotent(pre.replica(), r, pre.now_secs);
}

/// Whether the project list shows the store: it is the store's projects in
/// display order, and the store names no project twice.
pub open spec fn shows_the_store(a: App) -> bool {
    &&& a.projects@ == project_order(a.project_store@, a.workspaces@, a.folders@)
    &&& distinct_keys(a.project_store@)
}

/// Selecting from a collection raises the count of no key.
pub proof fn lemma_occurrences_filter<T: Entity>(s: Seq<T>, f: spec_fn(T) -> bool, k: Seq<char>)
    ensures
        occurrences(s.filter(f), k) <= occurrences(s, k),
    decreases s.len(),
{
    reveal(Seq::filter);
    if s.len() > 0 {
        let init = s.drop_last();
        lemma_occurrences_filter(init, f, k);
        let g = init.filter(f);
        if f(s.last()) {
            assert(s.filter(f) == g.push(s.last()));
            assert(g.push(s.last()).drop_last() == g);
        } else {
            assert(s.filter(f) == g);
        }
    }
}

/// No key occurs twice in a collection just if every key is counted at most
/// once.
pub proof fn lemma_distinct_by_count<T: Entity>(s: Seq<T>)
    ensures
        distinct_keys(s) <==> forall|k: Seq<char>| occurrences(s, k) <= 1,
    decreases s.len(),
{
    if s.len() > 0 {
        let init = s.drop_last();
        let last = s.last();
        lemma_distinct_by_count(init);
        lemma_occurrences_absent(init, last.key());
        if distinct_keys(s) {
            assert forall|i: int, j: int| 0 <= i < j < init.len() implies init[i].key()
                != init[j].key() by {
                assert(init[i] == s[i] && init[j] == s[j]);
            }
            assert forall|i: int| 0 <= i < init.len() implies init[i].key() != last.key() by {
                assert(init[i] == s[i]);
                assert(s[s.len() - 1] == last);
            }
            assert forall|k: Seq<char>| occurrences(s, k) <= 1 by {
                assert(occurrences(init, k) <= 1);
            }
        }
        if forall|k: Seq<char>| occurrences(s, k) <= 1 {
            assert forall|k: Seq<char>| occurrences(init, k) <= 1 by {
                assert(occurrences(s, k) <= 1);
            }
            assert(occurrences(s, last.key()) <= 1);
            assert(absent(init, last.key()));
            assert forall|i: int, j: int| 0 <= i < j < s.len() implies s[i].key() != s[j].key() by {
                assert(init[i] == s[i]);
                if j < s.len() - 1 {
                    assert(init[j] == s[j]);
                }
            }
        }
    }
}

/// A collection that names no entity twice names none twice after a reply's
/// list came in, provided that the list of a full sync names none twice.
pub proof fn lemma_incoming_keeps_distinct<T: Entity>(current: Seq<T>, list: Option<Vec<T>>, full: bool)
    requires
        distinct_keys(current),
        full ==> distinct_ids(list),
    ensures
        distinct_keys(incoming(current, list, full)),
{
    let after = incoming(current, list, full);
    lemma_distinct_by_count(current);
    lemma_distinct_by_count(after);
    match list {
        Some(l) => {
            lemma_distinct_by_count(l@);
            assert forall|k: Seq<char>| occurrences(after, k) <= 1 by {
                if full {
                    lemma_occurrences_filter(l@, alive::<T>(), k);
                    assert(occurrences(l@, k) <= 1);
                } else {
                    assert(occurrences(current, k) <= 1);
                    lemma_occurrences_stay_single(current, l@, k);
                }
            }
        },
        None => {},
    }
}

/// **The list shows the store.** A state without projects shows its store;
/// a state that shows its store shows it after a sync, provided that a full
/// sync names no project twice, and after a star.
pub proof fn lemma_list_shows_the_store(pre: App, post: App, resp: SyncResponse)
    ensures
        pre.project_store@.len() == 0 && pre.projects@.len() == 0 ==> shows_the_store(pre),
        shows_the_store(pre) && (resp.full_sync ==> distinct_ids(resp.projects))
            && App::sync_applied(pre, post, resp) ==> shows_the_store(post),
        shows_the_store(pre) && App::starred(pre, post) ==> shows_the_store(post),
{
    if pre.project_store@.len() == 0 && pre.projects@.len() == 0 {
        let shown = project_order(pre.project_store@, pre.workspaces@, pre.folders@);
        lemma_project_order_same_ids(pre.project_store@, pre.workspaces@, pre.folders@);
        if shown.len() > 0 {
            assert(absent(pre.project_store@, shown[0].key()));
            assert(!absent(shown, shown[0].key()));
        }
        assert(shown =~= pre.projects@);
    }
    if shows_the_store(pre) && (resp.full_sync ==> distinct_ids(resp.projects))
        && App::sync_applied(pre, post, resp) {
        lemma_incoming_keeps_distinct(pre.project_store@, resp.projects, resp.full_sync);
    }
    if shows_the_store(pre) && App::starred(pre, post) && pre.selected_project
        < pre.projects@.len() {
        let p = pre.projects@[pre.selected_project as int];
        let store = pre.project_store@;
        let changed = first_changed(store, p.id@, starring(!p.is_favorite));
        lemma_first_index(store, p.id@);
        assert forall|i: int, j: int| 0 <= i < j < changed.len() implies changed[i].key()
            != changed[j].key() by {
            assert(changed[i].key() == store[i].key());
            assert(changed[j].key() == store[j].key());
        }
    }
}

/// A project of the list is the store's own project of its id, where the
/// list shows the store.
pub proof fn lemma_shown_is_stored(a: App, sel: int)
    requires
        shows_the_store(a),
        0 <= sel < a.projects@.len(),
    ensures
        0 <= first_index(a.project_store@, a.projects@[sel].id@) < a.project_store@.len(),
        a.project_store@[first_index(a.project_store@, a.projects@[sel].id@)] == a.projects@[sel],
{
    let store = a.project_store@;
    let p = a.projects@[sel];
    let stored = |x: Project| store.contains(x);
    assert(all_pass(store, stored));
    lemma_project_order_passes(store, a.workspaces@, a.folders@, stored);
    assert(stored(p));
    let i = choose|i: int| 0 <= i < store.len() && store[i] == p;
    lemma_first_index(store, p.id@);
    let i0 = first_index(store, p.id@);
    assert(store[i].key() == p.id@);
    if i0 != i {
        assert(store[i0].key() != store[i].key());
    }
}

/// Starring the store's project of an id and putting it back as it was
/// leaves the store as it was.
pub proof fn lemma_star_and_back(store: Seq<Project>, p: Project, flag: bool)
    requires
        0 <= first_index(store, p.id@) < store.len(),
        store[first_index(store, p.id@)] == p,
    ensures
        first_changed(first_changed(store, p.id@, starring(flag)), p.id@, replacing(p)) == store,
{
    let i0 = first_index(store, p.id@);
    let changed = first_changed(store, p.id@, starring(flag));
    assert(changed.len() == store.len());
    assert forall|j: int| 0 <= j < store.len() implies store[j].key() == changed[j].key() by {}
    lemma_first_index_by_keys(store, changed, p.id@);
    assert(first_changed(changed, p.id@, replacing(p)) =~= store);
}

/// The cursor on the project list is on a project of the id `id`.
pub open spec fn cursor_is_on(a: App, id: Seq<char>) -> bool {
    a.selected_project < a.projects@.len() && a.projects@[a.selected_project as int].id@ == id
}

/// **Rollback of a star.** When the command that stars the selected project
/// is refused, the replica holds what it held before the command, the order
/// of the projects included, and the cursor is on a project of the id that
/// it was on, provided that the project list showed the store and the uuid
/// of the command was not in use.
pub proof fn lemma_rollback_star(pre: App, mid: App, post: App, e: SyncCommandError)
    requires
        App::starred(pre, mid),
        App::outcome_applied(
            mid,
            post,
            uuid_text(pre.now_nanos, pre.command_counter),
            SyncCommandResult::Rejected(e),
        ),
        !pre.temp_id_pending@.contains_key(uuid_text(pre.now_nanos, pre.command_counter)),
        shows_the_store(pre),
    ensures
        same_entities(pre, post),
        pre.selected_project < pre.projects@.len() ==> cursor_is_on(
            post,
            pre.projects@[pre.selected_project as int].id@,
        ),
{
    let uuid = uuid_text(pre.now_nanos, pre.command_counter);
    let store = pre.project_store@;
    if pre.selected_project < pre.projects@.len() {
        let sel = pre.selected_project as int;
        let p = pre.projects@[sel];
        lemma_shown_is_stored(pre, sel);
        lemma_star_and_back(store, p, !p.is_favorite);
        assert(mid.temp_id_pending@.contains_key(uuid));
        assert(mid.temp_id_pending@[uuid].undo == (OptimisticOp::ProjectUpdated {
            project_id: p.id,
            before: p,
        }));
        let i0 = first_index(store, p.id@);
        assert(mid.project_store@[i0].key() == p.id@);
        lemma_project_order_same_ids(mid.project_store@, pre.workspaces@, pre.folders@);
        assert(absent(mid.projects@, p.id@) == absent(mid.project_store@, p.id@));
        lemma_first_index(mid.projects@, p.id@);
        assert(cursor_is_on(mid, p.id@));
        assert(post.projects@ == pre.projects@);
        lemma_first_index(pre.projects@, p.id@);
        assert(pre.projects@[sel].key() == p.id@);
    }
}

/// What the user asks for with one command.
pub enum Submission {
    /// Completing or reopening the task under the cursor.
    Toggle,
    /// Setting the priority of the task under the cursor.
    Priority(u8),
    /// Setting the field being edited of the task under the cursor.
    FieldEdit(String),
    /// Adding the task of the form.
    TaskAdd,
    /// Adding a comment to the task under the cursor.
    CommentAdd(String),
    /// Starring the selected project, or taking its star.
    Star,
}

/// Whether `mid` is what the command `s` made of `pre`.
pub open spec fn submitted(pre: App, mid: App, s: Submission) -> bool {
    match s {
        Submission::Toggle => App::toggled_completion(pre, mid),
        Submission::Priority(p) => App::prioritized(pre, mid, p),
        Submission::FieldEdit(value) => App::field_edited(pre, mid, value),
        Submission::TaskAdd => App::form_submitted(pre, mid),
        Submission::CommentAdd(content) => App::comment_submitted(pre, mid, content),
        Submission::Star => App::starred(pre, mid),
    }
}

/// The uuid that the command `s` goes out under: a command that adds an
/// entity takes one number of the counter for its temporary id first.
pub open spec fn uuid_of(pre: App, s: Submission) -> Seq<char> {
    match s {
        Submission::TaskAdd | Submission::CommentAdd(_) => uuid_text(
            pre.now_nanos,
            counter_after(pre.command_counter),
        ),
        _ => uuid_text(pre.now_nanos, pre.command_counter),
    }
}

/// What the rollback of the command `s` relies on: its uuid is not in use;
/// the temporary id of an added entity is not in use; a changed task is the
/// replica's own task of its id; the project list shows the store.
pub open spec fn ready_for(pre: App, s: Submission) -> bool {
    &&& !pre.temp_id_pending@.contains_key(uuid_of(pre, s))
    &&& match s {
        Submission::Toggle => true,
        Submission::Priority(_) | Submission::FieldEdit(_) => match row_at(
            pre.rows(),
            pre.selected_task,
        ) {
            Some(row) => row_is_first(pre.tasks@, row),
            None => true,
        },
        Submission::TaskAdd => absent(pre.tasks@, temp_id_text(pre.command_counter)),
        Submission::CommentAdd(_) => absent(pre.comments@, temp_id_text(pre.command_counter)),
        Submission::Star => shows_the_store(pre),
    }
}

/// Whether the reply `resp` to a batch of commands says one thing only: that
/// the command `uuid` is refused with `e`.
pub open spec fn only_refuses(resp: SyncResponse, uuid: Seq<char>, e: SyncCommandError) -> bool {
    &&& resp.sync_status@.len() == 1
    &&& resp.sync_status@[0].0@ == uuid
    &&& resp.sync_status@[0].1 == SyncCommandResult::Rejected(e)
    &&& resp.temp_id_mapping@.len() == 0
}

/// **Rollback correctness.** For a command of any kind: when the reply to it
/// comes in as an event and says that the command is refused, the replica
/// holds what it held before the command, in every collection and in the
/// same order; no record is kept for the command any more; and an error is
/// shown.
pub proof fn lemma_rollback(
    pre: App,
    mid: App,
    post: App,
    s: Submission,
    resp: SyncResponse,
    e: SyncCommandError,
)
    requires
        submitted(pre, mid, s),
        ready_for(pre, s),
        only_refuses(resp, uuid_of(pre, s), e),
        App::all_handled(mid, post, seq![BgResult::CommandResults(resp)]),
    ensures
        same_entities(pre, post),
        !post.temp_id_pending@.contains_key(uuid_of(pre, s)),
        post.error is Some,
{
    let events = seq![BgResult::CommandResults(resp)];
    let states = choose|states: Seq<App>|
        {
            &&& #[trigger] App::events_handled(states, events)
            &&& states[0] == mid
            &&& states.last() == post
        };
    assert(App::handled(states[0], states[1], events[0]));
    assert(App::reconciled(mid, post, resp));
    let (a, b) = choose|a: Seq<App>, b: Seq<App>|
        {
            &&& #[trigger] App::outcomes_applied(a, resp.sync_status@)
            &&& #[trigger] App::mappings_applied(b, resp.temp_id_mapping@)
            &&& a[0] == mid
            &&& b[0] == a.last()
            &&& App::token_adopted(b.last(), post, resp.sync_token@)
        };
    let settled = a[1];
    assert(App::outcome_applied(a[0], a[1], resp.sync_status@[0].0@, resp.sync_status@[0].1));
    assert(App::token_adopted(settled, post, resp.sync_token@));
    match s {
        Submission::Toggle => lemma_rollback_toggle(pre, mid, settled, e),
        Submission::Priority(p) => lemma_rollback_priority(pre, mid, settled, p, e),
        Submission::FieldEdit(value) => lemma_rollback_field_edit(pre, mid, settled, value, e),
        Submission::TaskAdd => lemma_rollback_task_add(pre, mid, settled, e),
        Submission::CommentAdd(content) => lemma_rollback_comment_add(pre, mid, settled, content, e),
        Submission::Star => lemma_rollback_star(pre, mid, settled, e),
    }
}

/// **Each task once.** No task comes up twice among the visible rows,
/// whatever the replica and the fetched tasks hold.
pub proof fn lemma_rows_hold_no_task_twice(s: SelectionView)
    ensures
        distinct_keys(visible_rows(s)),
{
    reveal(visible_rows);
    lemma_first_of_each(gathered_rows(s));
}

} // verus!
