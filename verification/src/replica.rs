//! Applying a sync reply to the replica.
//!
//! A full sync replaces each collection that the reply carries by the
//! reply's list without its tombstones. An incremental sync merges each list
//! into its collection, record by record. Either way the project list is put
//! in display order afterwards, the sync token is taken over where the reply
//! has one, and the task cursor is moved back onto the visible rows.

use crate::app::{App, Effect, EffectView};
use crate::merge::{
    drop_tombstones, merge_all, merge_delta, merge_one, merge_record, without_tombstones,
};
use crate::models::{
    Collaborator, Comment, CommentView, Entity, Folder, Label, Project, Section, Task, UserInfo,
    Workspace,
};
use crate::projects::{project_order, selection_after, sort_project_list};
use crate::sync::SyncResponse;
use crate::state::{display_name, text_or_empty, UserRecord};
use crate::strmap::StrMap;
use vstd::prelude::*;

verus! {

/// A collection after a reply's list came in: unchanged where the reply has
/// no list, replaced in a full sync, merged in an incremental one.
pub open spec fn incoming<T: Entity>(current: Seq<T>, list: Option<Vec<T>>, full: bool) -> Seq<T> {
    match list {
        None => current,
        Some(l) => if full {
            without_tombstones(l@)
        } else {
            merge_all(current, l@)
        },
    }
}

/// Takes a reply's list into `store`.
pub fn take_in<T: Entity>(store: &mut Vec<T>, list: Option<Vec<T>>, full: bool)
    ensures
        final(store)@ == incoming(old(store)@, list, full),
{
    match list {
        None => {},
        Some(l) => {
            if full {
                *store = drop_tombstones(l);
            } else {
                merge_delta(store, l);
            }
        },
    }
}

/// The comment lists of a map of buckets.
pub open spec fn bucket_lists(m: Map<Seq<char>, Vec<Comment>>) -> Map<Seq<char>, Seq<Comment>> {
    Map::new(|k: Seq<char>| m.contains_key(k), |k: Seq<char>| m[k]@)
}

/// The task that a comment belongs to: its item id, else its task id, else
/// the empty id.
pub open spec fn note_task(c: Comment) -> Seq<char> {
    match c.item_id {
        Some(i) => i@,
        None => match c.task_id {
            Some(t) => t@,
            None => Seq::empty(),
        },
    }
}

/// The buckets after one comment of a full sync: a live comment goes to the
/// end of its task's bucket.
pub open spec fn bucket_filled(m: Map<Seq<char>, Seq<Comment>>, c: Comment) -> Map<
    Seq<char>,
    Seq<Comment>,
> {
    if c.is_deleted {
        m
    } else if m.contains_key(note_task(c)) {
        m.insert(note_task(c), m[note_task(c)].push(c))
    } else {
        m.insert(note_task(c), seq![c])
    }
}

/// The buckets after one comment of an incremental sync: the comment is
/// merged into its task's bucket; a live comment of a task without bucket
/// opens one.
pub open spec fn bucket_merged(m: Map<Seq<char>, Seq<Comment>>, c: Comment) -> Map<
    Seq<char>,
    Seq<Comment>,
> {
    if m.contains_key(note_task(c)) {
        m.insert(note_task(c), merge_one(m[note_task(c)], c))
    } else if c.is_deleted {
        m
    } else {
        m.insert(note_task(c), seq![c])
    }
}

/// The buckets after the comments of a reply.
pub open spec fn buckets_after(m: Map<Seq<char>, Seq<Comment>>, notes: Option<Vec<Comment>>, full: bool) -> Map<
    Seq<char>,
    Seq<Comment>,
> {
    match notes {
        None => m,
        Some(l) => if full {
            l@.fold_left(
                Map::<Seq<char>, Seq<Comment>>::empty(),
                |acc: Map<Seq<char>, Seq<Comment>>, c: Comment| bucket_filled(acc, c),
            )
        } else {
            l@.fold_left(m, |acc: Map<Seq<char>, Seq<Comment>>, c: Comment| bucket_merged(acc, c))
        },
    }
}

/// The id of the task that the comment `c` belongs to.
pub fn note_task_id(c: &Comment) -> (r: String)
    ensures
        r@ == note_task(*c),
{
    match &c.item_id {
        Some(i) => i.clone(),
        None => match &c.task_id {
            Some(t) => t.clone(),
            None => String::new(),
        },
    }
}

/// Puts the list `list` under `key`.
fn put_bucket(m: &mut StrMap<Vec<Comment>>, key: String, list: Vec<Comment>)
    ensures
        bucket_lists(final(m)@) == bucket_lists(old(m)@).insert(key@, list@),
{
    m.insert(key, list);
    assert(bucket_lists(m@) =~= bucket_lists(old(m)@).insert(key@, list@));
}

/// Takes the list kept under `key` out of `m`.
fn take_bucket(m: &mut StrMap<Vec<Comment>>, key: &str) -> (r: Option<Vec<Comment>>)
    ensures
        bucket_lists(final(m)@) == bucket_lists(old(m)@).remove(key@),
        match r {
            Some(l) => bucket_lists(old(m)@).contains_key(key@) && l@ == bucket_lists(old(m)@)[key@],
            None => !bucket_lists(old(m)@).contains_key(key@),
        },
{
    let r = m.remove(key);
    assert(bucket_lists(m@) =~= bucket_lists(old(m)@).remove(key@));
    r
}

/// Applies one comment of a full sync.
fn fill_bucket(m: &mut StrMap<Vec<Comment>>, c: Comment)
    ensures
        bucket_lists(final(m)@) == bucket_filled(bucket_lists(old(m)@), c),
{
    if c.is_deleted {
        return ;
    }
    let key = note_task_id(&c);
    let ghost before = bucket_lists(m@);
    let mut list = match take_bucket(m, key.as_str()) {
        Some(l) => l,
        None => Vec::new(),
    };
    list.push(c);
    put_bucket(m, key, list);
    assert(bucket_lists(m@) =~= bucket_filled(before, c));
}

/// Applies one comment of an incremental sync.
fn merge_bucket(m: &mut StrMap<Vec<Comment>>, c: Comment)
    ensures
        bucket_lists(final(m)@) == bucket_merged(bucket_lists(old(m)@), c),
{
    let key = note_task_id(&c);
    let ghost before = bucket_lists(m@);
    match take_bucket(m, key.as_str()) {
        Some(l) => {
            let mut list = l;
            merge_record(&mut list, c);
            put_bucket(m, key, list);
            assert(bucket_lists(m@) =~= bucket_merged(before, c));
        },
        None => {
            if !c.is_deleted {
                let mut list: Vec<Comment> = Vec::new();
                list.push(c);
                put_bucket(m, key, list);
                assert(bucket_lists(m@) =~= bucket_merged(before, c));
            } else {
                assert(bucket_lists(m@) =~= bucket_merged(before, c));
            }
        },
    }
}

/// Takes the comments of a reply into the buckets.
pub fn take_notes(m: &mut StrMap<Vec<Comment>>, notes: Option<Vec<Comment>>, full: bool)
    ensures
        bucket_lists(final(m)@) == buckets_after(bucket_lists(old(m)@), notes, full),
{
    let ghost start = bucket_lists(m@);
    match notes {
        None => {},
        Some(l) => {
            let ghost all = l@;
            if full {
                m.clear();
                assert(bucket_lists(m@) =~= Map::<Seq<char>, Seq<Comment>>::empty());
                for c in it: l
                    invariant
                        it.seq() == all,
                        bucket_lists(m@) == all.take(it.index() as int).fold_left(
                            Map::<Seq<char>, Seq<Comment>>::empty(),
                            |acc: Map<Seq<char>, Seq<Comment>>, c: Comment| bucket_filled(acc, c),
                        ),
                {
                    proof {
                        let i = it.index() as int;
                        assert(all.take(i + 1).drop_last() == all.take(i));
                        assert(all.take(i + 1).last() == all[i]);
                    }
                    fill_bucket(m, c);
                }
                assert(all.take(all.len() as int) == all);
            } else {
                for c in it: l
                    invariant
                        it.seq() == all,
                        bucket_lists(m@) == all.take(it.index() as int).fold_left(
                            start,
                            |acc: Map<Seq<char>, Seq<Comment>>, c: Comment| bucket_merged(acc, c),
                        ),
                {
                    proof {
                        let i = it.index() as int;
                        assert(all.take(i + 1).drop_last() == all.take(i));
                        assert(all.take(i + 1).last() == all[i]);
                    }
                    merge_bucket(m, c);
                }
                assert(all.take(all.len() as int) == all);
            }
        },
    }
}

/// What a [`UserRecord`] holds.
pub struct UserRecordView {
    pub id: Seq<char>,
    pub full_name: Seq<char>,
    pub email: Seq<char>,
    pub display: Seq<char>,
}

impl DeepView for UserRecord {
    type V = UserRecordView;

    open spec fn deep_view(&self) -> UserRecordView {
        UserRecordView {
            id: self.id@,
            full_name: self.full_name@,
            email: self.email@,
            display: self.display@,
        }
    }
}

/// The records of a map of users.
pub open spec fn user_views(m: Map<Seq<char>, UserRecord>) -> Map<Seq<char>, UserRecordView> {
    Map::new(|k: Seq<char>| m.contains_key(k), |k: Seq<char>| m[k].deep_view())
}

/// The record that is made for a user.
pub open spec fn record_of(id: Seq<char>, name: Option<String>, email: Option<String>) -> UserRecordView {
    UserRecordView {
        id,
        full_name: text_or_empty(name),
        email: text_or_empty(email),
        display: display_name(id, text_or_empty(name), text_or_empty(email)),
    }
}

/// The users after one more user was met: a user who is known already keeps
/// the record there is.
pub open spec fn with_user(
    m: Map<Seq<char>, UserRecordView>,
    id: Seq<char>,
    name: Option<String>,
    email: Option<String>,
) -> Map<Seq<char>, UserRecordView> {
    if m.contains_key(id) {
        m
    } else {
        m.insert(id, record_of(id, name, email))
    }
}

/// The users after the collaborators of a reply were met.
pub open spec fn with_collaborators(m: Map<Seq<char>, UserRecordView>, list: Option<Vec<Collaborator>>) -> Map<
    Seq<char>,
    UserRecordView,
> {
    match list {
        None => m,
        Some(l) => l@.fold_left(
            m,
            |acc: Map<Seq<char>, UserRecordView>, c: Collaborator|
                with_user(acc, c.id@, c.name, c.email),
        ),
    }
}

/// The users after a reply: its collaborators, then its user.
pub open spec fn users_after(
    m: Map<Seq<char>, UserRecordView>,
    collaborators: Option<Vec<Collaborator>>,
    user: Option<UserInfo>,
) -> Map<Seq<char>, UserRecordView> {
    let met = with_collaborators(m, collaborators);
    match user {
        None => met,
        Some(u) => with_user(met, u.id@, u.full_name, u.email),
    }
}

/// Makes a record for the user `id` unless there is one.
fn meet_user(m: &mut StrMap<UserRecord>, id: String, name: Option<String>, email: Option<String>)
    ensures
        user_views(final(m)@) == with_user(user_views(old(m)@), id@, name, email),
{
    if !m.contains_key(id.as_str()) {
        let key = id.clone();
        let record = UserRecord::new(id, name, email);
        m.insert(key, record);
        assert(user_views(m@) =~= with_user(user_views(old(m)@), id@, name, email));
    } else {
        assert(user_views(m@) =~= with_user(user_views(old(m)@), id@, name, email));
    }
}

/// Meets the collaborators of a reply.
fn meet_collaborators(m: &mut StrMap<UserRecord>, list: Option<Vec<Collaborator>>)
    ensures
        user_views(final(m)@) == with_collaborators(user_views(old(m)@), list),
{
    let ghost start = user_views(m@);
    match list {
        None => {},
        Some(l) => {
            let ghost all = l@;
            for c in it: l
                invariant
                    it.seq() == all,
                    user_views(m@) == all.take(it.index() as int).fold_left(
                        start,
                        |acc: Map<Seq<char>, UserRecordView>, c: Collaborator|
                            with_user(acc, c.id@, c.name, c.email),
                    ),
            {
                proof {
                    let i = it.index() as int;
                    assert(all.take(i + 1).drop_last() == all.take(i));
                    assert(all.take(i + 1).last() == all[i]);
                }
                meet_user(m, c.id, c.name, c.email);
            }
            assert(all.take(all.len() as int) == all);
        },
    }
}

/// The replica: every collection that mirrors the service, with the token
/// to read from next.
pub struct ReplicaView {
    pub project_store: Seq<Project>,
    pub projects: Seq<Project>,
    pub workspaces: Seq<Workspace>,
    pub folders: Seq<Folder>,
    pub tasks: Seq<Task>,
    pub labels: Seq<Label>,
    pub sections: Seq<Section>,
    pub comments_by_task: Map<Seq<char>, Seq<Comment>>,
    pub users: Map<Seq<char>, UserRecordView>,
    pub current_user_id: Option<Seq<char>>,
    pub current_user_name: Option<Seq<char>>,
    pub websocket_url: Option<Seq<char>>,
    pub sync_token: Seq<char>,
    pub last_sync_at: Option<u64>,
}

/// The token after a reply: the reply's, unless that is empty.
pub open spec fn new_token(current: Seq<char>, reply: Seq<char>) -> Seq<char> {
    if reply.len() > 0 {
        reply
    } else {
        current
    }
}

/// The replica after the reply `r` was applied at clock reading `now`.
pub open spec fn synced(v: ReplicaView, r: SyncResponse, now: u64) -> ReplicaView {
    let workspaces = incoming(v.workspaces, r.workspaces, r.full_sync);
    let folders = incoming(v.folders, r.folders, r.full_sync);
    let project_store = incoming(v.project_store, r.projects, r.full_sync);
    ReplicaView {
        project_store,
        projects: project_order(project_store, workspaces, folders),
        workspaces,
        folders,
        tasks: incoming(v.tasks, r.items, r.full_sync),
        labels: incoming(v.labels, r.labels, r.full_sync),
        sections: incoming(v.sections, r.sections, r.full_sync),
        comments_by_task: buckets_after(v.comments_by_task, r.notes, r.full_sync),
        users: users_after(v.users, r.collaborators, r.user),
        current_user_id: user_id_after(v.current_user_id, r.user),
        current_user_name: user_name_after(v.current_user_name, r.user),
        websocket_url: push_url_after(v.websocket_url, r.user),
        sync_token: new_token(v.sync_token, r.sync_token@),
        last_sync_at: Some(now),
    }
}

/// Whether a comment of `notes` belongs to the task `task`.
pub open spec fn touches(notes: Seq<Comment>, task: Seq<char>) -> bool {
    exists|i: int| 0 <= i < notes.len() && #[trigger] note_task(notes[i]) == task
}

/// The comments of the open detail after a reply: the bucket of the
/// open task where an incremental sync brought a comment for it, and the
/// comments shown before otherwise.
pub open spec fn shown_comments(
    current: Seq<CommentView>,
    full: bool,
    notes: Option<Vec<Comment>>,
    open: Option<Seq<char>>,
    buckets: Map<Seq<char>, Seq<Comment>>,
) -> Seq<CommentView> {
    match (notes, open) {
        (Some(l), Some(id)) => if !full && touches(l@, id) && buckets.contains_key(id) {
            comment_views(buckets[id])
        } else {
            current
        },
        _ => current,
    }
}

/// The views of a list of comments.
pub open spec fn comment_views(s: Seq<Comment>) -> Seq<CommentView> {
    Seq::new(s.len(), |i: int| s[i].deep_view())
}

/// The id of the row at `cursor`.
pub open spec fn row_id(rows: Seq<Task>, cursor: usize) -> Option<Seq<char>> {
    if cursor < rows.len() {
        Some(rows[cursor as int].id@)
    } else {
        None
    }
}

/// The effects of a reply: the token is written to disk where the reply has
/// one, unless nothing is to be written at all.
pub open spec fn token_effects(reply_token: Seq<char>, ephemeral: bool) -> Seq<EffectView> {
    if reply_token.len() > 0 && !ephemeral {
        seq![EffectView::SaveSyncToken(reply_token)]
    } else {
        Seq::empty()
    }
}

/// A copy of a list of comments.
pub fn clone_comments(v: &Vec<Comment>) -> (r: Vec<Comment>)
    ensures
        r.deep_view() == v.deep_view(),
{
    let mut out: Vec<Comment> = Vec::new();
    let mut i: usize = 0;
    while i < v.len()
        invariant
            i <= v.len(),
            out.len() == i,
            forall|j: int| 0 <= j < i ==> out@[j].deep_view() == v@[j].deep_view(),
        decreases v.len() - i,
    {
        out.push(v[i].clone());
        i += 1;
    }
    assert(out.deep_view() =~= v.deep_view());
    out
}

/// Whether a comment of `notes` belongs to the task `task`.
fn notes_touch(notes: &Vec<Comment>, task: &str) -> (r: bool)
    ensures
        r == touches(notes@, task@),
{
    let mut i: usize = 0;
    while i < notes.len()
        invariant
            i <= notes.len(),
            forall|j: int| 0 <= j < i ==> #[trigger] note_task(notes@[j]) != task@,
        decreases notes.len() - i,
    {
        let key = note_task_id(&notes[i]);
        if key.as_str().eq(task) {
            return true;
        }
        i += 1;
    }
    false
}

/// The id of the signed-in user after a reply.
pub open spec fn user_id_after(current: Option<Seq<char>>, user: Option<UserInfo>) -> Option<Seq<char>> {
    match user {
        Some(u) => Some(u.id@),
        None => current,
    }
}

/// The name of the signed-in user after a reply.
pub open spec fn user_name_after(current: Option<Seq<char>>, user: Option<UserInfo>) -> Option<
    Seq<char>,
> {
    match user {
        Some(u) => match u.full_name {
            Some(n) => Some(n@),
            None => current,
        },
        None => current,
    }
}

/// The address of the push channel after a reply.
pub open spec fn push_url_after(current: Option<Seq<char>>, user: Option<UserInfo>) -> Option<
    Seq<char>,
> {
    match user {
        Some(u) => u.websocket_url.deep_view(),
        None => current,
    }
}

/// Meets the users of a reply: its collaborators, then its user, whose id,
/// name and push address are noted.
fn meet_users(
    names: &mut StrMap<UserRecord>,
    user_id: &mut Option<String>,
    user_name: &mut Option<String>,
    push_url: &mut Option<String>,
    collaborators: Option<Vec<Collaborator>>,
    user: Option<UserInfo>,
)
    ensures
        user_views(final(names)@) == users_after(user_views(old(names)@), collaborators, user),
        final(user_id).deep_view() == user_id_after(old(user_id).deep_view(), user),
        final(user_name).deep_view() == user_name_after(old(user_name).deep_view(), user),
        final(push_url).deep_view() == push_url_after(old(push_url).deep_view(), user),
{
    meet_collaborators(names, collaborators);
    match user {
        Some(u) => {
            *user_id = Some(u.id.clone());
            let UserInfo { id, full_name, email, websocket_url } = u;
            *push_url = websocket_url;
            match &full_name {
                Some(n) => {
                    *user_name = Some(n.clone());
                },
                None => {},
            }
            meet_user(names, id, full_name, email);
        },
        None => {},
    }
}

/// Takes the comments of a reply into the buckets, and into the list of the
/// open detail where they belong to the task `open`.
fn file_notes(
    buckets: &mut StrMap<Vec<Comment>>,
    shown: &mut Vec<Comment>,
    full: bool,
    notes: Option<Vec<Comment>>,
    open: Option<String>,
)
    ensures
        bucket_lists(final(buckets)@) == buckets_after(bucket_lists(old(buckets)@), notes, full),
        final(shown).deep_view() == shown_comments(
            old(shown).deep_view(),
            full,
            notes,
            open.deep_view(),
            bucket_lists(final(buckets)@),
        ),
{
    let touched = match (&notes, &open) {
        (Some(l), Some(id)) => !full && notes_touch(l, id.as_str()),
        _ => false,
    };
    take_notes(buckets, notes, full);
    if touched {
        match &open {
            Some(id) => match buckets.get(id.as_str()) {
                Some(bucket) => {
                    let copy = clone_comments(bucket);
                    assert(copy.deep_view() =~= comment_views(bucket@));
                    *shown = copy;
                },
                None => {},
            },
            None => {},
        }
    }
}

impl App {
    /// The replica that this state holds.
    pub open spec fn replica(&self) -> ReplicaView {
        ReplicaView {
            project_store: self.project_store@,
            projects: self.projects@,
            workspaces: self.workspaces@,
            folders: self.folders@,
            tasks: self.tasks@,
            labels: self.labels@,
            sections: self.sections@,
            comments_by_task: bucket_lists(self.comments_by_task@),
            users: user_views(self.user_names@),
            current_user_id: self.current_user_id.deep_view(),
            current_user_name: self.current_user_name.deep_view(),
            websocket_url: self.websocket_url.deep_view(),
            sync_token: self.sync_token@,
            last_sync_at: self.last_sync_at,
        }
    }

    /// Puts the projects of the store in display order; the cursor follows
    /// the selected project.
    pub fn sort_projects(&mut self)
        ensures
            final(self).projects@ == project_order(
                old(self).project_store@,
                old(self).workspaces@,
                old(self).folders@,
            ),
            final(self).selected_project == selection_after(
                old(self).projects@,
                old(self).selected_project as int,
                final(self).projects@,
            ),
            *final(self) == (App {
                projects: final(self).projects,
                selected_project: final(self).selected_project,
                ..*old(self)
            }),
    {
        let now_selected = sort_project_list(
            &self.project_store,
            &mut self.projects,
            self.selected_project,
            &self.workspaces,
            &self.folders,
        );
        self.selected_project = now_selected;
    }

    /// Takes the entity lists of a reply into their collections and puts
    /// the projects in order.
    fn take_entities(
        &mut self,
        full: bool,
        workspaces: Option<Vec<Workspace>>,
        folders: Option<Vec<Folder>>,
        projects: Option<Vec<Project>>,
        items: Option<Vec<Task>>,
        labels: Option<Vec<Label>>,
        sections: Option<Vec<Section>>,
    )
        ensures
            final(self).workspaces@ == incoming(old(self).workspaces@, workspaces, full),
            final(self).folders@ == incoming(old(self).folders@, folders, full),
            final(self).project_store@ == incoming(old(self).project_store@, projects, full),
            final(self).projects@ == project_order(
                final(self).project_store@,
                final(self).workspaces@,
                final(self).folders@,
            ),
            final(self).selected_project == selection_after(
                old(self).projects@,
                old(self).selected_project as int,
                final(self).projects@,
            ),
            final(self).tasks@ == incoming(old(self).tasks@, items, full),
            final(self).labels@ == incoming(old(self).labels@, labels, full),
            final(self).sections@ == incoming(old(self).sections@, sections, full),
            *final(self) == (App {
                project_store: final(self).project_store,
                projects: final(self).projects,
                workspaces: final(self).workspaces,
                folders: final(self).folders,
                tasks: final(self).tasks,
                labels: final(self).labels,
                sections: final(self).sections,
                selected_project: final(self).selected_project,
                ..*old(self)
            }),
    {
        take_in(&mut self.workspaces, workspaces, full);
        take_in(&mut self.folders, folders, full);
        take_in(&mut self.project_store, projects, full);
        self.sort_projects();
        take_in(&mut self.tasks, items, full);
        take_in(&mut self.labels, labels, full);
        take_in(&mut self.sections, sections, full);
    }

    /// Meets the users of a reply.
    fn take_users(&mut self, collaborators: Option<Vec<Collaborator>>, user: Option<UserInfo>)
        ensures
            user_views(final(self).user_names@) == users_after(
                user_views(old(self).user_names@),
                collaborators,
                user,
            ),
            final(self).current_user_id.deep_view() == user_id_after(
                old(self).current_user_id.deep_view(),
                user,
            ),
            final(self).current_user_name.deep_view() == user_name_after(
                old(self).current_user_name.deep_view(),
                user,
            ),
            final(self).websocket_url.deep_view() == push_url_after(
                old(self).websocket_url.deep_view(),
                user,
            ),
            *final(self) == (App {
                user_names: final(self).user_names,
                current_user_id: final(self).current_user_id,
                current_user_name: final(self).current_user_name,
                websocket_url: final(self).websocket_url,
                ..*old(self)
            }),
    {
        meet_users(
            &mut self.user_names,
            &mut self.current_user_id,
            &mut self.current_user_name,
            &mut self.websocket_url,
            collaborators,
            user,
        );
    }

    /// Takes the comments of a reply into the buckets, and into the open
    /// detail where they belong to its task.
    fn take_comments(&mut self, full: bool, notes: Option<Vec<Comment>>)
        ensures
            bucket_lists(final(self).comments_by_task@) == buckets_after(
                bucket_lists(old(self).comments_by_task@),
                notes,
                full,
            ),
            final(self).comments.deep_view() == shown_comments(
                old(self).comments.deep_view(),
                full,
                notes,
                row_id(old(self).rows(), old(self).selected_task),
                bucket_lists(final(self).comments_by_task@),
            ),
            *final(self) == (App {
                comments_by_task: final(self).comments_by_task,
                comments: final(self).comments,
                ..*old(self)
            }),
    {
        let open: Option<String> = match self.selected_task() {
            Some(t) => Some(t.id.clone()),
            None => None,
        };
        file_notes(&mut self.comments_by_task, &mut self.comments, full, notes, open);
    }

    /// Takes over the token of a reply and notes the time of the sync.
    fn take_token(&mut self, token: String)
        ensures
            final(self).sync_token@ == new_token(old(self).sync_token@, token@),
            final(self).last_sync_at == Some(old(self).now_secs),
            final(self).outbox.deep_view() == old(self).outbox.deep_view() + token_effects(
                token@,
                old(self).ephemeral,
            ),
            *final(self) == (App {
                sync_token: final(self).sync_token,
                last_sync_at: final(self).last_sync_at,
                outbox: final(self).outbox,
                ..*old(self)
            }),
    {
        if !token.as_str().is_empty() {
            self.sync_token = token;
            if !self.ephemeral {
                let copy = self.sync_token.clone();
                self.emit(Effect::SaveSyncToken(copy));
            }
        }
        self.last_sync_at = Some(self.now_secs);
        assert(self.outbox.deep_view() =~= old(self).outbox.deep_view() + token_effects(
            token@,
            old(self).ephemeral,
        ));
    }

    /// What a sync reply does: its lists are taken into the replica, the
    /// projects of the store are put in display order and the project cursor
    /// follows the selected project, the open detail shows the comments that came in for its
    /// task, the token is taken over and written to disk, and the task
    /// cursor is moved back onto the visible rows.
    pub open spec fn sync_applied(pre: App, post: App, resp: SyncResponse) -> bool {
        &&& post.replica() == synced(pre.replica(), resp, pre.now_secs)
        &&& post.selected_project == selection_after(
            pre.projects@,
            pre.selected_project as int,
            post.projects@,
        )
        &&& post.comments.deep_view() == shown_comments(
            pre.comments.deep_view(),
            resp.full_sync,
            resp.notes,
            row_id(post.rows(), pre.selected_task),
            post.replica().comments_by_task,
        )
        &&& post.selected_task == Self::clamped(pre.selected_task, post.rows().len())
        &&& post.outbox.deep_view() == pre.outbox.deep_view() + token_effects(
            resp.sync_token@,
            pre.ephemeral,
        )
        &&& post == (App {
            project_store: post.project_store,
            projects: post.projects,
            workspaces: post.workspaces,
            folders: post.folders,
            tasks: post.tasks,
            labels: post.labels,
            sections: post.sections,
            comments_by_task: post.comments_by_task,
            user_names: post.user_names,
            current_user_id: post.current_user_id,
            current_user_name: post.current_user_name,
            websocket_url: post.websocket_url,
            sync_token: post.sync_token,
            last_sync_at: post.last_sync_at,
            selected_project: post.selected_project,
            selected_task: post.selected_task,
            comments: post.comments,
            outbox: post.outbox,
            ..pre
        })
    }

    /// Applies a sync reply.
    pub fn apply_sync_delta(&mut self, resp: SyncResponse)
        ensures
            Self::sync_applied(*old(self), *final(self), resp),
    {
        let full = resp.full_sync;
        self.take_entities(
            full,
            resp.workspaces,
            resp.folders,
            resp.projects,
            resp.items,
            resp.labels,
            resp.sections,
        );
        self.take_users(resp.collaborators, resp.user);
        let ghost mid = *self;
        assert(mid.selection_view() == (crate::selector::SelectionView {
            tasks: mid.tasks@,
            ..mid.selection_view()
        }));
        self.take_comments(full, resp.notes);
        self.take_token(resp.sync_token);
        assert(self.selection_view() == mid.selection_view());
        self.clamp_selection();
        assert(self.selection_view() == mid.selection_view());
    }
}

} // verus!
