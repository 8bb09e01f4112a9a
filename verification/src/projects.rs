//! The order of the project list.
//!
//! Personal projects come first, then the projects of each workspace: those
//! outside any folder, then folder by folder. Inside each group the projects
//! form trees by their parent ids; siblings are ordered with the pinned ones
//! first and then by their child order. Projects that no group reaches come
//! last.

use crate::merge::{find_by_id, first_index};
use crate::models::{Folder, Project, Workspace};
use crate::order::{derefs, pick, pick_again, sorted_by, stable_sort, Ranking, Test};
use crate::strmap::StrSet;
use vstd::prelude::*;

verus! {

/// The text that an optional string slice stands for.
pub open spec fn opt_str_view(o: Option<&str>) -> Option<Seq<char>> {
    match o {
        Some(s) => Some(s@),
        None => None,
    }
}

/// Whether the optional text `o` is present and equal to `s`.
pub fn opt_is(o: &Option<String>, s: &str) -> (r: bool)
    ensures
        r == (o.deep_view() == Some(s@)),
{
    match o {
        Some(t) => t.as_str().eq(s),
        None => false,
    }
}

/// Whether two optional texts are equal.
pub fn opt_same(o: &Option<String>, other: Option<&str>) -> (r: bool)
    ensures
        r == (o.deep_view() == opt_str_view(other)),
{
    match o {
        Some(t) => match other {
            Some(s) => t.as_str().eq(s),
            None => false,
        },
        None => other.is_none(),
    }
}

/// Projects that belong to no workspace.
pub open spec fn is_personal() -> spec_fn(Project) -> bool {
    |p: Project| p.workspace_id is None
}

/// Projects of the workspace `ws`.
pub open spec fn in_workspace(ws: Seq<char>) -> spec_fn(Project) -> bool {
    |p: Project| p.workspace_id.deep_view() == Some(ws)
}

/// Projects outside any folder.
pub open spec fn is_unfiled() -> spec_fn(Project) -> bool {
    |p: Project| p.folder_id is None
}

/// Projects of the folder `folder`.
pub open spec fn in_folder(folder: Seq<char>) -> spec_fn(Project) -> bool {
    |p: Project| p.folder_id.deep_view() == Some(folder)
}

/// Projects whose parent is `parent`; the roots where it is `None`.
pub open spec fn child_of(parent: Option<Seq<char>>) -> spec_fn(Project) -> bool {
    |p: Project| p.parent_id.deep_view() == parent
}

/// Projects whose id is not in `shown`.
pub open spec fn not_among(shown: Set<Seq<char>>) -> spec_fn(Project) -> bool {
    |p: Project| !shown.contains(p.id@)
}

/// Folders of the workspace `ws`.
pub open spec fn folder_of(ws: Seq<char>) -> spec_fn(Folder) -> bool {
    |f: Folder| f.workspace_id@ == ws
}

/// Siblings: the pinned ones first, then by child order.
pub open spec fn pin_first() -> spec_fn(Project, Project) -> bool {
    |a: Project, b: Project|
        (a.pinned() && !b.pinned()) || (a.pinned() == b.pinned() && a.child_order < b.child_order)
}

/// Folders by child order.
pub open spec fn folder_rank() -> spec_fn(Folder, Folder) -> bool {
    |a: Folder, b: Folder| a.child_order < b.child_order
}

pub struct Personal;

impl Test<Project> for Personal {
    open spec fn pred(&self) -> spec_fn(Project) -> bool {
        is_personal()
    }

    fn check(&self, x: &Project) -> (r: bool) {
        x.workspace_id.is_none()
    }
}

pub struct InWorkspace<'a> {
    pub id: &'a str,
}

impl<'a> Test<Project> for InWorkspace<'a> {
    open spec fn pred(&self) -> spec_fn(Project) -> bool {
        in_workspace(self.id@)
    }

    fn check(&self, x: &Project) -> (r: bool) {
        opt_is(&x.workspace_id, self.id)
    }
}

pub struct Unfiled;

impl Test<Project> for Unfiled {
    open spec fn pred(&self) -> spec_fn(Project) -> bool {
        is_unfiled()
    }

    fn check(&self, x: &Project) -> (r: bool) {
        x.folder_id.is_none()
    }
}

pub struct InFolder<'a> {
    pub id: &'a str,
}

impl<'a> Test<Project> for InFolder<'a> {
    open spec fn pred(&self) -> spec_fn(Project) -> bool {
        in_folder(self.id@)
    }

    fn check(&self, x: &Project) -> (r: bool) {
        opt_is(&x.folder_id, self.id)
    }
}

pub struct ChildOf<'a> {
    pub parent: Option<&'a str>,
}

impl<'a> Test<Project> for ChildOf<'a> {
    open spec fn pred(&self) -> spec_fn(Project) -> bool {
        child_of(opt_str_view(self.parent))
    }

    fn check(&self, x: &Project) -> (r: bool) {
        opt_same(&x.parent_id, self.parent)
    }
}

pub struct NotAmong<'a> {
    pub shown: &'a StrSet,
}

impl<'a> Test<Project> for NotAmong<'a> {
    open spec fn pred(&self) -> spec_fn(Project) -> bool {
        not_among(self.shown@)
    }

    fn check(&self, x: &Project) -> (r: bool) {
        !self.shown.contains(x.id.as_str())
    }
}

pub struct FolderOf<'a> {
    pub ws: &'a str,
}

impl<'a> Test<Folder> for FolderOf<'a> {
    open spec fn pred(&self) -> spec_fn(Folder) -> bool {
        folder_of(self.ws@)
    }

    fn check(&self, x: &Folder) -> (r: bool) {
        x.workspace_id.as_str().eq(self.ws)
    }
}

pub struct PinFirst;

impl Ranking<Project> for PinFirst {
    open spec fn order(&self) -> spec_fn(Project, Project) -> bool {
        pin_first()
    }

    fn is_before(&self, a: &Project, b: &Project) -> (r: bool) {
        let ap = a.is_pinned();
        let bp = b.is_pinned();
        (ap && !bp) || (ap == bp && a.child_order < b.child_order)
    }
}

pub struct FolderRank;

impl Ranking<Folder> for FolderRank {
    open spec fn order(&self) -> spec_fn(Folder, Folder) -> bool {
        folder_rank()
    }

    fn is_before(&self, a: &Folder, b: &Folder) -> (r: bool) {
        a.child_order < b.child_order
    }
}

/// The children of `parent` among `group`, in sibling order.
pub open spec fn kids(group: Seq<Project>, parent: Option<Seq<char>>) -> Seq<Project> {
    sorted_by(group.filter(child_of(parent)), pin_first())
}

/// The projects `roots`, each followed by the projects below it in `group`,
/// down to `depth` further levels.
pub open spec fn forest(group: Seq<Project>, roots: Seq<Project>, depth: nat) -> Seq<Project>
    decreases depth, roots.len(),
{
    if roots.len() == 0 {
        Seq::empty()
    } else {
        let r = roots.last();
        let below = if depth == 0 {
            Seq::empty()
        } else {
            forest(group, kids(group, Some(r.id@)), (depth - 1) as nat)
        };
        forest(group, roots.drop_last(), depth) + seq![r] + below
    }
}

/// The projects of `group` below `parent`, as a flattened tree. A chain of
/// parents in a group is never longer than the group, which bounds the depth.
pub open spec fn subtree(group: Seq<Project>, parent: Option<Seq<char>>) -> Seq<Project> {
    forest(group, kids(group, parent), group.len())
}

/// The trees of the folders `folders`, one folder after the other.
pub open spec fn folders_part(group: Seq<Project>, folders: Seq<Folder>) -> Seq<Project> {
    folders.fold_left(
        Seq::<Project>::empty(),
        |acc: Seq<Project>, f: Folder| acc + subtree(group.filter(in_folder(f.id@)), None),
    )
}

/// The part of the list that shows the workspace `ws`.
pub open spec fn workspace_part(ps: Seq<Project>, ws: Seq<char>, folders: Seq<Folder>) -> Seq<
    Project,
> {
    let group = ps.filter(in_workspace(ws));
    subtree(group.filter(is_unfiled()), None) + folders_part(
        group,
        sorted_by(folders.filter(folder_of(ws)), folder_rank()),
    )
}

/// The parts of the workspaces `wss`, in their order.
pub open spec fn workspaces_part(ps: Seq<Project>, wss: Seq<Workspace>, folders: Seq<Folder>) -> Seq<
    Project,
> {
    wss.fold_left(
        Seq::<Project>::empty(),
        |acc: Seq<Project>, w: Workspace| acc + workspace_part(ps, w.id@, folders),
    )
}

/// The projects that the groups reach.
pub open spec fn reached(ps: Seq<Project>, wss: Seq<Workspace>, folders: Seq<Folder>) -> Seq<
    Project,
> {
    subtree(ps.filter(is_personal()), None) + workspaces_part(ps, wss, folders)
}

/// The ids that occur in `s`.
pub open spec fn ids_of(s: Seq<Project>) -> Set<Seq<char>> {
    Set::new(|k: Seq<char>| exists|i: int| 0 <= i < s.len() && #[trigger] s[i].id@ == k)
}

/// The project list in display order.
pub open spec fn project_order(ps: Seq<Project>, wss: Seq<Workspace>, folders: Seq<Folder>) -> Seq<
    Project,
> {
    let r = reached(ps, wss, folders);
    r + ps.filter(not_among(ids_of(r)))
}

/// Appends copies of `items` to `out`.
fn push_copies(out: &mut Vec<Project>, items: &Vec<&Project>)
    ensures
        final(out)@ == old(out)@ + derefs(items@),
{
    let mut i: usize = 0;
    while i < items.len()
        invariant
            i <= items.len(),
            out@ == old(out)@ + derefs(items@).take(i as int),
        decreases items.len() - i,
    {
        out.push(items[i].clone());
        i += 1;
        assert(out@ =~= old(out)@ + derefs(items@).take(i as int));
    }
    assert(derefs(items@).take(items.len() as int) == derefs(items@));
}

/// The children of `parent` among `group`, in sibling order.
fn kids_of<'a>(group: &Vec<&'a Project>, parent: Option<&str>) -> (r: Vec<&'a Project>)
    ensures
        derefs(r@) == kids(derefs(group@), opt_str_view(parent)),
{
    let same_parent = pick_again(group, &ChildOf { parent });
    stable_sort(same_parent, &PinFirst)
}

/// Appends to `out` the projects `roots`, each followed by what is below it.
fn collect_forest(group: &Vec<&Project>, roots: &Vec<&Project>, depth: usize, out: &mut Vec<Project>)
    ensures
        final(out)@ == old(out)@ + forest(derefs(group@), derefs(roots@), depth as nat),
    decreases depth,
{
    let ghost g = derefs(group@);
    let ghost rs = derefs(roots@);
    let mut i: usize = 0;
    assert(out@ =~= old(out)@ + forest(g, rs.take(0), depth as nat));
    while i < roots.len()
        invariant
            i <= roots.len(),
            g == derefs(group@),
            rs == derefs(roots@),
            out@ == old(out)@ + forest(g, rs.take(i as int), depth as nat),
        decreases roots.len() - i,
    {
        let ghost so_far = out@;
        let root: &Project = roots[i];
        out.push(root.clone());
        if depth > 0 {
            let below = kids_of(group, Some(root.id.as_str()));
            collect_forest(group, &below, depth - 1, out);
        }
        proof {
            let next = rs.take(i + 1);
            assert(next.drop_last() == rs.take(i as int));
            assert(next.last() == rs[i as int]);
            assert(out@ =~= old(out)@ + forest(g, next, depth as nat));
        }
        i += 1;
    }
    assert(rs.take(roots.len() as int) == rs);
}

/// Appends to `out` the projects of `all` below `parent_id`, as a flattened
/// tree in sibling order.
pub fn collect_project_subtree(parent_id: Option<&str>, all: &Vec<&Project>, out: &mut Vec<Project>)
    ensures
        final(out)@ == old(out)@ + subtree(derefs(all@), opt_str_view(parent_id)),
{
    let roots = kids_of(all, parent_id);
    collect_forest(all, &roots, all.len(), out);
}

/// Appends to `out` the part of the list that shows the workspace `ws`.
fn collect_workspace(ps: &Vec<Project>, ws: &str, folders: &Vec<Folder>, out: &mut Vec<Project>)
    ensures
        final(out)@ == old(out)@ + workspace_part(ps@, ws@, folders@),
{
    let group = pick(ps, &InWorkspace { id: ws });
    let loose = pick_again(&group, &Unfiled);
    collect_project_subtree(None, &loose, out);
    let ghost after_loose = out@;
    let own = pick(folders, &FolderOf { ws });
    let sorted = stable_sort(own, &FolderRank);
    let ghost fs = derefs(sorted@);
    let ghost g = derefs(group@);
    let mut i: usize = 0;
    assert(out@ =~= after_loose + folders_part(g, fs.take(0)));
    while i < sorted.len()
        invariant
            i <= sorted.len(),
            fs == derefs(sorted@),
            g == derefs(group@),
            out@ == after_loose + folders_part(g, fs.take(i as int)),
        decreases sorted.len() - i,
    {
        let folder: &Folder = sorted[i];
        let inside = pick_again(&group, &InFolder { id: folder.id.as_str() });
        collect_project_subtree(None, &inside, out);
        proof {
            let next = fs.take(i + 1);
            assert(next.drop_last() == fs.take(i as int));
            assert(next.last() == fs[i as int]);
            assert(out@ =~= after_loose + folders_part(g, next));
        }
        i += 1;
    }
    assert(fs.take(sorted.len() as int) == fs);
    assert(out@ =~= old(out)@ + workspace_part(ps@, ws@, folders@));
}

/// The set of the ids of `list`.
fn id_set(list: &Vec<Project>) -> (s: StrSet)
    ensures
        s@ == ids_of(list@),
{
    let mut s = StrSet::new();
    let mut i: usize = 0;
    assert(s@ =~= ids_of(list@.take(0)));
    while i < list.len()
        invariant
            i <= list.len(),
            s@ == ids_of(list@.take(i as int)),
        decreases list.len() - i,
    {
        let ghost before = s@;
        s.insert(list[i].id.clone());
        proof {
            let prev = list@.take(i as int);
            let next = list@.take(i + 1);
            assert forall|k: Seq<char>| #[trigger]
                ids_of(next).contains(k) == before.insert(list@[i as int].id@).contains(k) by {
                if ids_of(next).contains(k) {
                    let j = choose|j: int| 0 <= j < next.len() && #[trigger] next[j].id@ == k;
                    if j < i {
                        assert(prev[j].id@ == k);
                    }
                }
                if before.contains(k) {
                    let j = choose|j: int| 0 <= j < prev.len() && #[trigger] prev[j].id@ == k;
                    assert(next[j].id@ == k);
                }
                if k == list@[i as int].id@ {
                    assert(next[i as int].id@ == k);
                }
            }
            assert(s@ =~= ids_of(next));
        }
        i += 1;
    }
    assert(list@.take(list.len() as int) == list@);
    s
}

/// The project list `ps` in display order.
pub fn ordered_projects(ps: &Vec<Project>, wss: &Vec<Workspace>, folders: &Vec<Folder>) -> (r: Vec<
    Project,
>)
    ensures
        r@ == project_order(ps@, wss@, folders@),
{
    let mut out: Vec<Project> = Vec::new();
    let personal = pick(ps, &Personal);
    collect_project_subtree(None, &personal, &mut out);
    let ghost head = out@;
    assert(head =~= subtree(ps@.filter(is_personal()), None));
    let mut i: usize = 0;
    assert(out@ =~= head + workspaces_part(ps@, wss@.take(0), folders@));
    while i < wss.len()
        invariant
            i <= wss.len(),
            out@ == head + workspaces_part(ps@, wss@.take(i as int), folders@),
        decreases wss.len() - i,
    {
        collect_workspace(ps, wss[i].id.as_str(), folders, &mut out);
        proof {
            let next = wss@.take(i + 1);
            assert(next.drop_last() == wss@.take(i as int));
            assert(next.last() == wss@[i as int]);
            assert(out@ =~= head + workspaces_part(ps@, next, folders@));
        }
        i += 1;
    }
    assert(wss@.take(wss.len() as int) == wss@);
    let shown = id_set(&out);
    let rest = pick(ps, &NotAmong { shown: &shown });
    push_copies(&mut out, &rest);
    out
}

/// Where the selection goes when the list `ps` becomes `sorted`: to the first
/// project with the id of the selected one, and nowhere else if there is
/// none.
pub open spec fn selection_after(ps: Seq<Project>, selected: int, sorted: Seq<Project>) -> int {
    if 0 <= selected < ps.len() && first_index(sorted, ps[selected].id@) < sorted.len() {
        first_index(sorted, ps[selected].id@)
    } else {
        selected
    }
}

/// Puts the projects of `store` in display order into `shown` and returns
/// where the project went that was selected in `shown` before.
pub fn sort_project_list(
    store: &Vec<Project>,
    shown: &mut Vec<Project>,
    selected: usize,
    wss: &Vec<Workspace>,
    folders: &Vec<Folder>,
) -> (now_selected: usize)
    ensures
        final(shown)@ == project_order(store@, wss@, folders@),
        now_selected == selection_after(old(shown)@, selected as int, final(shown)@),
{
    let sorted = ordered_projects(store, wss, folders);
    let mut now_selected = selected;
    if selected < shown.len() {
        let pos = find_by_id(&sorted, shown[selected].id.as_str());
        if pos < sorted.len() {
            now_selected = pos;
        }
    }
    *shown = sorted;
    now_selected
}

} // verus!
