//! The lines of the project list, and how deep projects and tasks lie.

use crate::app::App;
use crate::folds::{flip_member, flipped};
use crate::merge::{find_by_id, first_index, holds_key};
use crate::models::{Folder, Project, Task, Workspace};
use crate::models::clone_opt_text;
use crate::projects::{opt_is, opt_same, opt_str_view};
use crate::selector::{has_completed_descendant, has_done_below};
use crate::state::{ProjectEntry, ProjectNavItem, TaskFilter};
use crate::strmap::StrSet;
use vstd::prelude::*;

verus! {

/// How far the listing has come: the lines so far, whether the heading of
/// the personal projects was written, and the workspace and the folder of
/// the last project of a workspace.
pub struct Listing {
    pub entries: Seq<ProjectEntry>,
    pub in_personal: bool,
    pub last_ws: Option<Seq<char>>,
    pub last_folder: Option<Seq<char>>,
}

/// The lines that open the group of the project `p`, after the listing
/// `l`. A personal project is preceded by the heading of the personal
/// projects, once. A project of a workspace other than the last one is
/// preceded by a separator and the heading of its workspace, where the
/// workspace is known. A project of a folder other than the last one is
/// preceded by the heading of its folder, where the folder is known.
pub open spec fn headed(l: Listing, p: Project, wss: Seq<Workspace>, folders: Seq<Folder>) -> Listing {
    match p.workspace_id {
        None => if l.in_personal {
            l
        } else {
            Listing { entries: l.entries.push(ProjectEntry::PersonalHeader), in_personal: true, ..l }
        },
        Some(ws) => {
            let l1 = if l.last_ws != Some(ws@) {
                let e = l.entries.push(ProjectEntry::Separator);
                let wi = first_index(wss, ws@);
                Listing {
                    entries: if wi < wss.len() {
                        e.push(ProjectEntry::WorkspaceHeader(wi as usize))
                    } else {
                        e
                    },
                    last_ws: Some(ws@),
                    last_folder: None,
                    ..l
                }
            } else {
                l
            };
            if l1.last_folder != p.folder_id.deep_view() {
                Listing {
                    entries: match p.folder_id {
                        Some(f) => if first_index(folders, f@) < folders.len() {
                            l1.entries.push(
                                ProjectEntry::FolderHeader(first_index(folders, f@) as usize),
                            )
                        } else {
                            l1.entries
                        },
                        None => l1.entries,
                    },
                    last_folder: p.folder_id.deep_view(),
                    ..l1
                }
            } else {
                l1
            }
        },
    }
}

/// Whether the project `p` lies in a folder that is folded away.
pub open spec fn folded_away(p: Project, collapsed: Set<Seq<char>>) -> bool {
    match p.folder_id {
        Some(f) => collapsed.contains(f@),
        None => false,
    }
}

/// The listing after the project `p`, which is the `i`-th of the list: the
/// lines that open its group, and its own line unless its folder is folded
/// away.
pub open spec fn listed(
    l: Listing,
    i: int,
    p: Project,
    wss: Seq<Workspace>,
    folders: Seq<Folder>,
    collapsed: Set<Seq<char>>,
) -> Listing {
    let h = headed(l, p, wss, folders);
    if folded_away(p, collapsed) {
        h
    } else {
        Listing { entries: h.entries.push(ProjectEntry::Project(i as usize)), ..h }
    }
}

/// The listing after the first `n` projects.
pub open spec fn listing(
    ps: Seq<Project>,
    wss: Seq<Workspace>,
    folders: Seq<Folder>,
    collapsed: Set<Seq<char>>,
    n: int,
) -> Listing
    decreases n,
{
    if n <= 0 {
        Listing { entries: Seq::empty(), in_personal: false, last_ws: None, last_folder: None }
    } else {
        listed(listing(ps, wss, folders, collapsed, n - 1), n - 1, ps[n - 1], wss, folders, collapsed)
    }
}

/// The lines of the project list.
pub fn list_entries(ps: &Vec<Project>, wss: &Vec<Workspace>, folders: &Vec<Folder>, collapsed: &StrSet) -> (r:
    Vec<ProjectEntry>)
    ensures
        r@ == listing(ps@, wss@, folders@, collapsed@, ps.len() as int).entries,
{
    let mut entries: Vec<ProjectEntry> = Vec::new();
    let mut in_personal = false;
    let mut last_ws: Option<&str> = None;
    let mut last_folder: Option<&str> = None;
    let mut i: usize = 0;
    while i < ps.len()
        invariant
            i <= ps.len(),
            listing(ps@, wss@, folders@, collapsed@, i as int) == (Listing {
                entries: entries@,
                in_personal,
                last_ws: opt_str_view(last_ws),
                last_folder: opt_str_view(last_folder),
            }),
        decreases ps.len() - i,
    {
        let p = &ps[i];
        match &p.workspace_id {
            None => {
                if !in_personal {
                    in_personal = true;
                    entries.push(ProjectEntry::PersonalHeader);
                }
            },
            Some(ws) => {
                if !opt_same(&p.workspace_id, last_ws) {
                    last_ws = Some(ws.as_str());
                    last_folder = None;
                    entries.push(ProjectEntry::Separator);
                    let wi = find_by_id(wss, ws.as_str());
                    if wi < wss.len() {
                        entries.push(ProjectEntry::WorkspaceHeader(wi));
                    }
                }
                if !opt_same(&p.folder_id, last_folder) {
                    match &p.folder_id {
                        Some(f) => {
                            last_folder = Some(f.as_str());
                            let fi = find_by_id(folders, f.as_str());
                            if fi < folders.len() {
                                entries.push(ProjectEntry::FolderHeader(fi));
                            }
                        },
                        None => {
                            last_folder = None;
                        },
                    }
                }
            },
        }
        let hidden = match &p.folder_id {
            Some(f) => collapsed.contains(f.as_str()),
            None => false,
        };
        if !hidden {
            entries.push(ProjectEntry::Project(i));
        }
        i += 1;
    }
    entries
}

/// The lines of a list that the cursor can stand on: the headings of
/// folders and the projects.
pub open spec fn nav_items(entries: Seq<ProjectEntry>) -> Seq<ProjectNavItem>
    decreases entries.len(),
{
    if entries.len() == 0 {
        Seq::empty()
    } else {
        let init = nav_items(entries.drop_last());
        match entries.last() {
            ProjectEntry::FolderHeader(fi) => init.push(ProjectNavItem::Folder(fi)),
            ProjectEntry::Project(i) => init.push(ProjectNavItem::Project(i)),
            _ => init,
        }
    }
}

/// The lines of `entries` that the cursor can stand on.
pub fn nav_items_of(entries: &Vec<ProjectEntry>) -> (r: Vec<ProjectNavItem>)
    ensures
        r@ == nav_items(entries@),
{
    let mut out: Vec<ProjectNavItem> = Vec::new();
    let mut i: usize = 0;
    while i < entries.len()
        invariant
            i <= entries.len(),
            out@ == nav_items(entries@.take(i as int)),
        decreases entries.len() - i,
    {
        proof {
            assert(entries@.take(i + 1).drop_last() == entries@.take(i as int));
            assert(entries@.take(i + 1).last() == entries@[i as int]);
        }
        match entries[i] {
            ProjectEntry::FolderHeader(fi) => {
                out.push(ProjectNavItem::Folder(fi));
            },
            ProjectEntry::Project(pi) => {
                out.push(ProjectNavItem::Project(pi));
            },
            _ => {},
        }
        i += 1;
    }
    assert(entries@.take(entries.len() as int) == entries@);
    out
}

/// How many parents lie above the project `id`, following the parent ids
/// for at most `steps` steps.
pub open spec fn depth_below(ps: Seq<Project>, id: Seq<char>, steps: nat) -> nat
    decreases steps,
{
    let i = first_index(ps, id);
    if steps == 0 || i >= ps.len() {
        0
    } else {
        match ps[i].parent_id {
            None => 0,
            Some(p) => 1 + depth_below(ps, p@, (steps - 1) as nat),
        }
    }
}

/// How many parents lie above the project `id`. A chain of parents is never
/// longer than the list.
pub fn depth_of_project(ps: &Vec<Project>, id: &str) -> (d: usize)
    ensures
        d == depth_below(ps@, id@, ps.len() as nat),
{
    let mut depth: usize = 0;
    let mut current: &str = id;
    let mut steps: usize = ps.len();
    loop
        invariant
            steps <= ps.len(),
            depth + steps <= ps.len(),
            depth_below(ps@, id@, ps.len() as nat) == depth + depth_below(ps@, current@, steps as nat),
        decreases steps,
    {
        if steps == 0 {
            return depth;
        }
        let i = find_by_id(ps, current);
        if i >= ps.len() {
            return depth;
        }
        match &ps[i].parent_id {
            None => {
                return depth;
            },
            Some(p) => {
                depth += 1;
                current = p.as_str();
                steps -= 1;
            },
        }
    }
}

/// How many tasks lie above a task whose parent is `parent`, following the
/// parent ids for at most `steps` steps. A parent that is named counts even
/// where the replica does not hold it.
pub open spec fn depth_above(tasks: Seq<Task>, parent: Option<Seq<char>>, steps: nat) -> nat
    decreases steps,
{
    match parent {
        None => 0,
        Some(p) => if steps == 0 {
            0
        } else {
            let i = first_index(tasks, p);
            1 + depth_above(
                tasks,
                if i < tasks.len() {
                    tasks[i].parent_id.deep_view()
                } else {
                    None
                },
                (steps - 1) as nat,
            )
        },
    }
}

/// How many tasks lie above a task whose parent is `parent`.
pub fn depth_of_task(tasks: &Vec<Task>, parent: Option<&str>) -> (d: usize)
    ensures
        tasks.len() < usize::MAX ==> d == depth_above(
            tasks@,
            opt_str_view(parent),
            (tasks.len() + 1) as nat,
        ),
{
    if tasks.len() == usize::MAX {
        return 0;
    }
    let mut depth: usize = 0;
    let mut current: Option<&str> = parent;
    let mut steps: usize = tasks.len() + 1;
    loop
        invariant
            steps <= tasks.len() + 1,
            depth + steps <= tasks.len() + 1,
            tasks.len() < usize::MAX,
            depth_above(tasks@, opt_str_view(parent), (tasks.len() + 1) as nat) == depth + depth_above(
                tasks@,
                opt_str_view(current),
                steps as nat,
            ),
        decreases steps,
    {
        match current {
            None => {
                return depth;
            },
            Some(p) => {
                if steps == 0 {
                    return depth;
                }
                depth += 1;
                steps -= 1;
                let i = find_by_id(tasks, p);
                current = if i < tasks.len() {
                    match &tasks[i].parent_id {
                        Some(q) => Some(q.as_str()),
                        None => None,
                    }
                } else {
                    None
                };
            },
        }
    }
}

/// Whether the fetched task with the parent `parent` lies below `ancestor`
/// among the fetched tasks `cached`, following the parent ids for at most
/// `steps` steps.
pub open spec fn cached_below(cached: Seq<Task>, parent: Option<Seq<char>>, ancestor: Seq<char>, steps: nat) -> bool
    decreases steps,
{
    match parent {
        None => false,
        Some(p) => if p == ancestor {
            true
        } else if steps == 0 {
            false
        } else {
            let i = first_index(cached, p);
            cached_below(
                cached,
                if i < cached.len() {
                    cached[i].parent_id.deep_view()
                } else {
                    None
                },
                ancestor,
                (steps - 1) as nat,
            )
        },
    }
}

/// Whether the fetched task `task` lies below `ancestor` among `cached`.
pub fn is_cached_descendant_of(task: &Task, ancestor: &str, cached: &Vec<Task>) -> (r: bool)
    ensures
        r == cached_below(cached@, task.parent_id.deep_view(), ancestor@, cached.len() as nat),
{
    let mut current: Option<&str> = match &task.parent_id {
        Some(p) => Some(p.as_str()),
        None => None,
    };
    let mut steps: usize = cached.len();
    loop
        invariant
            steps <= cached.len(),
            cached_below(cached@, task.parent_id.deep_view(), ancestor@, cached.len() as nat)
                == cached_below(cached@, opt_str_view(current), ancestor@, steps as nat),
        decreases steps,
    {
        match current {
            None => {
                return false;
            },
            Some(p) => {
                if p.eq(ancestor) {
                    return true;
                }
                if steps == 0 {
                    return false;
                }
                steps -= 1;
                let i = find_by_id(cached, p);
                current = if i < cached.len() {
                    match &cached[i].parent_id {
                        Some(q) => Some(q.as_str()),
                        None => None,
                    }
                } else {
                    None
                };
            },
        }
    }
}

/// Whether a task of `cached` lies below `ancestor`.
pub open spec fn any_cached_below(cached: Seq<Task>, ancestor: Seq<char>) -> bool {
    exists|i: int|
        0 <= i < cached.len() && #[trigger] cached_below(
            cached,
            cached[i].parent_id.deep_view(),
            ancestor,
            cached.len(),
        )
}

/// Whether a task of `cached` lies below `ancestor`.
pub fn has_cached_descendant(cached: &Vec<Task>, ancestor: &str) -> (r: bool)
    ensures
        r == any_cached_below(cached@, ancestor@),
{
    let mut i: usize = 0;
    while i < cached.len()
        invariant
            i <= cached.len(),
            forall|j: int|
                0 <= j < i ==> !#[trigger] cached_below(
                    cached@,
                    cached@[j].parent_id.deep_view(),
                    ancestor@,
                    cached.len() as nat,
                ),
        decreases cached.len() - i,
    {
        if is_cached_descendant_of(&cached[i], ancestor, cached) {
            return true;
        }
        i += 1;
    }
    false
}

impl App {
    /// The lines of the project list.
    pub fn project_list_entries(&self) -> (r: Vec<ProjectEntry>)
        ensures
            r@ == listing(
                self.projects@,
                self.workspaces@,
                self.folders@,
                self.collapsed_folders@,
                self.projects@.len() as int,
            ).entries,
    {
        list_entries(&self.projects, &self.workspaces, &self.folders, &self.collapsed_folders)
    }

    /// The lines of the project list that the cursor can stand on.
    pub fn visible_nav_items(&self) -> (r: Vec<ProjectNavItem>)
        ensures
            r@ == nav_items(
                listing(
                    self.projects@,
                    self.workspaces@,
                    self.folders@,
                    self.collapsed_folders@,
                    self.projects@.len() as int,
                ).entries,
            ),
    {
        let entries = self.project_list_entries();
        nav_items_of(&entries)
    }

    /// How many parents lie above the project `project_id`.
    pub fn project_depth(&self, project_id: &str) -> (d: usize)
        ensures
            d == depth_below(self.projects@, project_id@, self.projects@.len()),
    {
        depth_of_project(&self.projects, project_id)
    }

    /// How far the project is indented in the list: by its depth, and once
    /// more where it stands alone, or three times more where it lies in a
    /// folder.
    pub fn project_indent(&self, project: &Project) -> (n: usize)
        requires
            self.projects@.len() <= usize::MAX - 3,
        ensures
            n == (if project.folder_id is Some {
                3nat
            } else {
                1nat
            }) + depth_below(self.projects@, project.id@, self.projects@.len()),
    {
        let base: usize = if project.folder_id.is_some() {
            3
        } else {
            1
        };
        proof {
            lemma_depth_bounded(self.projects@, project.id@, self.projects@.len());
        }
        base + self.project_depth(project.id.as_str())
    }

    /// How many tasks lie above `task`.
    pub fn task_depth(&self, task: &Task) -> (d: usize)
        ensures
            self.tasks@.len() < usize::MAX ==> d == depth_above(
                self.tasks@,
                task.parent_id.deep_view(),
                (self.tasks@.len() + 1) as nat,
            ),
    {
        let parent: Option<&str> = match &task.parent_id {
            Some(p) => Some(p.as_str()),
            None => None,
        };
        depth_of_task(&self.tasks, parent)
    }

    /// Whether `task` is shown among the completed tasks only to give them
    /// context: the filter shows the completed tasks of a project, the task
    /// itself is not completed, and a completed task lies below it in the
    /// replica or among the fetched tasks of the selected project.
    pub open spec fn gives_context(&self, task: Task) -> bool {
        self.task_filter == TaskFilter::Done && self.dock_filter is None && !task.checked && (
        has_done_below(self.tasks@, task.id@) || match self.selection_view().cached {
            Some(cached) => any_cached_below(cached, task.id@),
            None => false,
        })
    }

    /// Whether `task` is a context row.
    pub fn is_context_task(&self, task: &Task) -> (r: bool)
        ensures
            r == self.gives_context(*task),
    {
        if !(self.task_filter == TaskFilter::Done && self.dock_filter.is_none() && !task.checked) {
            return false;
        }
        if has_completed_descendant(&self.tasks, task.id.as_str()) {
            return true;
        }
        let sel = self.selection();
        match sel.cached {
            Some(cached) => has_cached_descendant(cached, task.id.as_str()),
            None => false,
        }
    }

    /// The folder that the fold of the project list is toggled for: the
    /// folder under the folder cursor, or else the folder of the selected
    /// project.
    pub open spec fn folder_at_cursor(&self) -> Option<Seq<char>> {
        match self.folder_cursor {
            Some(fi) => if fi < self.folders@.len() {
                Some(self.folders@[fi as int].id@)
            } else {
                None
            },
            None => if self.selected_project < self.projects@.len() {
                self.projects@[self.selected_project as int].folder_id.deep_view()
            } else {
                None
            },
        }
    }

    /// What toggling the fold of a folder does: the fold of the folder at
    /// the cursor is flipped, and the folder cursor goes to that folder
    /// where it is known. Without a folder at the cursor nothing happens.
    pub open spec fn folder_toggled(pre: App, post: App) -> bool {
        match pre.folder_at_cursor() {
            None => post == pre,
            Some(f) => {
                &&& post.collapsed_folders@ == flipped(pre.collapsed_folders@, f)
                &&& post.folder_cursor == (if first_index(pre.folders@, f) < pre.folders@.len() {
                    Some(first_index(pre.folders@, f) as usize)
                } else {
                    pre.folder_cursor
                })
                &&& post == (App {
                    collapsed_folders: post.collapsed_folders,
                    folder_cursor: post.folder_cursor,
                    ..pre
                })
            },
        }
    }

    /// The folder at the cursor.
    fn cursor_folder(&self) -> (r: Option<String>)
        ensures
            r.deep_view() == self.folder_at_cursor(),
    {
        match self.folder_cursor {
            Some(fi) => if fi < self.folders.len() {
                Some(self.folders[fi].id.clone())
            } else {
                None
            },
            None => if self.selected_project < self.projects.len() {
                clone_opt_text(&self.projects[self.selected_project].folder_id)
            } else {
                None
            },
        }
    }

    /// Flips the fold of the folder `f` and puts the folder cursor at
    /// `cursor`.
    fn flip_folder(&mut self, f: String, cursor: Option<usize>)
        ensures
            final(self).collapsed_folders@ == flipped(old(self).collapsed_folders@, f@),
            *final(self) == (App {
                collapsed_folders: final(self).collapsed_folders,
                folder_cursor: cursor,
                ..*old(self)
            }),
    {
        flip_member(&mut self.collapsed_folders, f);
        self.folder_cursor = cursor;
    }

    /// Toggles the fold of the folder at the cursor.
    pub fn toggle_folder_collapse(&mut self)
        ensures
            Self::folder_toggled(*old(self), *final(self)),
    {
        let f = match self.cursor_folder() {
            None => {
                return ;
            },
            Some(f) => f,
        };
        let fi = find_by_id(&self.folders, f.as_str());
        let cursor = if fi < self.folders.len() {
            Some(fi)
        } else {
            self.folder_cursor
        };
        self.flip_folder(f, cursor);
    }
}

/// A project lies no deeper than the steps that were followed.
pub proof fn lemma_depth_bounded(ps: Seq<Project>, id: Seq<char>, steps: nat)
    ensures
        depth_below(ps, id, steps) <= steps,
    decreases steps,
{
    let i = first_index(ps, id);
    if steps > 0 && i < ps.len() {
        match ps[i].parent_id {
            None => {},
            Some(p) => {
                lemma_depth_bounded(ps, p@, (steps - 1) as nat);
            },
        }
    }
}

} // verus!
