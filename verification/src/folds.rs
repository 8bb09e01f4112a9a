//! Folding subtrees of the task list away, and back.

use crate::app::App;
use crate::merge::first_index;
use crate::models::Task;
use crate::order::derefs;
use crate::projects::opt_is;
use crate::queries::has_parent;
use crate::strmap::StrSet;
use crate::submit::row_at;
use vstd::prelude::*;

verus! {

/// Whether some task of `tasks` has the task `id` as its parent.
pub open spec fn is_parent(tasks: Seq<Task>, id: Seq<char>) -> bool {
    exists|i: int| 0 <= i < tasks.len() && (#[trigger] tasks[i]).parent_id.deep_view() == Some(id)
}

/// The ids of the tasks of `tasks` that have a child.
pub open spec fn parent_ids(tasks: Seq<Task>) -> Set<Seq<char>> {
    Set::new(
        |k: Seq<char>|
            is_parent(tasks, k) && exists|i: int| 0 <= i < tasks.len() && (#[trigger] tasks[i]).id@ == k,
    )
}

/// The ids of the first `n` tasks of `tasks` that have a child among all of
/// them.
pub open spec fn parent_ids_upto(tasks: Seq<Task>, n: int) -> Set<Seq<char>> {
    Set::new(
        |k: Seq<char>|
            is_parent(tasks, k) && exists|i: int| 0 <= i < n && (#[trigger] tasks[i]).id@ == k,
    )
}

/// Whether some task of `tasks` has the task `id` as its parent.
pub fn task_has_children(tasks: &Vec<Task>, id: &str) -> (r: bool)
    ensures
        r == is_parent(tasks@, id@),
{
    let mut i: usize = 0;
    while i < tasks.len()
        invariant
            i <= tasks.len(),
            forall|j: int| 0 <= j < i ==> (#[trigger] tasks@[j]).parent_id.deep_view() != Some(id@),
        decreases tasks.len() - i,
    {
        if opt_is(&tasks[i].parent_id, id) {
            return true;
        }
        i += 1;
    }
    false
}

/// Folds away the subtree of every task of `tasks` that has a child.
pub fn fold_all(collapsed: &mut StrSet, tasks: &Vec<Task>)
    ensures
        final(collapsed)@ == old(collapsed)@ + parent_ids(tasks@),
{
    let mut i: usize = 0;
    assert(collapsed@ =~= old(collapsed)@ + parent_ids_upto(tasks@, 0));
    while i < tasks.len()
        invariant
            i <= tasks.len(),
            collapsed@ == old(collapsed)@ + parent_ids_upto(tasks@, i as int),
        decreases tasks.len() - i,
    {
        let ghost before = collapsed@;
        if task_has_children(tasks, tasks[i].id.as_str()) {
            collapsed.insert(tasks[i].id.clone());
        }
        proof {
            let k0 = tasks@[i as int].id@;
            assert forall|k: Seq<char>| #[trigger]
                parent_ids_upto(tasks@, i + 1).contains(k) == (parent_ids_upto(
                    tasks@,
                    i as int,
                ).contains(k) || (k == k0 && is_parent(tasks@, k0))) by {
                if parent_ids_upto(tasks@, i + 1).contains(k) {
                    let j = choose|j: int| 0 <= j < i + 1 && (#[trigger] tasks@[j]).id@ == k;
                    if j < i {
                        assert(parent_ids_upto(tasks@, i as int).contains(k));
                    }
                }
                if parent_ids_upto(tasks@, i as int).contains(k) {
                    let j = choose|j: int| 0 <= j < i && (#[trigger] tasks@[j]).id@ == k;
                    assert(0 <= j < i + 1 && tasks@[j].id@ == k);
                }
                if k == k0 && is_parent(tasks@, k0) {
                    assert(tasks@[i as int].id@ == k);
                }
            }
            assert(collapsed@ =~= old(collapsed)@ + parent_ids_upto(tasks@, i + 1));
        }
        i += 1;
    }
    assert(parent_ids_upto(tasks@, tasks.len() as int) =~= parent_ids(tasks@));
}

/// Index of the first row of id `id`; the number of rows where there is
/// none.
pub fn find_row(rows: &Vec<&Task>, id: &str) -> (r: usize)
    ensures
        r == first_index(derefs(rows@), id@),
        r <= rows.len(),
{
    let mut i: usize = 0;
    while i < rows.len()
        invariant
            i <= rows.len(),
            forall|j: int| 0 <= j < i ==> derefs(rows@)[j].id@ != id@,
        decreases rows.len() - i,
    {
        if rows[i].id.as_str().eq(id) {
            proof {
                crate::merge::lemma_first_index_is(derefs(rows@), id@, i as int);
            }
            return i;
        }
        i += 1;
    }
    proof {
        crate::merge::lemma_first_index_is(derefs(rows@), id@, i as int);
    }
    i
}

/// The set with `k` put in if it was out, and taken out if it was in.
pub open spec fn flipped(s: Set<Seq<char>>, k: Seq<char>) -> Set<Seq<char>> {
    if s.contains(k) {
        s.remove(k)
    } else {
        s.insert(k)
    }
}

/// Puts `k` into the set if it was out, and takes it out if it was in.
pub fn flip_member(s: &mut StrSet, k: String)
    ensures
        final(s)@ == flipped(old(s)@, k@),
{
    if s.contains(k.as_str()) {
        s.remove(k.as_str());
    } else {
        s.insert(k);
    }
}

impl App {
    /// What toggling the fold at the row under the cursor does. At a task
    /// with children the fold of that task is flipped. At a leaf the parent
    /// is folded and the cursor moves onto it. Without a row, and at a leaf
    /// without parent, nothing happens.
    pub open spec fn fold_toggled(pre: App, post: App) -> bool {
        match row_at(pre.rows(), pre.selected_task) {
            None => post == pre,
            Some(row) => if is_parent(pre.tasks@, row.id@) {
                &&& post.collapsed@ == flipped(pre.collapsed@, row.id@)
                &&& post == (App { collapsed: post.collapsed, ..pre })
            } else {
                match row.parent_id {
                    None => post == pre,
                    Some(p) => {
                        &&& post.collapsed@ == pre.collapsed@.insert(p@)
                        &&& post.selected_task == (if first_index(post.rows(), p@)
                            < post.rows().len() {
                            first_index(post.rows(), p@) as usize
                        } else {
                            pre.selected_task
                        })
                        &&& post == (App {
                            collapsed: post.collapsed,
                            selected_task: post.selected_task,
                            ..pre
                        })
                    },
                }
            },
        }
    }

    /// Flips the fold of the task `id`.
    fn flip_fold(&mut self, id: String)
        ensures
            final(self).collapsed@ == flipped(old(self).collapsed@, id@),
            *final(self) == (App { collapsed: final(self).collapsed, ..*old(self) }),
    {
        flip_member(&mut self.collapsed, id);
    }

    /// Folds the subtree of the task `id`.
    fn fold(&mut self, id: String)
        ensures
            final(self).collapsed@ == old(self).collapsed@.insert(id@),
            *final(self) == (App { collapsed: final(self).collapsed, ..*old(self) }),
    {
        self.collapsed.insert(id);
    }

    /// Moves the cursor onto the first row of id `id`, if there is one.
    fn select_row(&mut self, id: &str)
        ensures
            final(self).selected_task == (if first_index(old(self).rows(), id@) < old(self).rows().len() {
                first_index(old(self).rows(), id@) as usize
            } else {
                old(self).selected_task
            }),
            *final(self) == (App { selected_task: final(self).selected_task, ..*old(self) }),
    {
        let rows = self.visible_tasks();
        let pos = find_row(&rows, id);
        assert(derefs(rows@).len() == rows@.len());
        if pos < rows.len() {
            self.selected_task = pos;
        }
    }

    /// Folds the subtree of the task `id` and moves the cursor onto it.
    fn fold_and_select(&mut self, id: String)
        ensures
            final(self).collapsed@ == old(self).collapsed@.insert(id@),
            final(self).selected_task == (if first_index(final(self).rows(), id@) < final(self).rows().len() {
                first_index(final(self).rows(), id@) as usize
            } else {
                old(self).selected_task
            }),
            *final(self) == (App {
                collapsed: final(self).collapsed,
                selected_task: final(self).selected_task,
                ..*old(self)
            }),
    {
        self.fold(id.clone());
        let ghost folded = *self;
        self.select_row(id.as_str());
        assert(self.selection_view() == folded.selection_view());
    }

    /// Flips the fold of the task `flip`, where there is one; otherwise
    /// folds the task `parent`, where there is one, and moves the cursor
    /// onto it.
    fn move_fold(&mut self, flip: Option<String>, parent: Option<String>)
        ensures
            match flip {
                Some(id) => {
                    &&& final(self).collapsed@ == flipped(old(self).collapsed@, id@)
                    &&& *final(self) == (App { collapsed: final(self).collapsed, ..*old(self) })
                },
                None => match parent {
                    Some(p) => {
                        &&& final(self).collapsed@ == old(self).collapsed@.insert(p@)
                        &&& final(self).selected_task == (if first_index(final(self).rows(), p@)
                            < final(self).rows().len() {
                            first_index(final(self).rows(), p@) as usize
                        } else {
                            old(self).selected_task
                        })
                        &&& *final(self) == (App {
                            collapsed: final(self).collapsed,
                            selected_task: final(self).selected_task,
                            ..*old(self)
                        })
                    },
                    None => *final(self) == *old(self),
                },
            },
    {
        match flip {
            Some(id) => self.flip_fold(id),
            None => match parent {
                Some(p) => self.fold_and_select(p),
                None => {},
            },
        }
    }

    /// Toggles the fold at the row under the cursor.
    pub fn toggle_collapse(&mut self)
        ensures
            Self::fold_toggled(*old(self), *final(self)),
    {
        let (flip, parent) = match self.selected_task() {
            None => (None, None),
            Some(t) => if task_has_children(&self.tasks, t.id.as_str()) {
                (Some(t.id.clone()), None)
            } else {
                (None, crate::models::clone_opt_text(&t.parent_id))
            },
        };
        self.move_fold(flip, parent);
    }

    /// What folding everything does: every task that has a child is folded.
    pub open spec fn all_folded(pre: App, post: App) -> bool {
        &&& post.collapsed@ == pre.collapsed@ + parent_ids(pre.tasks@)
        &&& post == (App { collapsed: post.collapsed, ..pre })
    }

    /// Folds the subtree of every task that has a child.
    pub fn close_all_folds(&mut self)
        ensures
            Self::all_folded(*old(self), *final(self)),
    {
        fold_all(&mut self.collapsed, &self.tasks);
    }

    /// What unfolding everything does: no task is folded.
    pub open spec fn all_unfolded(pre: App, post: App) -> bool {
        &&& post.collapsed@ == Set::<Seq<char>>::empty()
        &&& post == (App { collapsed: post.collapsed, ..pre })
    }

    /// Unfolds every subtree.
    pub fn open_all_folds(&mut self)
        ensures
            Self::all_unfolded(*old(self), *final(self)),
    {
        self.collapsed.clear();
    }
}

} // verus!
