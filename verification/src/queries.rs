//! What the interface reads off the state: the visible rows, the selected
//! task, the counters of the overview.

use crate::app::App;
use crate::models::Task;
use crate::order::derefs;
use crate::projects::opt_is;
use crate::selector::{visible_rows, visible_tasks, Selection, SelectionView, dock_match, dock_shows};
use crate::state::{DockItem, OverviewStats};
use crate::clock::{formatted_time, minute_format, minute_text, or_dashes, text_or_dashes};
use vstd::prelude::*;

verus! {

/// An open task that the dock filter `dock` shows.
pub open spec fn counts_for(dock: DockItem, today: Seq<char>, week_end: Seq<char>) -> spec_fn(
    Task,
) -> bool {
    |t: Task| !t.is_deleted && !t.checked && dock_match(t, dock, today, week_end)
}

/// A count as the overview holds it: it stops at the largest `u32`.
pub open spec fn capped(n: nat) -> u32 {
    if n > u32::MAX {
        u32::MAX
    } else {
        n as u32
    }
}

/// How many tasks of `tasks` pass `f`.
fn count_tasks<F: crate::order::Test<Task>>(tasks: &Vec<Task>, f: &F) -> (n: u32)
    ensures
        n == capped(tasks@.filter(f.pred()).len()),
{
    let found = crate::order::pick(tasks, f);
    assert(derefs(found@).len() == found@.len());
    if found.len() > 0xffff_ffff {
        u32::MAX
    } else {
        found.len() as u32
    }
}

pub struct CountsFor<'a> {
    pub dock: DockItem,
    pub today: &'a str,
    pub week_end: &'a str,
}

impl<'a> crate::order::Test<Task> for CountsFor<'a> {
    open spec fn pred(&self) -> spec_fn(Task) -> bool {
        counts_for(self.dock, self.today@, self.week_end@)
    }

    fn check(&self, t: &Task) -> (r: bool) {
        !t.is_deleted && !t.checked && dock_shows(t, self.dock, self.today, self.week_end)
    }
}

pub struct ChildOfTask<'a> {
    pub parent: &'a str,
}

/// The tasks whose parent is `parent`.
pub open spec fn has_parent(parent: Seq<char>) -> spec_fn(Task) -> bool {
    |t: Task| t.parent_id.deep_view() == Some(parent)
}

impl<'a> crate::order::Test<Task> for ChildOfTask<'a> {
    open spec fn pred(&self) -> spec_fn(Task) -> bool {
        has_parent(self.parent@)
    }

    fn check(&self, t: &Task) -> (r: bool) {
        opt_is(&t.parent_id, self.parent)
    }
}

impl App {
    /// The id of the selected project.
    pub open spec fn current_project(&self) -> Option<Seq<char>> {
        if self.selected_project < self.projects@.len() {
            Some(self.projects@[self.selected_project as int].id@)
        } else {
            None
        }
    }

    /// What the selector reads off this state.
    pub open spec fn selection_view(&self) -> SelectionView {
        SelectionView {
            tasks: self.tasks@,
            sections: self.sections@,
            cached: match self.current_project() {
                Some(p) => if self.completed_cache@.contains_key(p) {
                    Some(self.completed_cache@[p]@)
                } else {
                    None
                },
                None => None,
            },
            project: self.current_project(),
            filter: self.task_filter,
            sort: self.sort_mode,
            collapsed: self.collapsed@,
            dock: self.dock_filter,
            today: self.today@,
            week_end: self.week_end@,
        }
    }

    /// The visible task rows.
    pub open spec fn rows(&self) -> Seq<Task> {
        visible_rows(self.selection_view())
    }

    /// What the selector reads off this state.
    pub fn selection(&self) -> (sel: Selection<'_>)
        ensures
            sel@ == self.selection_view(),
    {
        let project: Option<&str> = if self.selected_project < self.projects.len() {
            Some(self.projects[self.selected_project].id.as_str())
        } else {
            None
        };
        let cached: Option<&Vec<Task>> = match project {
            Some(p) => self.completed_cache.get(p),
            None => None,
        };
        Selection {
            tasks: &self.tasks,
            sections: &self.sections,
            cached,
            project,
            filter: self.task_filter,
            sort: self.sort_mode,
            collapsed: &self.collapsed,
            dock: self.dock_filter,
            today: self.today.as_str(),
            week_end: self.week_end.as_str(),
        }
    }

    /// The visible task rows, in display order.
    pub fn visible_tasks(&self) -> (r: Vec<&Task>)
        ensures
            derefs(r@) == self.rows(),
    {
        let sel = self.selection();
        visible_tasks(&sel)
    }

    /// How many task rows are visible.
    pub fn visible_len(&self) -> (n: usize)
        ensures
            n == self.rows().len(),
    {
        let rows = self.visible_tasks();
        assert(derefs(rows@).len() == rows@.len());
        rows.len()
    }

    /// The task under the cursor.
    pub fn selected_task(&self) -> (r: Option<&Task>)
        ensures
            match r {
                Some(t) => self.selected_task < self.rows().len() && *t == self.rows()[self.selected_task as int],
                None => self.selected_task >= self.rows().len(),
            },
    {
        let rows = self.visible_tasks();
        assert(derefs(rows@).len() == rows@.len());
        if self.selected_task < rows.len() {
            assert(derefs(rows@)[self.selected_task as int] == *rows@[self.selected_task as int]);
            Some(rows[self.selected_task])
        } else {
            None
        }
    }

    /// Where the cursor stands once it is clamped to `len` rows.
    pub open spec fn clamped(cursor: usize, len: nat) -> usize {
        if len == 0 {
            0
        } else if cursor >= len {
            (len - 1) as usize
        } else {
            cursor
        }
    }

    /// Moves the task cursor back onto the visible rows.
    pub fn clamp_selection(&mut self)
        ensures
            final(self).selected_task == Self::clamped(old(self).selected_task, old(self).rows().len()),
            *final(self) == (App { selected_task: final(self).selected_task, ..*old(self) }),
    {
        let n = self.visible_len();
        if n == 0 {
            self.selected_task = 0;
        } else if self.selected_task >= n {
            self.selected_task = n - 1;
        }
    }

    /// The name of the selected project; `Tasks` where none is selected.
    pub fn selected_project_name(&self) -> (r: &str)
        ensures
            r@ == (if self.selected_project < self.projects@.len() {
                self.projects@[self.selected_project as int].name@
            } else {
                "Tasks"@
            }),
    {
        if self.selected_project < self.projects.len() {
            self.projects[self.selected_project].name.as_str()
        } else {
            "Tasks"
        }
    }

    /// Whether some task has `task_id` as its parent.
    pub fn has_children(&self, task_id: &str) -> (r: bool)
        ensures
            r == (self.tasks@.filter(has_parent(task_id@)).len() > 0),
    {
        let kids = crate::order::pick(&self.tasks, &ChildOfTask { parent: task_id });
        assert(derefs(kids@).len() == kids@.len());
        kids.len() > 0
    }

    /// Whether the subtree of `task_id` is folded away.
    pub fn is_collapsed(&self, task_id: &str) -> (r: bool)
        ensures
            r == self.collapsed@.contains(task_id@),
    {
        self.collapsed.contains(task_id)
    }

    /// The counters of the overview, over the tasks that are neither deleted
    /// nor completed: due today, due within the week, overdue, and by
    /// priority value. Priorities above 4 are not counted.
    pub fn overview_stats(&self) -> (r: OverviewStats)
        ensures
            r.due_today == capped(
                self.tasks@.filter(counts_for(DockItem::DueToday, self.today@, self.week_end@)).len(),
            ),
            r.due_week == capped(
                self.tasks@.filter(counts_for(DockItem::DueWeek, self.today@, self.week_end@)).len(),
            ),
            r.overdue == capped(
                self.tasks@.filter(counts_for(DockItem::DueOverdue, self.today@, self.week_end@)).len(),
            ),
            forall|p: u8|
                0 <= p < 5 ==> r.by_priority@[p as int] == capped(
                    self.tasks@.filter(
                        counts_for(DockItem::Priority(p), self.today@, self.week_end@),
                    ).len(),
                ),
    {
        let today = self.today.as_str();
        let week_end = self.week_end.as_str();
        let due_today = count_tasks(&self.tasks, &CountsFor { dock: DockItem::DueToday, today, week_end });
        let due_week = count_tasks(&self.tasks, &CountsFor { dock: DockItem::DueWeek, today, week_end });
        let overdue = count_tasks(&self.tasks, &CountsFor { dock: DockItem::DueOverdue, today, week_end });
        let n0 = count_tasks(&self.tasks, &CountsFor { dock: DockItem::Priority(0), today, week_end });
        let n1 = count_tasks(&self.tasks, &CountsFor { dock: DockItem::Priority(1), today, week_end });
        let n2 = count_tasks(&self.tasks, &CountsFor { dock: DockItem::Priority(2), today, week_end });
        let n3 = count_tasks(&self.tasks, &CountsFor { dock: DockItem::Priority(3), today, week_end });
        let n4 = count_tasks(&self.tasks, &CountsFor { dock: DockItem::Priority(4), today, week_end });
        OverviewStats { due_today, due_week, overdue, by_priority: [n0, n1, n2, n3, n4] }
    }

    /// The text that says when the replica was last synced, on a clock that
    /// is `utc_offset_secs` ahead of universal time: date and minute, or
    /// two dashes where no sync was applied yet or the time is out of the
    /// calendar's range.
    pub open spec fn sync_age_text(&self, utc_offset_secs: i32) -> Seq<char> {
        match self.last_sync_at {
            Some(at) => text_or_dashes(formatted_time(at, utc_offset_secs, minute_format())),
            None => "--"@,
        }
    }

    /// The text that says when the replica was last synced.
    pub fn sync_age_label(&self, utc_offset_secs: i32) -> (r: String)
        ensures
            r@ == self.sync_age_text(utc_offset_secs),
    {
        match self.last_sync_at {
            Some(at) => or_dashes(minute_text(at, utc_offset_secs)),
            None => or_dashes(None),
        }
    }
}

} // verus!
