//! The derived view: which tasks are shown, and in what order.
//!
//! The selector is a function of the replica and of the interface state. In
//! a project it shows the top-level tasks that pass the filter, sorted by the
//! chosen mode, each followed by its subtree unless it is collapsed, and then
//! the completed tasks that were fetched for the project. With a dock filter
//! it shows a flat list of top-level tasks of all projects.

use crate::merge::{first_index, holds_key, lemma_first_index_is};
use crate::models::{Entity, Section, Task};
use crate::order::{derefs, pick, sorted_by, stable_sort, Ranking, Test};
use crate::projects::opt_is;
use crate::state::{DockItem, SortMode, TaskFilter};
use crate::strmap::StrSet;
use crate::text::{lex_lt, str_less};
use vstd::prelude::*;

verus! {

/// What the selector reads.
pub struct Selection<'a> {
    pub tasks: &'a Vec<Task>,
    pub sections: &'a Vec<Section>,
    /// The completed tasks fetched for the selected project.
    pub cached: Option<&'a Vec<Task>>,
    /// The id of the selected project.
    pub project: Option<&'a str>,
    pub filter: TaskFilter,
    pub sort: SortMode,
    pub collapsed: &'a StrSet,
    pub dock: Option<DockItem>,
    /// Today's date, and the last day of the week that starts today.
    pub today: &'a str,
    pub week_end: &'a str,
}

/// The mathematical value of a [`Selection`].
pub struct SelectionView {
    pub tasks: Seq<Task>,
    pub sections: Seq<Section>,
    pub cached: Option<Seq<Task>>,
    pub project: Option<Seq<char>>,
    pub filter: TaskFilter,
    pub sort: SortMode,
    pub collapsed: Set<Seq<char>>,
    pub dock: Option<DockItem>,
    pub today: Seq<char>,
    pub week_end: Seq<char>,
}

impl<'a> View for Selection<'a> {
    type V = SelectionView;

    open spec fn view(&self) -> SelectionView {
        SelectionView {
            tasks: self.tasks@,
            sections: self.sections@,
            cached: match self.cached {
                Some(c) => Some(c@),
                None => None,
            },
            project: match self.project {
                Some(p) => Some(p@),
                None => None,
            },
            filter: self.filter,
            sort: self.sort,
            collapsed: self.collapsed@,
            dock: self.dock,
            today: self.today@,
            week_end: self.week_end@,
        }
    }
}

/// Whether the task `id` lies below `ancestor`: whether following the parent
/// ids from `id` leads to `ancestor` within `steps` steps.
pub open spec fn descends(tasks: Seq<Task>, id: Seq<char>, ancestor: Seq<char>, steps: nat) -> bool
    decreases steps,
{
    let i = first_index(tasks, id);
    if steps == 0 || i >= tasks.len() {
        false
    } else {
        match tasks[i].parent_id {
            None => false,
            Some(p) => p@ == ancestor || descends(tasks, p@, ancestor, (steps - 1) as nat),
        }
    }
}

/// Whether the task `id` lies below `ancestor`. A chain of parents is never
/// longer than the list of tasks.
pub open spec fn is_below(tasks: Seq<Task>, id: Seq<char>, ancestor: Seq<char>) -> bool {
    descends(tasks, id, ancestor, tasks.len())
}

/// Whether a completed task lies below the task `id`.
pub open spec fn has_done_below(tasks: Seq<Task>, id: Seq<char>) -> bool {
    exists|i: int|
        0 <= i < tasks.len() && !tasks[i].is_deleted && tasks[i].checked && #[trigger] is_below(
            tasks,
            tasks[i].id@,
            id,
        )
}

/// Whether the dock filter `dock` shows the task `t`.
pub open spec fn dock_match(t: Task, dock: DockItem, today: Seq<char>, week_end: Seq<char>) -> bool {
    match dock {
        DockItem::DueOverdue => t.due is Some && lex_lt(t.due->Some_0.date@, today) && !t.checked,
        DockItem::DueToday => t.due is Some && t.due->Some_0.date@ == today,
        DockItem::DueWeek => t.due is Some && !lex_lt(t.due->Some_0.date@, today) && !lex_lt(
            week_end,
            t.due->Some_0.date@,
        ),
        DockItem::Priority(p) => t.priority == p && !t.checked,
    }
}

/// Whether the project filter `filter` shows the task `t`. A task that is not
/// completed is shown among the completed ones where a completed task lies
/// below it.
pub open spec fn filter_match(tasks: Seq<Task>, t: Task, filter: TaskFilter) -> bool {
    match filter {
        TaskFilter::Active => !t.checked,
        TaskFilter::Done => t.checked || has_done_below(tasks, t.id@),
        TaskFilter::Both => true,
    }
}

/// The top-level tasks that are shown.
pub open spec fn is_top_row(s: SelectionView) -> spec_fn(Task) -> bool {
    |t: Task|
        !t.is_deleted && t.parent_id is None && match s.dock {
            Some(d) => dock_match(t, d, s.today, s.week_end),
            None => Some(t.project_id@) == s.project && filter_match(s.tasks, t, s.filter),
        }
}

/// The children of `parent` that are shown.
pub open spec fn is_child_row(s: SelectionView, parent: Seq<char>) -> spec_fn(Task) -> bool {
    |t: Task|
        !t.is_deleted && t.parent_id.deep_view() == Some(parent) && (s.filter == TaskFilter::Done
            ==> t.checked || has_done_below(s.tasks, t.id@))
}

/// The place of a section in its project; a task without a known section,
/// or in a section without a place, goes first.
pub open spec fn section_rank(sections: Seq<Section>, section: Option<String>) -> int {
    match section {
        None => i32::MIN as int,
        Some(id) => {
            let i = first_index(sections, id@);
            if i < sections.len() {
                match sections[i].section_order {
                    Some(o) => o as int,
                    None => i32::MIN as int,
                }
            } else {
                i32::MIN as int
            }
        },
    }
}

/// By section, then by child order.
pub open spec fn by_section(sections: Seq<Section>) -> spec_fn(Task, Task) -> bool {
    |a: Task, b: Task|
        {
            let ra = section_rank(sections, a.section_id);
            let rb = section_rank(sections, b.section_id);
            ra < rb || (ra == rb && a.child_order < b.child_order)
        }
}

/// By child order.
pub open spec fn by_child_order() -> spec_fn(Task, Task) -> bool {
    |a: Task, b: Task| a.child_order < b.child_order
}

/// By child order, then by project id.
pub open spec fn by_child_then_project() -> spec_fn(Task, Task) -> bool {
    |a: Task, b: Task|
        a.child_order < b.child_order || (a.child_order == b.child_order && lex_lt(
            a.project_id@,
            b.project_id@,
        ))
}

/// The highest priority first.
pub open spec fn by_priority() -> spec_fn(Task, Task) -> bool {
    |a: Task, b: Task| a.priority > b.priority
}

/// The earlier due date first; a task without due date comes after every
/// task that has one.
pub open spec fn by_due() -> spec_fn(Task, Task) -> bool {
    |a: Task, b: Task|
        match a.due {
            Some(x) => match b.due {
                Some(y) => lex_lt(x.date@, y.date@),
                None => true,
            },
            None => false,
        }
}

/// The time at which a task was added; empty where it is unknown.
pub open spec fn added_key(t: Task) -> Seq<char> {
    match t.added_at {
        Some(s) => s@,
        None => Seq::empty(),
    }
}

/// The task added last first.
pub open spec fn by_added() -> spec_fn(Task, Task) -> bool {
    |a: Task, b: Task| lex_lt(added_key(b), added_key(a))
}

/// The order of the top-level tasks: with a dock filter on, by place among
/// the siblings and then by project, whatever the sort mode; without one, as
/// the sort mode says.
pub open spec fn top_order(s: SelectionView) -> spec_fn(Task, Task) -> bool {
    if s.dock is Some {
        by_child_then_project()
    } else {
        match s.sort {
            SortMode::Default => by_section(s.sections),
            SortMode::Priority => by_priority(),
            SortMode::DueDate => by_due(),
            SortMode::Created => by_added(),
        }
    }
}

/// The top-level rows, in order.
pub open spec fn top_rows(s: SelectionView) -> Seq<Task> {
    sorted_by(s.tasks.filter(is_top_row(s)), top_order(s))
}

/// The child rows of `parent`, in order.
pub open spec fn child_rows(s: SelectionView, parent: Seq<char>) -> Seq<Task> {
    sorted_by(s.tasks.filter(is_child_row(s, parent)), by_child_order())
}

/// The tasks `roots`, each followed by the rows below it unless it is
/// collapsed, down to `depth` further levels.
pub open spec fn tree_rows(s: SelectionView, roots: Seq<Task>, depth: nat) -> Seq<Task>
    decreases depth, roots.len(),
{
    if roots.len() == 0 {
        Seq::empty()
    } else {
        let r = roots.last();
        let below = if depth == 0 || s.collapsed.contains(r.id@) {
            Seq::empty()
        } else {
            tree_rows(s, child_rows(s, r.id@), (depth - 1) as nat)
        };
        tree_rows(s, roots.drop_last(), depth) + seq![r] + below
    }
}

/// The rows of the selected project that come from the replica's tasks.
pub open spec fn project_rows(s: SelectionView) -> Seq<Task> {
    tree_rows(s, top_rows(s), s.tasks.len())
}

/// The fetched tasks whose parent was not fetched with them.
pub open spec fn is_cached_root(cached: Seq<Task>) -> spec_fn(Task) -> bool {
    |t: Task|
        match t.parent_id {
            None => true,
            Some(p) => !holds_key(cached, p@),
        }
}

/// The fetched tasks whose parent is `parent`.
pub open spec fn is_cached_child(parent: Seq<char>) -> spec_fn(Task) -> bool {
    |t: Task| t.parent_id.deep_view() == Some(parent)
}

/// The fetched tasks `roots`, each followed by the fetched tasks below it.
pub open spec fn cached_tree(cached: Seq<Task>, roots: Seq<Task>, depth: nat) -> Seq<Task>
    decreases depth, roots.len(),
{
    if roots.len() == 0 {
        Seq::empty()
    } else {
        let r = roots.last();
        let below = if depth == 0 {
            Seq::empty()
        } else {
            cached_tree(
                cached,
                sorted_by(cached.filter(is_cached_child(r.id@)), by_child_order()),
                (depth - 1) as nat,
            )
        };
        cached_tree(cached, roots.drop_last(), depth) + seq![r] + below
    }
}

/// The tasks of the replica with id `id` that are not deleted.
pub open spec fn is_live(id: Seq<char>) -> spec_fn(Task) -> bool {
    |t: Task| t.id@ == id && !t.is_deleted
}

/// The row that gives context to the fetched task `root`: its parent in the
/// replica, unless the rows `shown` hold it already.
pub open spec fn context_row(tasks: Seq<Task>, shown: Seq<Task>, root: Task) -> Seq<Task> {
    match root.parent_id {
        None => Seq::empty(),
        Some(p) => {
            let live = tasks.filter(is_live(p@));
            if holds_key(shown, p@) || live.len() == 0 {
                Seq::empty()
            } else {
                seq![live[0]]
            }
        },
    }
}

/// The rows after one more fetched root: its context row where one is due,
/// the root, and the fetched tasks below it.
pub open spec fn with_cached_root(s: SelectionView, cached: Seq<Task>, rows: Seq<Task>, root: Task) -> Seq<
    Task,
> {
    rows + context_row(s.tasks, rows, root) + seq![root] + cached_tree(
        cached,
        sorted_by(cached.filter(is_cached_child(root.id@)), by_child_order()),
        cached.len(),
    )
}

/// The rows after the fetched completed tasks were appended.
pub open spec fn with_cached(s: SelectionView, rows: Seq<Task>) -> Seq<Task> {
    match s.cached {
        Some(cached) => if s.project is Some && s.filter != TaskFilter::Active {
            sorted_by(cached.filter(is_cached_root(cached)), by_child_order()).fold_left(
                rows,
                |acc: Seq<Task>, root: Task| with_cached_root(s, cached, acc, root),
            )
        } else {
            rows
        },
        None => rows,
    }
}

/// The rows as they are gathered, before a task that comes up again is left
/// out.
pub open spec fn gathered_rows(s: SelectionView) -> Seq<Task> {
    if s.dock is Some {
        top_rows(s)
    } else {
        with_cached(s, project_rows(s))
    }
}

/// The rows `rows` without the rows whose id came before: of each id the
/// first row stays.
pub open spec fn first_of_each(rows: Seq<Task>) -> Seq<Task>
    decreases rows.len(),
{
    if rows.len() == 0 {
        Seq::empty()
    } else {
        let kept = first_of_each(rows.drop_last());
        if holds_key(kept, rows.last().id@) {
            kept
        } else {
            kept.push(rows.last())
        }
    }
}

/// The visible task rows: the rows as they are gathered, each task once.
#[verifier::opaque]
pub open spec fn visible_rows(s: SelectionView) -> Seq<Task> {
    first_of_each(gathered_rows(s))
}

/// No task comes up twice among the rows that stay, and each of them is one
/// of the rows.
pub proof fn lemma_first_of_each(rows: Seq<Task>)
    ensures
        crate::merge::distinct_keys(first_of_each(rows)),
        forall|i: int|
            0 <= i < first_of_each(rows).len() ==> rows.contains(#[trigger] first_of_each(rows)[i]),
        forall|k: Seq<char>|
            crate::merge::absent(rows, k) == crate::merge::absent(first_of_each(rows), k),
    decreases rows.len(),
{
    let out = first_of_each(rows);
    if rows.len() > 0 {
        let init = rows.drop_last();
        let kept = first_of_each(init);
        let x = rows.last();
        lemma_first_of_each(init);
        crate::merge::lemma_first_index(kept, x.id@);
        assert forall|i: int| 0 <= i < out.len() implies rows.contains(#[trigger] out[i]) by {
            if i < kept.len() {
                assert(out[i] == kept[i]);
                assert(init.contains(kept[i]));
                let j = choose|j: int| 0 <= j < init.len() && init[j] == kept[i];
                assert(rows[j] == kept[i]);
            } else {
                assert(rows[rows.len() - 1] == x);
            }
        }
        assert forall|k: Seq<char>|
            crate::merge::absent(rows, k) == crate::merge::absent(out, k) by {
            assert(crate::merge::absent(init, k) == crate::merge::absent(kept, k));
            if crate::merge::absent(rows, k) {
                assert forall|i: int| 0 <= i < init.len() implies init[i].key() != k by {
                    assert(init[i] == rows[i]);
                }
                assert(rows[rows.len() - 1].key() != k);
            }
            if crate::merge::absent(out, k) && !crate::merge::absent(rows, k) {
                let j = choose|j: int| 0 <= j < rows.len() && rows[j].key() == k;
                if j < init.len() {
                    assert(init[j].key() == k);
                    assert(!crate::merge::absent(init, k));
                    let i = choose|i: int| 0 <= i < kept.len() && kept[i].key() == k;
                    assert(out[i] == kept[i]);
                } else {
                    if holds_key(kept, x.id@) {
                        assert(kept[first_index(kept, x.id@)].key() == k);
                    } else {
                        assert(out[out.len() - 1] == x);
                    }
                }
            }
        }
    }
}

/// Whether the task `id` lies below the task `ancestor`.
pub fn is_descendant_of(tasks: &Vec<Task>, id: &str, ancestor: &str) -> (r: bool)
    ensures
        r == is_below(tasks@, id@, ancestor@),
{
    let mut current: &str = id;
    let mut steps: usize = tasks.len();
    loop
        invariant
            steps <= tasks.len(),
            is_below(tasks@, id@, ancestor@) == descends(
                tasks@,
                current@,
                ancestor@,
                steps as nat,
            ),
        decreases steps,
    {
        if steps == 0 {
            return false;
        }
        let i = crate::merge::find_by_id(tasks, current);
        if i >= tasks.len() {
            return false;
        }
        match &tasks[i].parent_id {
            None => {
                return false;
            },
            Some(p) => {
                if p.as_str().eq(ancestor) {
                    return true;
                }
                current = p.as_str();
                steps -= 1;
            },
        }
    }
}

/// Whether a completed task lies below the task `id`.
pub fn has_completed_descendant(tasks: &Vec<Task>, id: &str) -> (r: bool)
    ensures
        r == has_done_below(tasks@, id@),
{
    let mut i: usize = 0;
    while i < tasks.len()
        invariant
            i <= tasks.len(),
            forall|j: int|
                0 <= j < i ==> !(!tasks@[j].is_deleted && tasks@[j].checked && #[trigger] is_below(
                    tasks@,
                    tasks@[j].id@,
                    id@,
                )),
        decreases tasks.len() - i,
    {
        let t = &tasks[i];
        if !t.is_deleted && t.checked && is_descendant_of(tasks, t.id.as_str(), id) {
            return true;
        }
        i += 1;
    }
    false
}

/// Whether the dock filter `dock` shows the task `t`.
pub fn dock_shows(t: &Task, dock: DockItem, today: &str, week_end: &str) -> (r: bool)
    ensures
        r == dock_match(*t, dock, today@, week_end@),
{
    match dock {
        DockItem::DueOverdue => match &t.due {
            Some(d) => str_less(d.date.as_str(), today) && !t.checked,
            None => false,
        },
        DockItem::DueToday => match &t.due {
            Some(d) => d.date.as_str().eq(today),
            None => false,
        },
        DockItem::DueWeek => match &t.due {
            Some(d) => !str_less(d.date.as_str(), today) && !str_less(week_end, d.date.as_str()),
            None => false,
        },
        DockItem::Priority(p) => t.priority == p && !t.checked,
    }
}

/// Whether the project filter `filter` shows the task `t`.
pub fn filter_shows(tasks: &Vec<Task>, t: &Task, filter: TaskFilter) -> (r: bool)
    ensures
        r == filter_match(tasks@, *t, filter),
{
    match filter {
        TaskFilter::Active => !t.checked,
        TaskFilter::Done => t.checked || has_completed_descendant(tasks, t.id.as_str()),
        TaskFilter::Both => true,
    }
}

pub struct TopRow<'a, 'b> {
    pub sel: &'b Selection<'a>,
}

impl<'a, 'b> Test<Task> for TopRow<'a, 'b> {
    open spec fn pred(&self) -> spec_fn(Task) -> bool {
        is_top_row(self.sel@)
    }

    fn check(&self, t: &Task) -> (r: bool) {
        if t.is_deleted || t.parent_id.is_some() {
            return false;
        }
        match self.sel.dock {
            Some(d) => dock_shows(t, d, self.sel.today, self.sel.week_end),
            None => match self.sel.project {
                Some(p) => t.project_id.as_str().eq(p) && filter_shows(
                    self.sel.tasks,
                    t,
                    self.sel.filter,
                ),
                None => false,
            },
        }
    }
}

pub struct ChildRow<'a, 'b> {
    pub sel: &'b Selection<'a>,
    pub parent: &'b str,
}

impl<'a, 'b> Test<Task> for ChildRow<'a, 'b> {
    open spec fn pred(&self) -> spec_fn(Task) -> bool {
        is_child_row(self.sel@, self.parent@)
    }

    fn check(&self, t: &Task) -> (r: bool) {
        if t.is_deleted || !opt_is(&t.parent_id, self.parent) {
            return false;
        }
        match self.sel.filter {
            TaskFilter::Done => t.checked || has_completed_descendant(
                self.sel.tasks,
                t.id.as_str(),
            ),
            _ => true,
        }
    }
}

pub struct CachedRoot<'a> {
    pub cached: &'a Vec<Task>,
}

impl<'a> Test<Task> for CachedRoot<'a> {
    open spec fn pred(&self) -> spec_fn(Task) -> bool {
        is_cached_root(self.cached@)
    }

    fn check(&self, t: &Task) -> (r: bool) {
        match &t.parent_id {
            None => true,
            Some(p) => {
                let i = crate::merge::find_by_id(self.cached, p.as_str());
                i >= self.cached.len()
            },
        }
    }
}

pub struct CachedChild<'a> {
    pub parent: &'a str,
}

impl<'a> Test<Task> for CachedChild<'a> {
    open spec fn pred(&self) -> spec_fn(Task) -> bool {
        is_cached_child(self.parent@)
    }

    fn check(&self, t: &Task) -> (r: bool) {
        opt_is(&t.parent_id, self.parent)
    }
}

pub struct Live<'a> {
    pub id: &'a str,
}

impl<'a> Test<Task> for Live<'a> {
    open spec fn pred(&self) -> spec_fn(Task) -> bool {
        is_live(self.id@)
    }

    fn check(&self, t: &Task) -> (r: bool) {
        t.id.as_str().eq(self.id) && !t.is_deleted
    }
}

/// The place of the section `section` in its project.
pub fn section_rank_of(sections: &Vec<Section>, section: &Option<String>) -> (r: i32)
    ensures
        r == section_rank(sections@, *section),
{
    match section {
        None => i32::MIN,
        Some(id) => {
            let i = crate::merge::find_by_id(sections, id.as_str());
            if i < sections.len() {
                match sections[i].section_order {
                    Some(o) => o,
                    None => i32::MIN,
                }
            } else {
                i32::MIN
            }
        },
    }
}

pub struct BySection<'a> {
    pub sections: &'a Vec<Section>,
}

impl<'a> Ranking<Task> for BySection<'a> {
    open spec fn order(&self) -> spec_fn(Task, Task) -> bool {
        by_section(self.sections@)
    }

    fn is_before(&self, a: &Task, b: &Task) -> (r: bool) {
        let ra = section_rank_of(self.sections, &a.section_id);
        let rb = section_rank_of(self.sections, &b.section_id);
        ra < rb || (ra == rb && a.child_order < b.child_order)
    }
}

pub struct ByChildOrder;

impl Ranking<Task> for ByChildOrder {
    open spec fn order(&self) -> spec_fn(Task, Task) -> bool {
        by_child_order()
    }

    fn is_before(&self, a: &Task, b: &Task) -> (r: bool) {
        a.child_order < b.child_order
    }
}

pub struct ByChildThenProject;

impl Ranking<Task> for ByChildThenProject {
    open spec fn order(&self) -> spec_fn(Task, Task) -> bool {
        by_child_then_project()
    }

    fn is_before(&self, a: &Task, b: &Task) -> (r: bool) {
        a.child_order < b.child_order || (a.child_order == b.child_order && str_less(
            a.project_id.as_str(),
            b.project_id.as_str(),
        ))
    }
}

pub struct ByPriority;

impl Ranking<Task> for ByPriority {
    open spec fn order(&self) -> spec_fn(Task, Task) -> bool {
        by_priority()
    }

    fn is_before(&self, a: &Task, b: &Task) -> (r: bool) {
        a.priority > b.priority
    }
}

/// The time at which `t` was added.
fn added_key_of(t: &Task) -> (r: &str)
    ensures
        r@ == added_key(*t),
{
    match &t.added_at {
        Some(s) => s.as_str(),
        None => {
            proof {
                reveal_strlit("");
            }
            assert(""@ =~= Seq::<char>::empty());
            ""
        },
    }
}

pub struct ByDue;

impl Ranking<Task> for ByDue {
    open spec fn order(&self) -> spec_fn(Task, Task) -> bool {
        by_due()
    }

    fn is_before(&self, a: &Task, b: &Task) -> (r: bool) {
        match &a.due {
            Some(x) => match &b.due {
                Some(y) => str_less(x.date.as_str(), y.date.as_str()),
                None => true,
            },
            None => false,
        }
    }
}

pub struct ByAdded;

impl Ranking<Task> for ByAdded {
    open spec fn order(&self) -> spec_fn(Task, Task) -> bool {
        by_added()
    }

    fn is_before(&self, a: &Task, b: &Task) -> (r: bool) {
        str_less(added_key_of(b), added_key_of(a))
    }
}

/// The top-level rows, in order.
pub fn top_level_rows<'a>(sel: &Selection<'a>) -> (r: Vec<&'a Task>)
    ensures
        derefs(r@) == top_rows(sel@),
{
    let found = pick(sel.tasks, &TopRow { sel });
    if sel.dock.is_some() {
        stable_sort(found, &ByChildThenProject)
    } else {
        match sel.sort {
            SortMode::Default => stable_sort(found, &BySection { sections: sel.sections }),
            SortMode::Priority => stable_sort(found, &ByPriority),
            SortMode::DueDate => stable_sort(found, &ByDue),
            SortMode::Created => stable_sort(found, &ByAdded),
        }
    }
}

/// Appends the row `x`.
fn push_row<'a>(out: &mut Vec<&'a Task>, x: &'a Task)
    ensures
        derefs(final(out)@) == derefs(old(out)@).push(*x),
{
    out.push(x);
    assert(derefs(out@) =~= derefs(old(out)@).push(*x));
}

/// Appends to `out` the tasks `roots`, each followed by the rows below it.
fn collect_rows<'a>(sel: &Selection<'a>, roots: &Vec<&'a Task>, depth: usize, out: &mut Vec<&'a Task>)
    ensures
        derefs(final(out)@) == derefs(old(out)@) + tree_rows(sel@, derefs(roots@), depth as nat),
    decreases depth,
{
    let ghost rs = derefs(roots@);
    let ghost start = derefs(out@);
    let mut i: usize = 0;
    assert(derefs(out@) =~= start + tree_rows(sel@, rs.take(0), depth as nat));
    while i < roots.len()
        invariant
            i <= roots.len(),
            rs == derefs(roots@),
            derefs(out@) == start + tree_rows(sel@, rs.take(i as int), depth as nat),
        decreases roots.len() - i,
    {
        let root: &'a Task = roots[i];
        push_row(out, root);
        if depth > 0 && !sel.collapsed.contains(root.id.as_str()) {
            let below = pick(sel.tasks, &ChildRow { sel, parent: root.id.as_str() });
            let sorted = stable_sort(below, &ByChildOrder);
            collect_rows(sel, &sorted, depth - 1, out);
        }
        proof {
            let next = rs.take(i + 1);
            assert(next.drop_last() == rs.take(i as int));
            assert(next.last() == rs[i as int]);
            assert(derefs(out@) =~= start + tree_rows(sel@, next, depth as nat));
        }
        i += 1;
    }
    assert(rs.take(roots.len() as int) == rs);
}

/// Appends to `out` the fetched tasks `roots`, each followed by the fetched
/// tasks below it.
fn collect_cached<'a>(cached: &'a Vec<Task>, roots: &Vec<&'a Task>, depth: usize, out: &mut Vec<&'a Task>)
    ensures
        derefs(final(out)@) == derefs(old(out)@) + cached_tree(
            cached@,
            derefs(roots@),
            depth as nat,
        ),
    decreases depth,
{
    let ghost rs = derefs(roots@);
    let ghost start = derefs(out@);
    let mut i: usize = 0;
    assert(derefs(out@) =~= start + cached_tree(cached@, rs.take(0), depth as nat));
    while i < roots.len()
        invariant
            i <= roots.len(),
            rs == derefs(roots@),
            derefs(out@) == start + cached_tree(cached@, rs.take(i as int), depth as nat),
        decreases roots.len() - i,
    {
        let root: &'a Task = roots[i];
        push_row(out, root);
        if depth > 0 {
            let below = pick(cached, &CachedChild { parent: root.id.as_str() });
            let sorted = stable_sort(below, &ByChildOrder);
            collect_cached(cached, &sorted, depth - 1, out);
        }
        proof {
            let next = rs.take(i + 1);
            assert(next.drop_last() == rs.take(i as int));
            assert(next.last() == rs[i as int]);
            assert(derefs(out@) =~= start + cached_tree(cached@, next, depth as nat));
        }
        i += 1;
    }
    assert(rs.take(roots.len() as int) == rs);
}

/// Whether the rows `rows` hold a task of id `id`.
fn rows_hold(rows: &Vec<&Task>, id: &str) -> (r: bool)
    ensures
        r == holds_key(derefs(rows@), id@),
{
    let mut i: usize = 0;
    while i < rows.len()
        invariant
            i <= rows.len(),
            forall|j: int| 0 <= j < i ==> derefs(rows@)[j].key() != id@,
        decreases rows.len() - i,
    {
        if rows[i].id.as_str().eq(id) {
            proof {
                lemma_first_index_is(derefs(rows@), id@, i as int);
            }
            return true;
        }
        i += 1;
    }
    proof {
        lemma_first_index_is(derefs(rows@), id@, i as int);
    }
    false
}

/// Appends to `out` the fetched completed tasks of the selected project.
fn append_cached_completed<'a>(sel: &Selection<'a>, out: &mut Vec<&'a Task>)
    ensures
        derefs(final(out)@) == with_cached(sel@, derefs(old(out)@)),
{
    let cached: &'a Vec<Task> = match sel.cached {
        Some(c) => c,
        None => {
            return ;
        },
    };
    if sel.project.is_none() || sel.filter == TaskFilter::Active {
        return ;
    }
    let found = pick(cached, &CachedRoot { cached });
    let roots = stable_sort(found, &ByChildOrder);
    let ghost rs = derefs(roots@);
    let ghost start = derefs(out@);
    let ghost step = |acc: Seq<Task>, root: Task| with_cached_root(sel@, cached@, acc, root);
    let mut i: usize = 0;
    assert(rs.take(0).fold_left(start, step) == start);
    while i < roots.len()
        invariant
            i <= roots.len(),
            rs == derefs(roots@),
            step == |acc: Seq<Task>, root: Task| with_cached_root(sel@, cached@, acc, root),
            derefs(out@) == rs.take(i as int).fold_left(start, step),
        decreases roots.len() - i,
    {
        let root: &'a Task = roots[i];
        let ghost before = derefs(out@);
        match &root.parent_id {
            Some(p) => {
                if !rows_hold(out, p.as_str()) {
                    let live = pick(sel.tasks, &Live { id: p.as_str() });
                    if live.len() > 0 {
                        push_row(out, live[0]);
                    }
                }
            },
            None => {},
        }
        assert(derefs(out@) =~= before + context_row(sel@.tasks, before, *root));
        push_row(out, root);
        let below = pick(cached, &CachedChild { parent: root.id.as_str() });
        let sorted = stable_sort(below, &ByChildOrder);
        collect_cached(cached, &sorted, cached.len(), out);
        proof {
            let next = rs.take(i + 1);
            assert(next.drop_last() == rs.take(i as int));
            assert(next.last() == rs[i as int]);
            assert(derefs(out@) =~= with_cached_root(sel@, cached@, before, *root));
        }
        i += 1;
    }
    assert(rs.take(roots.len() as int) == rs);
}

/// The rows as they are gathered.
fn gather_rows<'a>(sel: &Selection<'a>) -> (r: Vec<&'a Task>)
    ensures
        derefs(r@) == gathered_rows(sel@),
{
    let top = top_level_rows(sel);
    if sel.dock.is_some() {
        return top;
    }
    let mut out: Vec<&'a Task> = Vec::new();
    assert(derefs(out@) =~= Seq::<Task>::empty());
    collect_rows(sel, &top, sel.tasks.len(), &mut out);
    assert(derefs(out@) =~= project_rows(sel@));
    append_cached_completed(sel, &mut out);
    out
}

/// The rows `rows`, each task once.
fn keep_first_of_each<'a>(rows: Vec<&'a Task>) -> (r: Vec<&'a Task>)
    ensures
        derefs(r@) == first_of_each(derefs(rows@)),
{
    let mut out: Vec<&'a Task> = Vec::new();
    let ghost all = derefs(rows@);
    let mut i: usize = 0;
    assert(derefs(out@) =~= first_of_each(all.take(0)));
    while i < rows.len()
        invariant
            i <= rows.len(),
            all == derefs(rows@),
            derefs(out@) == first_of_each(all.take(i as int)),
        decreases rows.len() - i,
    {
        proof {
            assert(all.take(i + 1).drop_last() == all.take(i as int));
            assert(all.take(i + 1).last() == all[i as int]);
        }
        let row: &'a Task = rows[i];
        if !rows_hold(&out, row.id.as_str()) {
            push_row(&mut out, row);
        }
        i += 1;
    }
    assert(all.take(rows.len() as int) == all);
    out
}

/// The visible task rows, in display order.
pub fn visible_tasks<'a>(sel: &Selection<'a>) -> (r: Vec<&'a Task>)
    ensures
        derefs(r@) == visible_rows(sel@),
{
    reveal(visible_rows);
    keep_first_of_each(gather_rows(sel))
}

} // verus!
