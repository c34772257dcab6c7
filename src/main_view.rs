use vstd::prelude::*;
use crate::model::{Task, TaskStatus};
use crate::criteria::{FilterCriteria, task_matches, matches_criteria};
use crate::ordering::{filter_indices, filtered_view};
use crate::facets::{available_projects, available_tags, strictly_ascending, names_of, project_names, tag_names};
use crate::task_list::{TaskListWidget, selection_for, opt_usize, next_row, previous_row};
use crate::text::{push_char, pop_char};

verus! {

/// The part of the filter panel that has the cursor.
#[derive(Debug, Clone, Copy, PartialEq, Eq, Structural)]
pub enum FilterSection {
    Status,
    Project,
    Tags,
    Search,
}

/// Rows of the status section, top to bottom.
pub const STATUS_ROWS: usize = 5;

/// `v` without any occurrence of `x`, order kept.
pub open spec fn without<A>(v: Seq<A>, x: A) -> Seq<A>
    decreases v.len(),
{
    if v.len() == 0 {
        v
    } else {
        let p = without(v.drop_last(), x);
        if v.last() == x {
            p
        } else {
            p.push(v.last())
        }
    }
}

/// `v` without any string that reads `x`, order kept.
pub open spec fn without_name(v: Seq<String>, x: Seq<char>) -> Seq<Seq<char>>
    decreases v.len(),
{
    if v.len() == 0 {
        Seq::empty()
    } else {
        let p = without_name(v.drop_last(), x);
        if v.last()@ == x {
            p
        } else {
            p.push(v.last()@)
        }
    }
}

pub open spec fn views(v: Seq<String>) -> Seq<Seq<char>> {
    v.map_values(|s: String| s@)
}

/// A status is selected after the toggle exactly when it was not before.
pub open spec fn toggled_status(v: Seq<TaskStatus>, s: TaskStatus) -> Seq<TaskStatus> {
    if v.contains(s) {
        without(v, s)
    } else {
        v.push(s)
    }
}

/// A name is selected after the toggle exactly when it was not before.
pub open spec fn toggled_name(v: Seq<String>, x: Seq<char>) -> Seq<Seq<char>> {
    if exists|i: int| 0 <= i < v.len() && (#[trigger] v[i])@ == x {
        without_name(v, x)
    } else {
        views(v).push(x)
    }
}

pub fn toggle_status(v: &mut Vec<TaskStatus>, s: TaskStatus)
    ensures
        final(v)@ == toggled_status(old(v)@, s),
{
    let ghost v0 = v@;
    let mut kept: Vec<TaskStatus> = Vec::new();
    let mut found = false;
    let mut i: usize = 0;
    while i < v.len()
        invariant
            v@ == v0,
            i <= v0.len(),
            kept@ == without(v0.subrange(0, i as int), s),
            found == v0.subrange(0, i as int).contains(s),
        decreases v0.len() - i,
    {
        let ghost before = v0.subrange(0, i as int);
        let ghost after = v0.subrange(0, i as int + 1);
        assert(after.drop_last() =~= before);
        assert(after.last() == v0[i as int]);
        if v[i] == s {
            found = true;
        } else {
            kept.push(v[i]);
        }
        proof {
            if after.contains(s) && !before.contains(s) {
                let k = choose|k: int| 0 <= k < after.len() && after[k] == s;
                if k < i {
                    assert(before[k] == s);
                }
            }
            if before.contains(s) {
                let k = choose|k: int| 0 <= k < before.len() && before[k] == s;
                assert(after[k] == s);
            }
        }
        i = i + 1;
    }
    assert(v0.subrange(0, v0.len() as int) =~= v0);
    if found {
        *v = kept;
    } else {
        v.push(s);
    }
}

pub fn toggle_name(v: &mut Vec<String>, x: &String)
    ensures
        views(final(v)@) == toggled_name(old(v)@, x@),
{
    let ghost v0 = v@;
    let mut kept: Vec<String> = Vec::new();
    let mut found = false;
    let mut i: usize = 0;
    while i < v.len()
        invariant
            v@ == v0,
            i <= v0.len(),
            views(kept@) == without_name(v0.subrange(0, i as int), x@),
            found == exists|k: int| 0 <= k < i && (#[trigger] v0[k])@ == x@,
        decreases v0.len() - i,
    {
        let ghost before = v0.subrange(0, i as int);
        let ghost after = v0.subrange(0, i as int + 1);
        assert(after.drop_last() =~= before);
        assert(after.last() == v0[i as int]);
        if v[i] == *x {
            found = true;
        } else {
            let ghost prev = views(kept@);
            kept.push(v[i].clone());
            assert(views(kept@) =~= prev.push(v0[i as int]@));
        }
        i = i + 1;
    }
    assert(v0.subrange(0, v0.len() as int) =~= v0);
    if found {
        *v = kept;
    } else {
        let ghost prev = views(v@);
        v.push(x.clone());
        assert(views(v@) =~= prev.push(x@));
    }
}

/// The task list with its filter panel: the criteria, the choices offered for
/// projects and tags, and where the cursor stands in the panel.
pub struct MainView {
    pub task_list_widget: TaskListWidget,
    pub criteria: FilterCriteria,
    pub available_projects: Vec<String>,
    pub available_tags: Vec<String>,
    pub filter_focused: bool,
    pub filter_visible: bool,
    pub active_filter_section: FilterSection,
    pub status_selection_index: usize,
    pub project_selection_index: usize,
    pub tag_selection_index: usize,
}

impl MainView {
    pub open spec fn wf(&self) -> bool {
        self.task_list_widget.wf()
    }

    /// Starts with no tasks and only the pending status selected.
    pub fn new() -> (r: MainView)
        ensures
            r.wf(),
            r.task_list_widget.rows().len() == 0,
            r.criteria.statuses@ == seq![TaskStatus::Pending],
            !r.criteria.filter_active && !r.criteria.filter_overdue,
            r.criteria.projects@.len() == 0 && r.criteria.tags@.len() == 0,
            r.criteria.search_text@.len() == 0,
            r.active_filter_section == FilterSection::Status,
            !r.filter_focused,
    {
        let mut statuses: Vec<TaskStatus> = Vec::new();
        statuses.push(TaskStatus::Pending);
        MainView {
            task_list_widget: TaskListWidget::new(),
            criteria: FilterCriteria {
                statuses,
                filter_active: false,
                filter_overdue: false,
                projects: Vec::new(),
                tags: Vec::new(),
                search_text: String::new(),
            },
            available_projects: Vec::new(),
            available_tags: Vec::new(),
            filter_focused: false,
            filter_visible: false,
            active_filter_section: FilterSection::Status,
            status_selection_index: 0,
            project_selection_index: 0,
            tag_selection_index: 0,
        }
    }

    /// Recomputes the project and tag choices from the filterable tasks.
    pub fn update_available_filters(&mut self, tasks: &Vec<Task>)
        ensures
            strictly_ascending(final(self).available_projects@),
            names_of(final(self).available_projects@) == project_names(tasks@),
            strictly_ascending(final(self).available_tags@),
            names_of(final(self).available_tags@) == tag_names(tasks@),
            final(self).task_list_widget == old(self).task_list_widget,
            final(self).criteria == old(self).criteria,
    {
        self.available_projects = available_projects(tasks);
        self.available_tags = available_tags(tasks);
    }

    /// Whether a task passes the current criteria at instant `now`.
    pub fn matches_filters(&self, task: &Task, now: i64) -> (r: bool)
        ensures
            r == task_matches(*task, self.criteria, now as int),
    {
        matches_criteria(task, &self.criteria, now)
    }

    /// Replaces the snapshot, shows the tasks that pass the criteria newest
    /// first, and selects the task carrying `preserve_uuid` if it is still shown
    /// (with no uuid, the first row).
    pub fn set_tasks_with_preserved_selection(
        &mut self,
        tasks: Vec<Task>,
        preserve_uuid: Option<&str>,
        now: i64,
    )
        ensures
            final(self).wf(),
            final(self).criteria == old(self).criteria,
            final(self).available_projects == old(self).available_projects,
            final(self).available_tags == old(self).available_tags,
            final(self).task_list_widget.tasks@ == tasks@,
            final(self).task_list_widget.rows() == filtered_view(
                tasks@,
                old(self).criteria,
                now as int,
            ),
            opt_usize(final(self).task_list_widget.selected) == selection_for(
                filtered_view(tasks@, old(self).criteria, now as int),
                match preserve_uuid {
                    Some(u) => Some(u@),
                    None => None,
                },
            ),
    {
        let order = filter_indices(&tasks, &self.criteria, now);
        self.task_list_widget.show_rows(tasks, order, preserve_uuid);
    }

    /// Re-applies the criteria to the current snapshot, keeping the selected
    /// task selected while it still passes.
    pub fn apply_filters(&mut self, now: i64)
        requires
            old(self).wf(),
        ensures
            final(self).wf(),
            final(self).criteria == old(self).criteria,
            final(self).task_list_widget.tasks@ == old(self).task_list_widget.tasks@,
            final(self).task_list_widget.rows() == filtered_view(
                old(self).task_list_widget.tasks@,
                old(self).criteria,
                now as int,
            ),
            opt_usize(final(self).task_list_widget.selected) == selection_for(
                filtered_view(old(self).task_list_widget.tasks@, old(self).criteria, now as int),
                match old(self).task_list_widget.selected {
                    Some(k) => Some(old(self).task_list_widget.rows()[k as int].uuid@),
                    None => None,
                },
            ),
    {
        let keep = self.task_list_widget.selected_task_uuid();
        let mut tasks: Vec<Task> = Vec::new();
        core::mem::swap(&mut tasks, &mut self.task_list_widget.tasks);
        match &keep {
            Some(u) => self.set_tasks_with_preserved_selection(tasks, Some(u.as_str()), now),
            None => self.set_tasks_with_preserved_selection(tasks, None, now),
        }
    }

    pub fn next_task(&mut self)
        requires
            old(self).wf(),
        ensures
            final(self).wf(),
            final(self).task_list_widget.tasks@ == old(self).task_list_widget.tasks@,
            final(self).task_list_widget.order@ == old(self).task_list_widget.order@,
            final(self).task_list_widget.selected == next_row(
                old(self).task_list_widget.selected,
                old(self).task_list_widget.order@.len() as int,
            ),
            final(self).criteria == old(self).criteria,
    {
        self.task_list_widget.next();
    }

    pub fn previous_task(&mut self)
        requires
            old(self).wf(),
        ensures
            final(self).wf(),
            final(self).task_list_widget.tasks@ == old(self).task_list_widget.tasks@,
            final(self).task_list_widget.order@ == old(self).task_list_widget.order@,
            final(self).task_list_widget.selected == previous_row(
                old(self).task_list_widget.selected,
                old(self).task_list_widget.order@.len() as int,
            ),
            final(self).criteria == old(self).criteria,
    {
        self.task_list_widget.previous();
    }

    pub fn selected_task(&self) -> (r: Option<&Task>)
        requires
            self.wf(),
        ensures
            match self.task_list_widget.selected {
                Some(k) => r is Some && *r->0 == self.task_list_widget.rows()[k as int],
                None => r is None,
            },
    {
        self.task_list_widget.selected_task()
    }

    pub fn selected_task_uuid(&self) -> (r: Option<String>)
        requires
            self.wf(),
        ensures
            match self.task_list_widget.selected {
                Some(k) => r is Some && r->0@ == self.task_list_widget.rows()[k as int].uuid@,
                None => r is None,
            },
    {
        self.task_list_widget.selected_task_uuid()
    }

    pub fn selected_index(&self) -> (r: Option<usize>)
        ensures
            r == self.task_list_widget.selected,
    {
        self.task_list_widget.selected
    }

    pub fn is_filter_focused(&self) -> (r: bool)
        ensures
            r == self.filter_focused,
    {
        self.filter_focused
    }

    /// Moves focus into or out of the filter panel; entering also shows it.
    pub fn toggle_filter_focus(&mut self)
        ensures
            final(self).filter_focused == !old(self).filter_focused,
            final(self).filter_visible == (old(self).filter_visible || !old(self).filter_focused),
            final(self).task_list_widget == old(self).task_list_widget,
            final(self).criteria == old(self).criteria,
    {
        self.filter_focused = !self.filter_focused;
        if self.filter_focused {
            self.filter_visible = true;
        }
    }

    pub fn exit_filter_mode(&mut self)
        ensures
            !final(self).filter_focused,
            !final(self).filter_visible,
            final(self).task_list_widget == old(self).task_list_widget,
            final(self).criteria == old(self).criteria,
    {
        self.filter_focused = false;
        self.filter_visible = false;
    }

    /// Status, Project, Tags, Search, then Status again.
    pub fn next_filter_section(&mut self)
        ensures
            final(self).active_filter_section == match old(self).active_filter_section {
                FilterSection::Status => FilterSection::Project,
                FilterSection::Project => FilterSection::Tags,
                FilterSection::Tags => FilterSection::Search,
                FilterSection::Search => FilterSection::Status,
            },
            final(self).task_list_widget == old(self).task_list_widget,
            final(self).criteria == old(self).criteria,
    {
        self.active_filter_section = match self.active_filter_section {
            FilterSection::Status => FilterSection::Project,
            FilterSection::Project => FilterSection::Tags,
            FilterSection::Tags => FilterSection::Search,
            FilterSection::Search => FilterSection::Status,
        };
    }

    /// Moves the cursor of the current section one row up, stopping at the top.
    pub fn handle_filter_navigation_up(&mut self)
        ensures
            final(self).status_selection_index == if old(self).active_filter_section
                == FilterSection::Status && old(self).status_selection_index > 0 {
                (old(self).status_selection_index - 1) as usize
            } else {
                old(self).status_selection_index
            },
            final(self).project_selection_index == if old(self).active_filter_section
                == FilterSection::Project && old(self).project_selection_index > 0 {
                (old(self).project_selection_index - 1) as usize
            } else {
                old(self).project_selection_index
            },
            final(self).tag_selection_index == if old(self).active_filter_section
                == FilterSection::Tags && old(self).tag_selection_index > 0 {
                (old(self).tag_selection_index - 1) as usize
            } else {
                old(self).tag_selection_index
            },
            final(self).active_filter_section == old(self).active_filter_section,
            final(self).task_list_widget == old(self).task_list_widget,
            final(self).criteria == old(self).criteria,
    {
        match self.active_filter_section {
            FilterSection::Status => {
                if self.status_selection_index > 0 {
                    self.status_selection_index = self.status_selection_index - 1;
                }
            },
            FilterSection::Project => {
                if self.project_selection_index > 0 {
                    self.project_selection_index = self.project_selection_index - 1;
                }
            },
            FilterSection::Tags => {
                if self.tag_selection_index > 0 {
                    self.tag_selection_index = self.tag_selection_index - 1;
                }
            },
            FilterSection::Search => {},
        }
    }

    /// Moves the cursor of the current section one row down, stopping at the last row.
    pub fn handle_filter_navigation_down(&mut self)
        ensures
            final(self).status_selection_index == if old(self).active_filter_section
                == FilterSection::Status && old(self).status_selection_index + 1 < STATUS_ROWS {
                (old(self).status_selection_index + 1) as usize
            } else {
                old(self).status_selection_index
            },
            final(self).project_selection_index == if old(self).active_filter_section
                == FilterSection::Project && old(self).project_selection_index + 1
                < old(self).available_projects@.len() {
                (old(self).project_selection_index + 1) as usize
            } else {
                old(self).project_selection_index
            },
            final(self).tag_selection_index == if old(self).active_filter_section
                == FilterSection::Tags && old(self).tag_selection_index + 1
                < old(self).available_tags@.len() {
                (old(self).tag_selection_index + 1) as usize
            } else {
                old(self).tag_selection_index
            },
            final(self).active_filter_section == old(self).active_filter_section,
            final(self).task_list_widget == old(self).task_list_widget,
            final(self).criteria == old(self).criteria,
    {
        match self.active_filter_section {
            FilterSection::Status => {
                if self.status_selection_index < STATUS_ROWS - 1 {
                    self.status_selection_index = self.status_selection_index + 1;
                }
            },
            FilterSection::Project => {
                if self.project_selection_index < self.available_projects.len()
                    && self.project_selection_index + 1 < self.available_projects.len() {
                    self.project_selection_index = self.project_selection_index + 1;
                }
            },
            FilterSection::Tags => {
                if self.tag_selection_index < self.available_tags.len()
                    && self.tag_selection_index + 1 < self.available_tags.len() {
                    self.tag_selection_index = self.tag_selection_index + 1;
                }
            },
            FilterSection::Search => {},
        }
    }

    /// Flips the choice under the cursor. Status rows are, in order: pending,
    /// active, overdue, completed, deleted.
    pub fn toggle_current_selection(&mut self)
        ensures
            final(self).task_list_widget == old(self).task_list_widget,
            final(self).criteria.search_text == old(self).criteria.search_text,
            final(self).active_filter_section == old(self).active_filter_section,
            old(self).active_filter_section == FilterSection::Status ==> {
                let i = old(self).status_selection_index;
                let c0 = old(self).criteria;
                let c1 = final(self).criteria;
                &&& c1.projects == c0.projects
                &&& c1.tags == c0.tags
                &&& c1.filter_active == (if i == 1 {
                    !c0.filter_active
                } else {
                    c0.filter_active
                })
                &&& c1.filter_overdue == (if i == 2 {
                    !c0.filter_overdue
                } else {
                    c0.filter_overdue
                })
                &&& c1.statuses@ == (if i == 0 {
                    toggled_status(c0.statuses@, TaskStatus::Pending)
                } else if i == 3 {
                    toggled_status(c0.statuses@, TaskStatus::Completed)
                } else if i == 4 {
                    toggled_status(c0.statuses@, TaskStatus::Deleted)
                } else {
                    c0.statuses@
                })
            },
            old(self).active_filter_section == FilterSection::Project ==> {
                let i = old(self).project_selection_index;
                let c0 = old(self).criteria;
                let c1 = final(self).criteria;
                &&& c1.statuses == c0.statuses && c1.tags == c0.tags
                &&& c1.filter_active == c0.filter_active && c1.filter_overdue == c0.filter_overdue
                &&& if i < old(self).available_projects@.len() {
                    views(c1.projects@) == toggled_name(
                        c0.projects@,
                        old(self).available_projects@[i as int]@,
                    )
                } else {
                    c1.projects == c0.projects
                }
            },
            old(self).active_filter_section == FilterSection::Tags ==> {
                let i = old(self).tag_selection_index;
                let c0 = old(self).criteria;
                let c1 = final(self).criteria;
                &&& c1.statuses == c0.statuses && c1.projects == c0.projects
                &&& c1.filter_active == c0.filter_active && c1.filter_overdue == c0.filter_overdue
                &&& if i < old(self).available_tags@.len() {
                    views(c1.tags@) == toggled_name(c0.tags@, old(self).available_tags@[i as int]@)
                } else {
                    c1.tags == c0.tags
                }
            },
            old(self).active_filter_section == FilterSection::Search ==> final(self).criteria
                == old(self).criteria,
    {
        match self.active_filter_section {
            FilterSection::Status => {
                let i = self.status_selection_index;
                if i == 0 {
                    toggle_status(&mut self.criteria.statuses, TaskStatus::Pending);
                } else if i == 1 {
                    self.criteria.filter_active = !self.criteria.filter_active;
                } else if i == 2 {
                    self.criteria.filter_overdue = !self.criteria.filter_overdue;
                } else if i == 3 {
                    toggle_status(&mut self.criteria.statuses, TaskStatus::Completed);
                } else if i == 4 {
                    toggle_status(&mut self.criteria.statuses, TaskStatus::Deleted);
                }
            },
            FilterSection::Project => {
                if self.project_selection_index < self.available_projects.len() {
                    let name = self.available_projects[self.project_selection_index].clone();
                    toggle_name(&mut self.criteria.projects, &name);
                }
            },
            FilterSection::Tags => {
                if self.tag_selection_index < self.available_tags.len() {
                    let name = self.available_tags[self.tag_selection_index].clone();
                    toggle_name(&mut self.criteria.tags, &name);
                }
            },
            FilterSection::Search => {},
        }
    }

    /// Types a character into the search box while the search section has the cursor.
    pub fn handle_search_character(&mut self, c: char)
        ensures
            final(self).criteria.search_text@ == if old(self).active_filter_section
                == FilterSection::Search {
                old(self).criteria.search_text@.push(c)
            } else {
                old(self).criteria.search_text@
            },
            final(self).criteria.statuses == old(self).criteria.statuses,
            final(self).criteria.projects == old(self).criteria.projects,
            final(self).criteria.tags == old(self).criteria.tags,
            final(self).task_list_widget == old(self).task_list_widget,
    {
        if self.active_filter_section == FilterSection::Search {
            push_char(&mut self.criteria.search_text, c);
        }
    }

    /// Deletes the last character of the search box while the search section has the cursor.
    pub fn handle_search_backspace(&mut self)
        ensures
            final(self).criteria.search_text@ == if old(self).active_filter_section
                == FilterSection::Search && old(self).criteria.search_text@.len() > 0 {
                old(self).criteria.search_text@.drop_last()
            } else {
                old(self).criteria.search_text@
            },
            final(self).criteria.statuses == old(self).criteria.statuses,
            final(self).criteria.projects == old(self).criteria.projects,
            final(self).criteria.tags == old(self).criteria.tags,
            final(self).task_list_widget == old(self).task_list_widget,
    {
        if self.active_filter_section == FilterSection::Search {
            pop_char(&mut self.criteria.search_text);
        }
    }
}

} // verus!
