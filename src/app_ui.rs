use vstd::prelude::*;
use crate::model::Task;
use crate::config::Config;
use crate::handlers::Action;
use crate::widgets::AppView;
use crate::main_view::MainView;
use crate::reports_view::ReportsView;
use crate::reports::{scorable, WEEK_SECONDS, report_matches, summary_matches};
use crate::model::same_tasks;
use crate::ordering::filtered_view;
use crate::task_list::{selection_for, opt_usize};
use crate::criteria::opt_view;
use crate::facets::{strictly_ascending, names_of, project_names, tag_names};
use crate::task_form::{TaskForm, TaskFormResult};
use crate::model::copy_task;
use crate::task_list::TaskListWidget;
use crate::formatting::task_to_attributes;
use crate::calendar::{DateNavigation, MAX_DAY};

verus! {

/// Work for the task store that the application performs on the interface's behalf.
pub enum StoreCommand {
    Add { description: String, attributes: Vec<(String, String)> },
    Modify { id: u32, attributes: Vec<(String, String)> },
    Done(u32),
    Delete(u32),
    /// Export the tasks again and hand them to `load_tasks`.
    Reload,
}

/// After completing or deleting row `index` of `rows`, the row to select: the
/// next one, else the previous one, else none.
pub open spec fn neighbour_row(len: int, index: int) -> Option<int> {
    if index + 1 < len {
        Some(index + 1)
    } else if index > 0 {
        Some(index - 1)
    } else {
        None
    }
}

/// The remembered uuid is the one of the row next to the selected row (the
/// first row when none is selected), or nothing when there is no such row.
pub open spec fn neighbour_choice(kept: Option<String>, list: TaskListWidget) -> bool {
    let index = match list.selected {
        Some(k) => k as int,
        None => 0,
    };
    match neighbour_row(list.rows().len() as int, index) {
        Some(j) => kept is Some && kept->0@ == list.rows()[j].uuid@,
        None => kept is None,
    }
}

/// The whole interface: which screen is shown, the task list with its
/// filters, the reports, the open form, and which task to select after the
/// next reload.
pub struct AppUI {
    pub current_view: AppView,
    pub show_help_bar: bool,
    pub main_view: MainView,
    pub reports_view: ReportsView,
    pub task_form: Option<TaskForm>,
    pub preserve_selection_uuid: Option<String>,
}

impl AppUI {
    pub open spec fn wf(&self) -> bool {
        &&& self.main_view.wf()
        &&& match self.task_form {
            Some(f) => f.wf(),
            None => true,
        }
    }

    pub fn new(config: &Config) -> (r: AppUI)
        ensures
            r.wf(),
            r.current_view == AppView::TaskList,
            r.task_form is None,
            r.preserve_selection_uuid is None,
            r.show_help_bar == config.ui.show_help_bar,
    {
        AppUI {
            current_view: AppView::TaskList,
            show_help_bar: config.ui.show_help_bar,
            main_view: MainView::new(),
            reports_view: ReportsView::new(),
            task_form: None,
            preserve_selection_uuid: None,
        }
    }

    /// Shows the filtered list again, selecting the remembered task (or the
    /// first row), and forgets the remembered task.
    pub fn apply_filters(&mut self, now: i64)
        requires
            match old(self).task_form {
                Some(f) => f.wf(),
                None => true,
            },
        ensures
            final(self).wf(),
            final(self).main_view.task_list_widget.tasks@ == old(self).main_view.task_list_widget.tasks@,
            final(self).main_view.task_list_widget.rows() == filtered_view(
                old(self).main_view.task_list_widget.tasks@,
                old(self).main_view.criteria,
                now as int,
            ),
            opt_usize(final(self).main_view.task_list_widget.selected) == selection_for(
                filtered_view(
                    old(self).main_view.task_list_widget.tasks@,
                    old(self).main_view.criteria,
                    now as int,
                ),
                opt_view(old(self).preserve_selection_uuid),
            ),
            final(self).main_view.criteria == old(self).main_view.criteria,
            final(self).main_view.available_projects == old(self).main_view.available_projects,
            final(self).main_view.available_tags == old(self).main_view.available_tags,
            final(self).reports_view == old(self).reports_view,
            final(self).preserve_selection_uuid is None,
            final(self).current_view == old(self).current_view,
            final(self).task_form == old(self).task_form,
    {
        let mut tasks: Vec<Task> = Vec::new();
        core::mem::swap(&mut tasks, &mut self.main_view.task_list_widget.tasks);
        match &self.preserve_selection_uuid {
            Some(u) => self.main_view.set_tasks_with_preserved_selection(tasks, Some(u.as_str()), now),
            None => self.main_view.set_tasks_with_preserved_selection(tasks, None, now),
        }
        self.preserve_selection_uuid = None;
    }

    /// Takes in a fresh snapshot: the filter choices, the reports and the
    /// filtered list are all recomputed.
    pub fn load_tasks(&mut self, tasks: Vec<Task>, now: i64)
        requires
            match old(self).task_form {
                Some(f) => f.wf(),
                None => true,
            },
            scorable(tasks@),
            old(self).reports_view.data_version < u64::MAX,
            now >= i64::MIN + WEEK_SECONDS,
        ensures
            final(self).wf(),
            final(self).main_view.task_list_widget.tasks@ == tasks@,
            final(self).main_view.task_list_widget.rows() == filtered_view(
                tasks@,
                old(self).main_view.criteria,
                now as int,
            ),
            opt_usize(final(self).main_view.task_list_widget.selected) == selection_for(
                filtered_view(tasks@, old(self).main_view.criteria, now as int),
                opt_view(old(self).preserve_selection_uuid),
            ),
            final(self).main_view.criteria == old(self).main_view.criteria,
            strictly_ascending(final(self).main_view.available_projects@),
            names_of(final(self).main_view.available_projects@) == project_names(tasks@),
            strictly_ascending(final(self).main_view.available_tags@),
            names_of(final(self).main_view.available_tags@) == tag_names(tasks@),
            same_tasks(final(self).reports_view.tasks@, tasks@),
            final(self).reports_view.data_version == old(self).reports_view.data_version + 1,
            report_matches(final(self).reports_view.project_stats, tasks@),
            final(self).reports_view.task_summary_cache is Some,
            summary_matches(
                final(self).reports_view.task_summary_cache->0,
                tasks@,
                final(self).reports_view.data_version,
                now as int,
            ),
            final(self).preserve_selection_uuid is None,
            final(self).current_view == old(self).current_view,
            final(self).task_form == old(self).task_form,
    {
        self.main_view.update_available_filters(&tasks);
        self.reports_view.update_tasks(&tasks, now);
        self.main_view.task_list_widget.tasks = tasks;
        self.apply_filters(now);
    }

    /// An operation on the task store failed: nothing is remembered for reselection.
    pub fn command_failed(&mut self)
        ensures
            final(self).preserve_selection_uuid is None,
            final(self).current_view == old(self).current_view,
            final(self).main_view == old(self).main_view,
    {
        self.preserve_selection_uuid = None;
    }

    fn in_filters(&self) -> (r: bool)
        ensures
            r == (self.current_view == AppView::TaskList && self.main_view.filter_focused),
    {
        self.current_view == AppView::TaskList && self.main_view.is_filter_focused()
    }

    fn in_calendar(&self) -> (r: bool)
        ensures
            r == (self.current_view == AppView::Reports && self.reports_view.mode
                == crate::reports_view::ReportMode::Calendar),
    {
        self.current_view == AppView::Reports && self.reports_view.is_calendar_mode()
    }

    fn move_day(&mut self, direction: DateNavigation, today: i64)
        requires
            old(self).wf(),
        ensures
            final(self).wf(),
            final(self).current_view == old(self).current_view,
            final(self).task_form == old(self).task_form,
            final(self).main_view == old(self).main_view,
            final(self).preserve_selection_uuid == old(self).preserve_selection_uuid,
    {
        let d = self.reports_view.selected_day;
        if -MAX_DAY <= d && d <= MAX_DAY {
            self.reports_view.navigate_date(direction, today);
        }
    }

    /// Remembers the row next to the selected one, for the reload after it
    /// is completed or deleted.
    fn remember_neighbour(&mut self)
        requires
            old(self).wf(),
        ensures
            final(self).wf(),
            neighbour_choice(final(self).preserve_selection_uuid, old(self).main_view.task_list_widget),
            final(self).main_view == old(self).main_view,
            final(self).current_view == old(self).current_view,
            final(self).task_form == old(self).task_form,
    {
        let list: &TaskListWidget = &self.main_view.task_list_widget;
        let n = list.len();
        let index = match list.selected {
            Some(k) => k,
            None => 0,
        };
        self.preserve_selection_uuid = if index < n && index + 1 < n {
            Some(list.tasks[list.order[index + 1]].uuid.clone())
        } else if index > 0 && index - 1 < n {
            Some(list.tasks[list.order[index - 1]].uuid.clone())
        } else {
            None
        };
    }

    fn selected_id(&self) -> (r: Option<u32>)
        requires
            self.wf(),
        ensures
            match self.main_view.task_list_widget.selected {
                Some(k) => r == self.main_view.task_list_widget.rows()[k as int].id,
                None => r is None,
            },
    {
        match self.main_view.selected_task() {
            Some(t) => t.id,
            None => None,
        }
    }

    /// Handles one action and returns the store operation it calls for, if
    /// any. `now` is the current instant and `today` the current day number.
    pub fn handle_action(&mut self, action: Action, now: i64, today: i64) -> (r: Option<StoreCommand>)
        requires
            old(self).wf(),
        ensures
            final(self).wf(),
            action == Action::Refresh && old(self).task_form is None ==> r matches Some(StoreCommand::Reload),
            action == Action::Help && old(self).task_form is None ==> final(self).current_view == AppView::Help,
            action == Action::Reports && old(self).task_form is None ==> final(self).current_view == AppView::Reports,
            old(self).task_form is None && (action == Action::DoneTask || action == Action::DeleteTask)
                && !(old(self).current_view == AppView::TaskList && old(self).main_view.filter_focused) ==> {
                match old(self).main_view.task_list_widget.selected {
                    Some(k) => match old(self).main_view.task_list_widget.rows()[k as int].id {
                        Some(id) => if action == Action::DoneTask {
                            r matches Some(StoreCommand::Done(x)) && x == id
                        } else {
                            r matches Some(StoreCommand::Delete(x)) && x == id
                        },
                        None => r is None,
                    },
                    None => r is None,
                }
            },
            old(self).task_form is None && action == Action::AddTask
                && !(old(self).current_view == AppView::TaskList && old(self).main_view.filter_focused)
                ==> final(self).task_form is Some,
            old(self).task_form is None && (action == Action::Quit || action == Action::MoveLeft
                || action == Action::MoveRight || action == Action::Context) ==> r is None,
    {
        if self.task_form.is_some() {
            let mut form = self.task_form.take().unwrap();
            let outcome = form.handle_input(action);
            match outcome {
                Some(TaskFormResult::Save(task)) => {
                    let attributes = task_to_attributes(&task);
                    let cmd = match task.id {
                        Some(id) => {
                            self.preserve_selection_uuid = Some(task.uuid.clone());
                            StoreCommand::Modify { id, attributes }
                        },
                        None => {
                            self.preserve_selection_uuid = None;
                            StoreCommand::Add { description: task.description.clone(), attributes }
                        },
                    };
                    return Some(cmd);
                },
                Some(TaskFormResult::Cancel) => {
                    return None;
                },
                None => {
                    self.task_form = Some(form);
                },
            }
        }
        match action {
            Action::Quit => None,
            Action::Help => {
                self.current_view = AppView::Help;
                None
            },
            Action::Reports => {
                self.current_view = AppView::Reports;
                None
            },
            Action::Context => {
                if self.current_view == AppView::Reports {
                    self.reports_view.toggle_mode();
                }
                None
            },
            Action::Back => {
                if self.task_form.is_some() {
                    self.task_form = None;
                } else if self.in_filters() {
                    self.main_view.exit_filter_mode();
                    self.apply_filters(now);
                } else {
                    self.current_view = AppView::TaskList;
                }
                None
            },
            Action::MoveUp => {
                if self.in_filters() {
                    self.main_view.handle_filter_navigation_up();
                } else if self.in_calendar() {
                    self.move_day(DateNavigation::PrevWeek, today);
                } else if self.task_form.is_none() && self.current_view == AppView::TaskList {
                    self.main_view.previous_task();
                }
                None
            },
            Action::MoveDown => {
                if self.in_filters() {
                    self.main_view.handle_filter_navigation_down();
                } else if self.in_calendar() {
                    self.move_day(DateNavigation::NextWeek, today);
                } else if self.task_form.is_none() && self.current_view == AppView::TaskList {
                    self.main_view.next_task();
                }
                None
            },
            Action::MoveLeft => {
                if self.in_calendar() {
                    self.move_day(DateNavigation::PrevDay, today);
                }
                None
            },
            Action::MoveRight => {
                if self.in_calendar() {
                    self.move_day(DateNavigation::NextDay, today);
                }
                None
            },
            Action::Refresh => Some(StoreCommand::Reload),
            Action::Filter => {
                if self.current_view == AppView::TaskList {
                    self.main_view.toggle_filter_focus();
                    if !self.main_view.is_filter_focused() {
                        self.apply_filters(now);
                    }
                }
                None
            },
            Action::Tab => {
                if self.in_filters() {
                    self.main_view.next_filter_section();
                }
                None
            },
            _ => {
                if self.in_filters() {
                    match action {
                        Action::Space => {
                            self.main_view.toggle_current_selection();
                            self.apply_filters(now);
                        },
                        Action::Character(c) => {
                            self.main_view.handle_search_character(c);
                            self.apply_filters(now);
                        },
                        Action::Backspace => {
                            self.main_view.handle_search_backspace();
                            self.apply_filters(now);
                        },
                        Action::Select => {
                            self.apply_filters(now);
                        },
                        _ => {},
                    }
                    None
                } else if self.task_form.is_none() {
                    self.handle_task_list_action(action)
                } else {
                    None
                }
            },
        }
    }

    /// Actions on the selected task: open the form, or ask the store to
    /// complete or delete it (remembering the neighbouring row to select).
    pub fn handle_task_list_action(&mut self, action: Action) -> (r: Option<StoreCommand>)
        requires
            old(self).wf(),
        ensures
            final(self).wf(),
            final(self).current_view == old(self).current_view,
            action == Action::AddTask ==> final(self).task_form is Some && r is None,
            action == Action::DoneTask || action == Action::DeleteTask ==> {
                match old(self).main_view.task_list_widget.selected {
                    Some(k) => match old(self).main_view.task_list_widget.rows()[k as int].id {
                        Some(id) => (if action == Action::DoneTask {
                            r matches Some(StoreCommand::Done(x)) && x == id
                        } else {
                            r matches Some(StoreCommand::Delete(x)) && x == id
                        }) && neighbour_choice(
                            final(self).preserve_selection_uuid,
                            old(self).main_view.task_list_widget,
                        ),
                        None => r is None,
                    },
                    None => r is None,
                }
            },
            action != Action::DoneTask && action != Action::DeleteTask ==> r is None,
    {
        match action {
            Action::AddTask => {
                self.task_form = Some(TaskForm::new_task());
                None
            },
            Action::EditTask => {
                match self.main_view.selected_task() {
                    Some(t) => {
                        let copy = copy_task(t);
                        self.task_form = Some(TaskForm::edit_task(copy));
                    },
                    None => {},
                }
                None
            },
            Action::DoneTask => {
                match self.selected_id() {
                    Some(id) => {
                        self.remember_neighbour();
                        Some(StoreCommand::Done(id))
                    },
                    None => None,
                }
            },
            Action::DeleteTask => {
                match self.selected_id() {
                    Some(id) => {
                        self.remember_neighbour();
                        Some(StoreCommand::Delete(id))
                    },
                    None => None,
                }
            },
            _ => None,
        }
    }
}

} // verus!
