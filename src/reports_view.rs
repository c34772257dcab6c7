use vstd::prelude::*;
use crate::model::{Task, now_timestamp, copy_tasks, same_tasks};
use crate::reports::{
    TaskSummaryCache, ProjectReport, calculate_summary, calculate_project_stats, report_matches,
    scorable, cache_valid, summary_matches, WEEK_SECONDS,
};
use crate::calendar::{
    DateNavigation, navigate_date, day_number, MAX_DAY, civil_date_of, month_step_date, month_step_day,
};

verus! {

/// What the reports screen shows.
#[derive(Debug, Clone, Copy, PartialEq, Eq, Structural)]
pub enum ReportMode {
    Dashboard,
    Calendar,
}

/// The reports screen: the snapshot with its derived statistics, a version
/// counter bumped on every replacement, and the calendar's selected day.
pub struct ReportsView {
    pub tasks: Vec<Task>,
    pub project_stats: ProjectReport,
    pub task_summary_cache: Option<TaskSummaryCache>,
    pub data_version: u64,
    pub mode: ReportMode,
    pub selected_day: i64,
}

impl ReportsView {
    /// An empty view on the dashboard, with today selected in the calendar.
    pub fn new() -> (r: ReportsView)
        ensures
            r.tasks@.len() == 0,
            r.data_version == 0,
            r.task_summary_cache is None,
            r.mode == ReportMode::Dashboard,
    {
        ReportsView {
            tasks: Vec::new(),
            project_stats: ProjectReport { names: Vec::new(), stats: Vec::new() },
            task_summary_cache: None,
            data_version: 0,
            mode: ReportMode::Dashboard,
            selected_day: day_number(now_timestamp()),
        }
    }

    /// Replaces the snapshot by a copy of `tasks`, bumps the version and
    /// recomputes every statistic of `tasks` at `now`.
    pub fn update_tasks(&mut self, tasks: &Vec<Task>, now: i64)
        requires
            scorable(tasks@),
            old(self).data_version < u64::MAX,
            now >= i64::MIN + WEEK_SECONDS,
        ensures
            same_tasks(final(self).tasks@, tasks@),
            final(self).data_version == old(self).data_version + 1,
            report_matches(final(self).project_stats, tasks@),
            final(self).task_summary_cache is Some,
            summary_matches(
                final(self).task_summary_cache->0,
                tasks@,
                final(self).data_version,
                now as int,
            ),
            forall|c: TaskSummaryCache|
                cache_valid(c, old(self).data_version) ==> !cache_valid(c, final(self).data_version),
            final(self).mode == old(self).mode,
            final(self).selected_day == old(self).selected_day,
    {
        self.data_version = self.data_version + 1;
        self.project_stats = calculate_project_stats(tasks);
        self.task_summary_cache = Some(calculate_summary(tasks, self.data_version, now));
        self.tasks = copy_tasks(tasks);
    }

    /// The cached summary, only while it matches the current version.
    pub fn summary(&self) -> (r: Option<&TaskSummaryCache>)
        ensures
            match self.task_summary_cache {
                Some(c) => if cache_valid(c, self.data_version) {
                    r is Some && *r->0 == c
                } else {
                    r is None
                },
                None => r is None,
            },
    {
        match &self.task_summary_cache {
            Some(c) => if c.is_valid(self.data_version) {
                Some(c)
            } else {
                None
            },
            None => None,
        }
    }

    pub fn toggle_mode(&mut self)
        ensures
            final(self).mode == match old(self).mode {
                ReportMode::Dashboard => ReportMode::Calendar,
                ReportMode::Calendar => ReportMode::Dashboard,
            },
            final(self).selected_day == old(self).selected_day,
            final(self).data_version == old(self).data_version,
    {
        self.mode = match self.mode {
            ReportMode::Dashboard => ReportMode::Calendar,
            ReportMode::Calendar => ReportMode::Dashboard,
        };
    }

    pub fn is_calendar_mode(&self) -> (r: bool)
        ensures
            r == (self.mode == ReportMode::Calendar),
    {
        self.mode == ReportMode::Calendar
    }

    /// Moves the selected day; `today` is the current day number.
    pub fn navigate_date(&mut self, direction: DateNavigation, today: i64)
        requires
            -MAX_DAY <= old(self).selected_day <= MAX_DAY,
        ensures
            direction == DateNavigation::NextDay ==> final(self).selected_day == old(self).selected_day + 1,
            direction == DateNavigation::PrevDay ==> final(self).selected_day == old(self).selected_day - 1,
            direction == DateNavigation::NextWeek ==> final(self).selected_day == old(self).selected_day + 7,
            direction == DateNavigation::PrevWeek ==> final(self).selected_day == old(self).selected_day - 7,
            direction == DateNavigation::Today ==> final(self).selected_day == today,
            direction == DateNavigation::NextMonth ==> final(self).selected_day as int
                == month_step_day(old(self).selected_day as int, true) && civil_date_of(
                final(self).selected_day as int,
            ) == month_step_date(old(self).selected_day as int, true),
            direction == DateNavigation::PrevMonth ==> final(self).selected_day as int
                == month_step_day(old(self).selected_day as int, false) && civil_date_of(
                final(self).selected_day as int,
            ) == month_step_date(old(self).selected_day as int, false),
            final(self).mode == old(self).mode,
            final(self).data_version == old(self).data_version,
            final(self).tasks == old(self).tasks,
            final(self).project_stats == old(self).project_stats,
            final(self).task_summary_cache == old(self).task_summary_cache,
    {
        self.selected_day = navigate_date(self.selected_day, direction, today);
    }
}

} // verus!
