use vstd::prelude::*;
use chrono::Datelike;
use crate::model::{Task, TaskStatus, count_where, task_is_overdue};
use crate::reports::{lemma_count_step, lemma_count_le, lemma_urgency_bound, scorable};
use crate::urgency::{calculate_urgency, urgency_tenths};
use crate::ordering::derefs;

verus! {

/// Seconds in one day.
pub const SECONDS_PER_DAY: i64 = 86400;

/// Earliest and latest years that calendar conversions accept.
pub const MIN_YEAR: i32 = -262143;
pub const MAX_YEAR: i32 = 262142;

/// Day number (days since 1970-01-01) of an instant in seconds since the epoch, UTC.
pub open spec fn day_of(ts: int) -> int {
    ts / (SECONDS_PER_DAY as int)
}

pub open spec fn is_leap_year(y: int) -> bool {
    (y % 4 == 0 && y % 100 != 0) || y % 400 == 0
}

pub open spec fn days_in_month(y: int, m: int) -> int {
    if m == 2 {
        if is_leap_year(y) {
            29
        } else {
            28
        }
    } else if m == 4 || m == 6 || m == 9 || m == 11 {
        30
    } else {
        31
    }
}

/// A day that exists in the proleptic Gregorian calendar.
pub open spec fn is_valid_date(y: int, m: int, d: int) -> bool {
    1 <= m <= 12 && 1 <= d <= days_in_month(y, m)
}

/// The calendar date (year, month, day) of a day number.
pub uninterp spec fn civil_date_of(day: int) -> (int, int, int);

/// The day number of a calendar date.
pub uninterp spec fn epoch_day_of(y: int, m: int, d: int) -> int;

/// Relies on chrono's `NaiveDate::from_epoch_days` (day 0 is 1970-01-01): the
/// calendar date of a day number, always a date that exists, whose day number
/// is `day` again; `None` only outside `NaiveDate::MIN..=NaiveDate::MAX`, which
/// holds every day within `MAX_DAY` of 1970, and those fall in years strictly
/// inside chrono's year range.
#[verifier::external_body]
pub(crate) fn civil_from_day(day: i32) -> (r: Option<(i32, u32, u32)>)
    ensures
        -MAX_DAY <= day <= MAX_DAY ==> r is Some,
        r is Some ==> {
            let (y, m, d) = r->0;
            &&& (y as int, m as int, d as int) == civil_date_of(day as int)
            &&& is_valid_date(y as int, m as int, d as int)
            &&& epoch_day_of(y as int, m as int, d as int) == day as int
            &&& (-MAX_DAY <= day <= MAX_DAY ==> MIN_YEAR < y < MAX_YEAR)
        },
{
    match chrono::NaiveDate::from_epoch_days(day) {
        Some(date) => Some((date.year(), date.month(), date.day())),
        None => None,
    }
}

/// Relies on chrono's `NaiveDate::from_ymd_opt` and `NaiveDate::to_epoch_days`:
/// `None` exactly when the date does not exist or its year is out of range;
/// otherwise the day number, whose calendar date is the given one.
#[verifier::external_body]
pub(crate) fn day_from_civil(y: i32, m: u32, d: u32) -> (r: Option<i32>)
    ensures
        r is Some <==> (is_valid_date(y as int, m as int, d as int) && MIN_YEAR <= y <= MAX_YEAR),
        r is Some ==> r->0 as int == epoch_day_of(y as int, m as int, d as int),
        r is Some ==> civil_date_of(r->0 as int) == (y as int, m as int, d as int),
{
    match chrono::NaiveDate::from_ymd_opt(y, m, d) {
        Some(date) => Some(date.to_epoch_days()),
        None => None,
    }
}

/// The day number of an instant (floor division, also before 1970).
pub fn day_number(ts: i64) -> (r: i64)
    ensures
        r as int == day_of(ts as int),
{
    if ts >= 0 {
        ts / SECONDS_PER_DAY
    } else {
        let a: i64 = -(ts + 1);
        let q: i64 = a / SECONDS_PER_DAY;
        proof {
            let r = a % SECONDS_PER_DAY;
            assert(a == SECONDS_PER_DAY * q + r && 0 <= r < SECONDS_PER_DAY) by (nonlinear_arith)
                requires
                    a >= 0,
                    q == a / SECONDS_PER_DAY,
                    r == a % SECONDS_PER_DAY,
                    SECONDS_PER_DAY == 86400,
            ;
            let t = ts as int;
            assert(t == 86400 * (-q - 1) + (86400 - r - 1));
            vstd::arithmetic::div_mod::lemma_div_multiples_vanish_fancy(-q - 1, 86400 - r - 1, 86400);
        }
        -q - 1
    }
}

pub fn is_leap(y: i32) -> (r: bool)
    ensures
        r == is_leap_year(y as int),
{
    let x: u64 = (y as i64 + 2_400_000_000i64) as u64;
    proof {
        let yi = y as int;
        assert(x as int == 4 * 600_000_000 + yi);
        assert(x as int == 100 * 24_000_000 + yi);
        assert(x as int == 400 * 6_000_000 + yi);
        vstd::arithmetic::div_mod::lemma_mod_multiples_vanish(600_000_000, yi, 4);
        vstd::arithmetic::div_mod::lemma_mod_multiples_vanish(24_000_000, yi, 100);
        vstd::arithmetic::div_mod::lemma_mod_multiples_vanish(6_000_000, yi, 400);
    }
    (x % 4 == 0 && x % 100 != 0) || x % 400 == 0
}

pub fn month_length(y: i32, m: u32) -> (r: u32)
    ensures
        r as int == days_in_month(y as int, m as int),
{
    if m == 2 {
        if is_leap(y) {
            29
        } else {
            28
        }
    } else if m == 4 || m == 6 || m == 9 || m == 11 {
        30
    } else {
        31
    }
}

/// The date one calendar month later (or earlier), with the day of month
/// clamped to the length of the target month.
pub open spec fn month_shift(y: int, m: int, d: int, forward: bool) -> (int, int, int) {
    let (ny, nm) = if forward {
        if m == 12 {
            (y + 1, 1int)
        } else {
            (y, m + 1)
        }
    } else {
        if m == 1 {
            (y - 1, 12int)
        } else {
            (y, m - 1)
        }
    };
    let last = days_in_month(ny, nm);
    (ny, nm, if d <= last {
        d
    } else {
        last
    })
}

/// Steps a valid date one calendar month forward or back.
pub fn shift_month(y: i32, m: u32, d: u32, forward: bool) -> (r: (i32, u32, u32))
    requires
        is_valid_date(y as int, m as int, d as int),
        MIN_YEAR <= y <= MAX_YEAR,
    ensures
        (r.0 as int, r.1 as int, r.2 as int) == month_shift(y as int, m as int, d as int, forward),
        is_valid_date(r.0 as int, r.1 as int, r.2 as int),
{
    let (ny, nm): (i32, u32) = if forward {
        if m == 12 {
            (y + 1, 1)
        } else {
            (y, m + 1)
        }
    } else {
        if m == 1 {
            (y - 1, 12)
        } else {
            (y, m - 1)
        }
    };
    let last = month_length(ny, nm);
    (ny, nm, if d <= last {
        d
    } else {
        last
    })
}

/// Stepping a month from the 31st of January lands on the last day of
/// February: the 29th in a leap year, the 28th otherwise.
pub proof fn lemma_month_after_january_31(y: int)
    ensures
        month_shift(y, 1, 31, true) == (y, 2int, if is_leap_year(y) {
            29int
        } else {
            28int
        }),
{
}

/// Navigating a month forward from a 31st of January lands on the last day of
/// that year's February.
pub proof fn lemma_month_step_from_january_31(day: int)
    requires
        civil_date_of(day).1 == 1,
        civil_date_of(day).2 == 31,
    ensures
        month_step_date(day, true) == (civil_date_of(day).0, 2int, if is_leap_year(civil_date_of(day).0) {
            29int
        } else {
            28int
        }),
{
}

/// How the calendar's selected day moves.
#[derive(Debug, Clone, Copy, PartialEq, Eq, Structural)]
pub enum DateNavigation {
    NextDay,
    PrevDay,
    NextWeek,
    PrevWeek,
    NextMonth,
    PrevMonth,
    Today,
}

/// Day numbers the calendar works with: about 246,000 years either side of
/// 1970, well inside the range of chrono's dates.
pub const MAX_DAY: i64 = 90_000_000;

/// The calendar date one month after (`forward`) or before the date of `day`,
/// the day of the month clamped to the target month.
pub open spec fn month_step_date(day: int, forward: bool) -> (int, int, int) {
    let (y, m, d) = civil_date_of(day);
    month_shift(y, m, d, forward)
}

/// The day number of `month_step_date`.
pub open spec fn month_step_day(day: int, forward: bool) -> int {
    let (y, m, d) = month_step_date(day, forward);
    epoch_day_of(y, m, d)
}

/// Moves by one true calendar month, clamping the day of the month.
pub fn step_month(day: i64, forward: bool) -> (r: i64)
    requires
        -MAX_DAY <= day <= MAX_DAY,
    ensures
        r as int == month_step_day(day as int, forward),
        civil_date_of(r as int) == month_step_date(day as int, forward),
{
    match civil_from_day(day as i32) {
        Some((y, m, d)) => {
            let (ny, nm, nd) = shift_month(y, m, d, forward);
            match day_from_civil(ny, nm, nd) {
                Some(n) => n as i64,
                None => day,
            }
        },
        None => day,
    }
}

/// The selected day after one navigation step; `today` is the current day number.
pub fn navigate_date(day: i64, direction: DateNavigation, today: i64) -> (r: i64)
    requires
        -MAX_DAY <= day <= MAX_DAY,
    ensures
        direction == DateNavigation::NextDay ==> r == day + 1,
        direction == DateNavigation::PrevDay ==> r == day - 1,
        direction == DateNavigation::NextWeek ==> r == day + 7,
        direction == DateNavigation::PrevWeek ==> r == day - 7,
        direction == DateNavigation::Today ==> r == today,
        direction == DateNavigation::NextMonth ==> r as int == month_step_day(day as int, true)
            && civil_date_of(r as int) == month_step_date(day as int, true),
        direction == DateNavigation::PrevMonth ==> r as int == month_step_day(day as int, false)
            && civil_date_of(r as int) == month_step_date(day as int, false),
{
    match direction {
        DateNavigation::NextDay => day + 1,
        DateNavigation::PrevDay => day - 1,
        DateNavigation::NextWeek => day + 7,
        DateNavigation::PrevWeek => day - 7,
        DateNavigation::NextMonth => step_month(day, true),
        DateNavigation::PrevMonth => step_month(day, false),
        DateNavigation::Today => today,
    }
}

/// Due on the given day (time of day ignored).
pub open spec fn due_on(t: Task, day: int) -> bool {
    t.due.is_some() && day_of(t.due.unwrap() as int) == day
}

/// Completed on the given day.
pub open spec fn completed_on(t: Task, day: int) -> bool {
    t.end.is_some() && day_of(t.end.unwrap() as int) == day
}

/// Created on the given day.
pub open spec fn created_on(t: Task, day: int) -> bool {
    day_of(t.entry as int) == day
}

/// Belongs to the given day for any of the three reasons.
pub open spec fn on_day(t: Task, day: int) -> bool {
    due_on(t, day) || completed_on(t, day) || created_on(t, day)
}

/// The tasks of `s` that belong to `day`, each once, in snapshot order.
pub open spec fn tasks_on(s: Seq<Task>, day: int) -> Seq<Task>
    decreases s.len(),
{
    if s.len() == 0 {
        s
    } else {
        let p = tasks_on(s.drop_last(), day);
        if on_day(s.last(), day) {
            p.push(s.last())
        } else {
            p
        }
    }
}

pub fn is_due_on(t: &Task, day: i64) -> (r: bool)
    ensures
        r == due_on(*t, day as int),
{
    match t.due {
        Some(d) => day_number(d) == day,
        None => false,
    }
}

pub fn is_completed_on(t: &Task, day: i64) -> (r: bool)
    ensures
        r == completed_on(*t, day as int),
{
    match t.end {
        Some(e) => day_number(e) == day,
        None => false,
    }
}

pub fn is_created_on(t: &Task, day: i64) -> (r: bool)
    ensures
        r == created_on(*t, day as int),
{
    day_number(t.entry) == day
}

/// The tasks due, completed or created on `day`, each listed once.
pub fn tasks_on_day<'a>(day: i64, tasks: &'a Vec<Task>) -> (r: Vec<&'a Task>)
    ensures
        derefs(r@) == tasks_on(tasks@, day as int),
{
    let mut r: Vec<&'a Task> = Vec::new();
    let mut i: usize = 0;
    while i < tasks.len()
        invariant
            i <= tasks@.len(),
            derefs(r@) == tasks_on(tasks@.subrange(0, i as int), day as int),
        decreases tasks@.len() - i,
    {
        let ghost before = tasks@.subrange(0, i as int);
        let ghost after = tasks@.subrange(0, i as int + 1);
        assert(after.drop_last() =~= before);
        let t = &tasks[i];
        if is_due_on(t, day) || is_completed_on(t, day) || is_created_on(t, day) {
            let ghost prev = r@;
            r.push(t);
            assert(derefs(r@) =~= derefs(prev).push(*t));
        }
        i = i + 1;
    }
    assert(tasks@.subrange(0, tasks@.len() as int) =~= tasks@);
    r
}

/// Counts shown for one calendar day.
pub struct DayStats {
    /// Tasks that belong to the day for any reason.
    pub total: usize,
    /// Of those, how many are pending, completed, deleted.
    pub pending: usize,
    pub completed: usize,
    pub deleted: usize,
    /// Tasks due, completed, created that day.
    pub due: usize,
    pub completed_today: usize,
    pub created: usize,
    /// Of the day's tasks, how many are overdue.
    pub overdue: usize,
    /// Sum of the urgency scores of the day's tasks, in tenths.
    pub urgency_sum: u128,
}

/// Sum of the urgency scores of the tasks of `s` that belong to `day`.
pub open spec fn day_urgency_total(s: Seq<Task>, day: int, now: int) -> int
    decreases s.len(),
{
    if s.len() == 0 {
        0
    } else {
        day_urgency_total(s.drop_last(), day, now) + if on_day(s.last(), day) {
            urgency_tenths(s.last(), now)
        } else {
            0
        }
    }
}

proof fn lemma_day_urgency_bound(s: Seq<Task>, day: int, now: int)
    requires
        scorable(s),
    ensures
        0 <= day_urgency_total(s, day, now) <= s.len() * 10_000_000_240,
    decreases s.len(),
{
    if s.len() > 0 {
        assert(scorable(s.drop_last()));
        lemma_day_urgency_bound(s.drop_last(), day, now);
        assert(s.last() == s[s.len() - 1]);
        lemma_urgency_bound(s.last(), now);
    }
}

/// The per-day counts over the whole snapshot, overdue and urgency taken at `now`.
pub fn day_stats(day: i64, tasks: &Vec<Task>, now: i64) -> (r: DayStats)
    requires
        scorable(tasks@),
    ensures
        r.overdue == count_where(
            tasks@,
            |t: Task| on_day(t, day as int) && task_is_overdue(t, now as int),
        ),
        r.urgency_sum == day_urgency_total(tasks@, day as int, now as int),
        r.total == count_where(tasks@, |t: Task| on_day(t, day as int)),
        r.pending == count_where(
            tasks@,
            |t: Task| on_day(t, day as int) && t.status == TaskStatus::Pending,
        ),
        r.completed == count_where(
            tasks@,
            |t: Task| on_day(t, day as int) && t.status == TaskStatus::Completed,
        ),
        r.deleted == count_where(
            tasks@,
            |t: Task| on_day(t, day as int) && t.status == TaskStatus::Deleted,
        ),
        r.due == count_where(tasks@, |t: Task| due_on(t, day as int)),
        r.completed_today == count_where(tasks@, |t: Task| completed_on(t, day as int)),
        r.created == count_where(tasks@, |t: Task| created_on(t, day as int)),
{
    let ghost f_all = |t: Task| on_day(t, day as int);
    let ghost f_p = |t: Task| on_day(t, day as int) && t.status == TaskStatus::Pending;
    let ghost f_c = |t: Task| on_day(t, day as int) && t.status == TaskStatus::Completed;
    let ghost f_d = |t: Task| on_day(t, day as int) && t.status == TaskStatus::Deleted;
    let ghost g_due = |t: Task| due_on(t, day as int);
    let ghost g_done = |t: Task| completed_on(t, day as int);
    let ghost g_new = |t: Task| created_on(t, day as int);
    let ghost f_o = |t: Task| on_day(t, day as int) && task_is_overdue(t, now as int);
    assert(forall|t: Task| #[trigger] f_o(t) == (on_day(t, day as int) && task_is_overdue(t, now as int)));
    assert(forall|t: Task| #[trigger] f_all(t) == on_day(t, day as int));
    assert(forall|t: Task| #[trigger] f_p(t) == (on_day(t, day as int) && t.status == TaskStatus::Pending));
    assert(forall|t: Task| #[trigger] f_c(t) == (on_day(t, day as int) && t.status == TaskStatus::Completed));
    assert(forall|t: Task| #[trigger] f_d(t) == (on_day(t, day as int) && t.status == TaskStatus::Deleted));
    assert(forall|t: Task| #[trigger] g_due(t) == due_on(t, day as int));
    assert(forall|t: Task| #[trigger] g_done(t) == completed_on(t, day as int));
    assert(forall|t: Task| #[trigger] g_new(t) == created_on(t, day as int));
    let mut r = DayStats {
        total: 0,
        pending: 0,
        completed: 0,
        deleted: 0,
        due: 0,
        completed_today: 0,
        created: 0,
        overdue: 0,
        urgency_sum: 0,
    };
    let mut i: usize = 0;
    while i < tasks.len()
        invariant
            i <= tasks@.len(),
            forall|t: Task| #[trigger] f_all(t) == on_day(t, day as int),
            forall|t: Task| #[trigger] f_p(t) == (on_day(t, day as int) && t.status == TaskStatus::Pending),
            forall|t: Task| #[trigger] f_c(t) == (on_day(t, day as int) && t.status == TaskStatus::Completed),
            forall|t: Task| #[trigger] f_d(t) == (on_day(t, day as int) && t.status == TaskStatus::Deleted),
            forall|t: Task| #[trigger] g_due(t) == due_on(t, day as int),
            forall|t: Task| #[trigger] g_done(t) == completed_on(t, day as int),
            forall|t: Task| #[trigger] g_new(t) == created_on(t, day as int),
            forall|t: Task| #[trigger] f_o(t) == (on_day(t, day as int) && task_is_overdue(t, now as int)),
            scorable(tasks@),
            r.overdue <= i,
            r.overdue == count_where(tasks@.subrange(0, i as int), f_o),
            r.urgency_sum == day_urgency_total(tasks@.subrange(0, i as int), day as int, now as int),
            r.total <= i && r.pending <= i && r.completed <= i && r.deleted <= i,
            r.due <= i && r.completed_today <= i && r.created <= i,
            r.total == count_where(tasks@.subrange(0, i as int), f_all),
            r.pending == count_where(tasks@.subrange(0, i as int), f_p),
            r.completed == count_where(tasks@.subrange(0, i as int), f_c),
            r.deleted == count_where(tasks@.subrange(0, i as int), f_d),
            r.due == count_where(tasks@.subrange(0, i as int), g_due),
            r.completed_today == count_where(tasks@.subrange(0, i as int), g_done),
            r.created == count_where(tasks@.subrange(0, i as int), g_new),
        decreases tasks@.len() - i,
    {
        let ghost before = tasks@.subrange(0, i as int);
        let ghost after = tasks@.subrange(0, i as int + 1);
        assert(after.drop_last() =~= before);
        assert(after.last() == tasks@[i as int]);
        let t = &tasks[i];
        let due = is_due_on(t, day);
        let done = is_completed_on(t, day);
        let new = is_created_on(t, day);
        assert(*t == tasks@[i as int]);
        proof {
            assert(scorable(after));
            lemma_day_urgency_bound(after, day as int, now as int);
            assert(after.len() * 10_000_000_240 <= 18446744073709551615int * 10_000_000_240)
                by (nonlinear_arith)
                requires
                    after.len() <= 18446744073709551615int,
            ;
        }
        if due {
            r.due = r.due + 1;
        }
        if done {
            r.completed_today = r.completed_today + 1;
        }
        if new {
            r.created = r.created + 1;
        }
        if due || done || new {
            r.total = r.total + 1;
            if t.is_overdue(now) {
                r.overdue = r.overdue + 1;
            }
            let score = calculate_urgency(t, now);
            assert(on_day(tasks@[i as int], day as int));
            assert(day_urgency_total(after, day as int, now as int) == r.urgency_sum + score);
            r.urgency_sum = r.urgency_sum + score as u128;
            if t.status == TaskStatus::Pending {
                r.pending = r.pending + 1;
            } else if t.status == TaskStatus::Completed {
                r.completed = r.completed + 1;
            } else if t.status == TaskStatus::Deleted {
                r.deleted = r.deleted + 1;
            }
        }
        i = i + 1;
    }
    assert(tasks@.subrange(0, tasks@.len() as int) =~= tasks@);
    r
}

/// The calendar panel: a selected day and the snapshot it looks into.
pub struct CalendarWidget {
    pub selected_day: i64,
    pub tasks: Vec<Task>,
}

impl CalendarWidget {
    pub fn new(selected_day: i64, tasks: Vec<Task>) -> (r: CalendarWidget)
        ensures
            r.selected_day == selected_day,
            r.tasks@ == tasks@,
    {
        CalendarWidget { selected_day, tasks }
    }

    /// The tasks that belong to `day`.
    pub fn get_tasks_for_date(&self, day: i64) -> (r: Vec<&Task>)
        ensures
            derefs(r@) == tasks_on(self.tasks@, day as int),
    {
        tasks_on_day(day, &self.tasks)
    }

    /// The counts for the selected day, overdue and urgency taken at `now`.
    pub fn daily_stats(&self, now: i64) -> (r: DayStats)
        requires
            scorable(self.tasks@),
        ensures
            r.overdue == count_where(
                self.tasks@,
                |t: Task| on_day(t, self.selected_day as int) && task_is_overdue(t, now as int),
            ),
            r.urgency_sum == day_urgency_total(self.tasks@, self.selected_day as int, now as int),
            r.total == count_where(self.tasks@, |t: Task| on_day(t, self.selected_day as int)),
            r.due == count_where(self.tasks@, |t: Task| due_on(t, self.selected_day as int)),
            r.completed_today == count_where(
                self.tasks@,
                |t: Task| completed_on(t, self.selected_day as int),
            ),
            r.created == count_where(
                self.tasks@,
                |t: Task| created_on(t, self.selected_day as int),
            ),
    {
        day_stats(self.selected_day, &self.tasks, now)
    }
}

/// Whole days since a completed task's end, rounded toward zero.
pub open spec fn completed_days_ago(t: Task, now: int) -> Option<int> {
    if t.status == TaskStatus::Completed && t.end is Some {
        let e = now - t.end->0;
        Some(if e >= 0 {
            e / 86400
        } else {
            -((-e) / 86400)
        })
    } else {
        None
    }
}

pub open spec fn completed_ago(d: int, now: int) -> spec_fn(Task) -> bool {
    |t: Task| completed_days_ago(t, now) == Some(d)
}

/// Completions over the last 30 days, oldest day first: entry `k` counts the
/// tasks completed `29 - k` whole days ago.
pub fn daily_completions(tasks: &Vec<Task>, now: i64) -> (r: Vec<usize>)
    ensures
        r@.len() == 30,
        forall|k: int| 0 <= k < 30 ==> #[trigger] r@[k] == count_where(tasks@, completed_ago(29 - k, now as int)),
{
    let mut counts: Vec<usize> = Vec::new();
    let mut k: usize = 0;
    while k < 30
        invariant
            k <= 30,
            counts@.len() == k,
            forall|j: int| 0 <= j < k ==> counts@[j] == 0,
        decreases 30 - k,
    {
        counts.push(0);
        k = k + 1;
    }
    let mut i: usize = 0;
    while i < tasks.len()
        invariant
            i <= tasks@.len(),
            counts@.len() == 30,
            forall|j: int| 0 <= j < 30 ==> #[trigger] counts@[j] == count_where(
                tasks@.subrange(0, i as int),
                completed_ago(29 - j, now as int),
            ),
        decreases tasks@.len() - i,
    {
        let t = &tasks[i];
        let ghost c0 = counts@;
        let mut slot: Option<usize> = None;
        if t.status == TaskStatus::Completed {
            if let Some(end) = t.end {
                let e: i128 = (now as i128) - (end as i128);
                let ago: i128 = if e >= 0 {
                    e / 86400
                } else {
                    -((-e) / 86400)
                };
                if ago >= 0 && ago < 30 {
                    slot = Some((29 - ago) as usize);
                }
            }
        }
        proof {
            assert(*t == tasks@[i as int]);
            assert forall|j: int| 0 <= j < 30 implies c0[j] <= i by {
                lemma_count_le(tasks@.subrange(0, i as int), completed_ago(29 - j, now as int));
            }
        }
        if let Some(idx) = slot {
            let v = counts[idx];
            counts.set(idx, v + 1);
        }
        proof {
            assert forall|j: int| 0 <= j < 30 implies #[trigger] counts@[j] == count_where(
                tasks@.subrange(0, i as int + 1),
                completed_ago(29 - j, now as int),
            ) by {
                lemma_count_step(tasks@, i as int, completed_ago(29 - j, now as int));
            }
        }
        i = i + 1;
    }
    assert(tasks@.subrange(0, tasks@.len() as int) =~= tasks@);
    counts
}

/// The marker a calendar day gets from the tasks on it.
#[derive(Debug, Clone, Copy, PartialEq, Eq, Structural)]
pub enum DayMark {
    Empty,
    Overdue,
    AllCompleted,
    HasPending,
    Other,
}

pub open spec fn mark_of(on: Seq<Task>, now: int) -> DayMark {
    if on.len() == 0 {
        DayMark::Empty
    } else if exists|i: int| 0 <= i < on.len() && task_is_overdue(#[trigger] on[i], now) {
        DayMark::Overdue
    } else if forall|i: int| 0 <= i < on.len() ==> (#[trigger] on[i]).status == TaskStatus::Completed {
        DayMark::AllCompleted
    } else if exists|i: int| 0 <= i < on.len() && (#[trigger] on[i]).status == TaskStatus::Pending {
        DayMark::HasPending
    } else {
        DayMark::Other
    }
}

/// The marker for a day, given the tasks on it: any overdue task wins, then
/// all completed, then any pending.
pub fn day_mark(on: &Vec<&Task>, now: i64) -> (r: DayMark)
    ensures
        r == mark_of(derefs(on@), now as int),
{
    let ghost s = derefs(on@);
    if on.len() == 0 {
        return DayMark::Empty;
    }
    let mut overdue = false;
    let mut all_done = true;
    let mut pending = false;
    let mut i: usize = 0;
    while i < on.len()
        invariant
            s == derefs(on@),
            s.len() == on@.len(),
            i <= on@.len(),
            overdue == exists|k: int| 0 <= k < i && task_is_overdue(#[trigger] s[k], now as int),
            all_done == forall|k: int| 0 <= k < i ==> (#[trigger] s[k]).status == TaskStatus::Completed,
            pending == exists|k: int| 0 <= k < i && (#[trigger] s[k]).status == TaskStatus::Pending,
        decreases on@.len() - i,
    {
        let t: &Task = on[i];
        assert(*t == s[i as int]);
        if t.is_overdue(now) {
            overdue = true;
        }
        if t.status != TaskStatus::Completed {
            all_done = false;
        }
        if t.status == TaskStatus::Pending {
            pending = true;
        }
        i = i + 1;
    }
    if overdue {
        DayMark::Overdue
    } else if all_done {
        DayMark::AllCompleted
    } else if pending {
        DayMark::HasPending
    } else {
        DayMark::Other
    }
}

/// Day of the week of a day number, Monday being 0 (1970-01-01 was a Thursday).
pub open spec fn weekday_of(day: int) -> int {
    (day + 3) % 7
}

pub fn weekday_from_monday(day: i64) -> (r: u32)
    ensures
        r as int == weekday_of(day as int),
        r < 7,
{
    let x: i128 = (day as i128) + 3;
    let m: i128 = x % 7;
    let r: i128 = if m < 0 {
        m + 7
    } else {
        m
    };
    proof {
        let xi = x as int;
        if xi >= 0 {
            assert(r as int == xi % 7);
        } else {
            let q = (-xi) / 7;
            let rem = (-xi) % 7;
            assert(-xi == 7 * q + rem && 0 <= rem < 7) by (nonlinear_arith)
                requires
                    -xi >= 0,
                    q == (-xi) / 7,
                    rem == (-xi) % 7,
            ;
            if rem == 0 {
                assert(xi == 7 * (-q));
                vstd::arithmetic::div_mod::lemma_mod_multiples_basic(-q, 7);
            } else {
                assert(xi == 7 * (-q - 1) + (7 - rem));
                vstd::arithmetic::div_mod::lemma_mod_multiples_vanish(-q - 1, 7 - rem, 7);
                vstd::arithmetic::div_mod::lemma_small_mod((7 - rem) as nat, 7);
            }
        }
    }
    r as u32
}

/// The cells of a month page, week rows of seven from Monday: 0 for a blank,
/// else the day of the month.
pub open spec fn month_cells_of(first_weekday: int, days: int) -> Seq<u32> {
    let rows = (first_weekday + days + 6) / 7;
    Seq::new(
        (rows * 7) as nat,
        |k: int|
            if first_weekday <= k < first_weekday + days {
                (k - first_weekday + 1) as u32
            } else {
                0u32
            },
    )
}

/// Lays out a month whose first day falls on `first_weekday` (Monday 0) and
/// which has `days` days.
pub fn month_cells(first_weekday: u32, days: u32) -> (r: Vec<u32>)
    requires
        first_weekday < 7,
        days <= 31,
    ensures
        r@ == month_cells_of(first_weekday as int, days as int),
{
    let rows: u32 = (first_weekday + days + 6) / 7;
    let total: u32 = rows * 7;
    let mut r: Vec<u32> = Vec::new();
    let mut k: u32 = 0;
    while k < total
        invariant
            first_weekday < 7,
            days <= 31,
            rows == (first_weekday + days + 6) / 7,
            total == rows * 7,
            k <= total,
            r@.len() == k,
            forall|j: int| 0 <= j < k ==> #[trigger] r@[j] == month_cells_of(first_weekday as int, days as int)[j],
        decreases total - k,
    {
        let cell: u32 = if first_weekday <= k && k < first_weekday + days {
            k - first_weekday + 1
        } else {
            0
        };
        r.push(cell);
        k = k + 1;
    }
    assert(r@ =~= month_cells_of(first_weekday as int, days as int));
    r
}

/// The page of month `m` of year `y`; `None` when the month is out of the
/// calendar's range.
pub fn month_layout(y: i32, m: u32) -> (r: Option<Vec<u32>>)
    requires
        1 <= m <= 12,
    ensures
        (MIN_YEAR <= y <= MAX_YEAR) == r is Some,
        r is Some ==> r->0@ == month_cells_of(
            weekday_of(epoch_day_of(y as int, m as int, 1)),
            days_in_month(y as int, m as int),
        ),
{
    match day_from_civil(y, m, 1) {
        Some(first) => {
            let w = weekday_from_monday(first as i64);
            Some(month_cells(w, month_length(y, m)))
        },
        None => None,
    }
}

/// The month after (`forward`) or before a given one, as (year, month).
pub fn adjacent_month(y: i32, m: u32, forward: bool) -> (r: (i32, u32))
    requires
        1 <= m <= 12,
        MIN_YEAR <= y <= MAX_YEAR,
    ensures
        (r.0 as int, r.1 as int) == (month_shift(y as int, m as int, 1, forward).0, month_shift(
            y as int,
            m as int,
            1,
            forward,
        ).1),
{
    let (ny, nm, _) = shift_month(y, m, 1, forward);
    (ny, nm)
}

pub open spec fn month_name_of(m: int) -> Seq<char> {
    if m == 1 {
        "January"@
    } else if m == 2 {
        "February"@
    } else if m == 3 {
        "March"@
    } else if m == 4 {
        "April"@
    } else if m == 5 {
        "May"@
    } else if m == 6 {
        "June"@
    } else if m == 7 {
        "July"@
    } else if m == 8 {
        "August"@
    } else if m == 9 {
        "September"@
    } else if m == 10 {
        "October"@
    } else if m == 11 {
        "November"@
    } else if m == 12 {
        "December"@
    } else {
        "Unknown"@
    }
}

pub fn month_name(m: u32) -> (r: &'static str)
    ensures
        r@ == month_name_of(m as int),
{
    if m == 1 {
        "January"
    } else if m == 2 {
        "February"
    } else if m == 3 {
        "March"
    } else if m == 4 {
        "April"
    } else if m == 5 {
        "May"
    } else if m == 6 {
        "June"
    } else if m == 7 {
        "July"
    } else if m == 8 {
        "August"
    } else if m == 9 {
        "September"
    } else if m == 10 {
        "October"
    } else if m == 11 {
        "November"
    } else if m == 12 {
        "December"
    } else {
        "Unknown"
    }
}

} // verus!
