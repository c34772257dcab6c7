use vstd::prelude::*;
use crate::model::{Task, TaskStatus, Priority};
use crate::activity::{decimal, decimal_text, digit_char};
use crate::calendar::{day_of, day_number, civil_from_day, civil_date_of, MAX_DAY};
use crate::text::push_char;

verus! {

/// How a row of the task table is emphasised, most pressing first.
#[derive(Debug, Clone, Copy, PartialEq, Eq, Structural)]
pub enum RowStyle {
    /// Overdue, due today, or high priority and due within two days.
    Critical,
    /// Due tomorrow.
    DueSoon,
    HighPriority,
    MediumPriority,
    Completed,
    LowPriority,
    Normal,
}

/// Whole calendar days from `today` to the due day, if there is a due instant.
pub open spec fn days_until(due: Option<i64>, today: int) -> Option<int> {
    match due {
        Some(d) => Some(day_of(d as int) - today),
        None => None,
    }
}

pub open spec fn due_within(due: Option<i64>, days: int, today: int) -> bool {
    match days_until(due, today) {
        Some(n) => 0 <= n <= days,
        None => false,
    }
}

pub open spec fn due_in_exactly(due: Option<i64>, days: int, today: int) -> bool {
    days_until(due, today) == Some(days)
}

pub open spec fn due_passed(due: Option<i64>, today: int) -> bool {
    match days_until(due, today) {
        Some(n) => n < 0,
        None => false,
    }
}

pub open spec fn row_style(t: Task, today: int) -> RowStyle {
    let high = t.priority == Some(Priority::High);
    if due_passed(t.due, today) || due_in_exactly(t.due, 0, today) || (high && due_within(
        t.due,
        2,
        today,
    )) {
        RowStyle::Critical
    } else if due_in_exactly(t.due, 1, today) {
        RowStyle::DueSoon
    } else if high {
        RowStyle::HighPriority
    } else if t.priority == Some(Priority::Medium) {
        RowStyle::MediumPriority
    } else if t.status == TaskStatus::Completed {
        RowStyle::Completed
    } else if t.priority == Some(Priority::Low) {
        RowStyle::LowPriority
    } else {
        RowStyle::Normal
    }
}

/// `s` cut to `keep` characters plus "..." when longer than `limit`.
pub open spec fn clipped(s: Seq<char>, limit: int, keep: int) -> Seq<char> {
    if s.len() > limit {
        s.subrange(0, keep) + "..."@
    } else {
        s
    }
}

/// The strings of `v` joined by `sep`.
pub open spec fn joined(v: Seq<String>, sep: Seq<char>) -> Seq<char>
    decreases v.len(),
{
    if v.len() == 0 {
        Seq::empty()
    } else if v.len() == 1 {
        v[0]@
    } else {
        joined(v.drop_last(), sep) + sep + v.last()@
    }
}

pub open spec fn two_digits(n: int) -> Seq<char> {
    seq![digit_char(n / 10), digit_char(n % 10)]
}

/// A span in the largest fitting unit: minutes (at least 1, written with
/// `minute_unit`), hours, days, weeks (under ten), months of 30 days, years of
/// 365 days.
pub open spec fn span_cell(elapsed: int, minute_unit: Seq<char>) -> Seq<char> {
    let minutes = if elapsed < 0 {
        0
    } else {
        elapsed / 60
    };
    let hours = elapsed / 3600;
    let days = elapsed / 86400;
    if minutes < 60 {
        decimal(if minutes < 1 {
            1
        } else {
            minutes
        }) + minute_unit
    } else if hours < 24 {
        decimal(hours) + "h"@
    } else if days < 30 {
        decimal(days) + "d"@
    } else if days < 365 {
        if days / 7 < 10 {
            decimal(days / 7) + "w"@
        } else {
            decimal(days / 30) + "mo"@
        }
    } else {
        decimal(days / 365) + "y"@
    }
}

fn clip(s: &str, limit: usize, keep: usize) -> (r: String)
    requires
        keep <= limit,
    ensures
        r@ == clipped(s@, limit as int, keep as int),
{
    if s.unicode_len() > limit {
        String::from_str(s.substring_char(0, keep)).concat("...")
    } else {
        String::from_str(s)
    }
}

/// Formats the cells of the task table.
pub struct TaskTableFormatter;

impl TaskTableFormatter {
    pub fn new() -> (r: TaskTableFormatter) {
        TaskTableFormatter
    }

    /// Column titles, left to right.
    pub fn headers(&self) -> (r: Vec<&'static str>)
        ensures
            r@.len() == 5,
            r@[0]@ == "ID"@,
            r@[1]@ == "Project"@,
            r@[2]@ == "Priority"@,
            r@[3]@ == "Due"@,
            r@[4]@ == "Description"@,
    {
        let mut r: Vec<&'static str> = Vec::new();
        r.push("ID");
        r.push("Project");
        r.push("Priority");
        r.push("Due");
        r.push("Description");
        r
    }

    pub fn format_id(&self, id: Option<u32>) -> (r: String)
        ensures
            r@ == match id {
                Some(i) => decimal(i as int),
                None => Seq::<char>::empty(),
            },
    {
        match id {
            Some(i) => decimal_text(i as i128),
            None => String::new(),
        }
    }

    pub fn format_status(&self, status: &TaskStatus) -> (r: String)
        ensures
            r@ == match status {
                TaskStatus::Pending => "P"@,
                TaskStatus::Completed => "C"@,
                TaskStatus::Deleted => "D"@,
                TaskStatus::Waiting => "W"@,
                TaskStatus::Recurring => "R"@,
            },
    {
        match status {
            TaskStatus::Pending => String::from_str("P"),
            TaskStatus::Completed => String::from_str("C"),
            TaskStatus::Deleted => String::from_str("D"),
            TaskStatus::Waiting => String::from_str("W"),
            TaskStatus::Recurring => String::from_str("R"),
        }
    }

    pub fn format_priority(&self, priority: &Option<Priority>) -> (r: String)
        ensures
            r@ == match priority {
                Some(Priority::High) => "H"@,
                Some(Priority::Medium) => "M"@,
                Some(Priority::Low) => "L"@,
                None => " "@,
            },
    {
        match priority {
            Some(p) => String::from_str(p.as_str()),
            None => String::from_str(" "),
        }
    }

    pub fn format_priority_full(&self, priority: &Option<Priority>) -> (r: String)
        ensures
            r@ == match priority {
                Some(Priority::High) => "High"@,
                Some(Priority::Medium) => "Medium"@,
                Some(Priority::Low) => "Low"@,
                None => Seq::<char>::empty(),
            },
    {
        match priority {
            Some(Priority::High) => String::from_str("High"),
            Some(Priority::Medium) => String::from_str("Medium"),
            Some(Priority::Low) => String::from_str("Low"),
            None => String::new(),
        }
    }

    /// A project name, cut to 11 characters and "..." when over 14.
    pub fn format_project(&self, project: &Option<String>) -> (r: String)
        ensures
            r@ == match project {
                Some(p) => clipped(p@, 14, 11),
                None => Seq::<char>::empty(),
            },
    {
        match project {
            Some(p) => clip(p.as_str(), 14, 11),
            None => String::new(),
        }
    }

    /// Tags joined by commas, cut to 4 characters and "..." when over 7.
    pub fn format_tags(&self, tags: &Vec<String>) -> (r: String)
        ensures
            r@ == clipped(joined(tags@, ","@), 7, 4),
    {
        let mut all = String::new();
        let mut i: usize = 0;
        while i < tags.len()
            invariant
                i <= tags@.len(),
                all@ == joined(tags@.subrange(0, i as int), ","@),
            decreases tags@.len() - i,
        {
            let ghost before = tags@.subrange(0, i as int);
            let ghost after = tags@.subrange(0, i as int + 1);
            assert(after.drop_last() =~= before);
            assert(after.last() == tags@[i as int]);
            if i > 0 {
                all.append(",");
            }
            all.append(tags[i].as_str());
            proof {
                if i == 0 {
                    assert(all@ =~= after[0]@);
                }
            }
            i = i + 1;
        }
        assert(tags@.subrange(0, tags@.len() as int) =~= tags@);
        clip(all.as_str(), 7, 4)
    }

    /// A description, cut to 42 characters and "..." when over 45.
    pub fn format_description(&self, description: &str) -> (r: String)
        ensures
            r@ == clipped(description@, 45, 42),
    {
        clip(description, 45, 42)
    }

    /// How long ago a task was created, `elapsed` seconds before now.
    pub fn format_age(&self, elapsed: i64) -> (r: String)
        ensures
            r@ == span_cell(elapsed as int, "m"@),
    {
        span_text(elapsed, "m")
    }
}

/// A span of `elapsed` seconds in the largest fitting unit.
pub fn span_text(elapsed: i64, minute_unit: &str) -> (r: String)
    ensures
        r@ == span_cell(elapsed as int, minute_unit@),
{
    {
        let minutes: i64 = if elapsed < 0 {
            0
        } else {
            elapsed / 60
        };
        let hours = elapsed / 3600;
        let days = elapsed / 86400;
        if minutes < 60 {
            let shown: i64 = if minutes < 1 {
                1
            } else {
                minutes
            };
            decimal_text(shown as i128).concat(minute_unit)
        } else if hours < 24 {
            decimal_text(hours as i128).concat("h")
        } else if days < 30 {
            decimal_text(days as i128).concat("d")
        } else if days < 365 {
            if days / 7 < 10 {
                decimal_text((days / 7) as i128).concat("w")
            } else {
                decimal_text((days / 30) as i128).concat("mo")
            }
        } else {
            decimal_text((days / 365) as i128).concat("y")
        }
    }
}

impl TaskTableFormatter {
    /// Due-day distance: "Nd" within a week (negative when past), otherwise
    /// the due day as "MM/DD".
    pub fn format_due(&self, due: Option<i64>, today: i64) -> (r: String)
        requires
            -MAX_DAY <= today <= MAX_DAY,
        ensures
            match days_until(due, today as int) {
                None => r@.len() == 0,
                Some(n) => if n <= 7 {
                    r@ == decimal(n) + "d"@
                } else {
                    let (y, m, d) = civil_date_of(day_of(due->0 as int));
                    r@ == two_digits(m) + "/"@ + two_digits(d) || r@.len() == 0
                },
            },
    {
        match due {
            None => String::new(),
            Some(d) => {
                let day = day_number(d);
                let n: i128 = (day as i128) - (today as i128);
                if n <= 7 {
                    decimal_text(n).concat("d")
                } else if day > MAX_DAY {
                    String::new()
                } else {
                    match civil_from_day(day as i32) {
                        Some((_, m, dd)) => {
                            let mut s = String::new();
                            push_char(&mut s, crate::table::digit_at(m / 10));
                            push_char(&mut s, crate::table::digit_at(m % 10));
                            push_char(&mut s, '/');
                            push_char(&mut s, crate::table::digit_at(dd / 10));
                            push_char(&mut s, crate::table::digit_at(dd % 10));
                            proof {
                                reveal_strlit("/");
                            }
                            assert(s@ =~= two_digits(m as int) + "/"@ + two_digits(dd as int));
                            s
                        },
                        None => String::new(),
                    }
                }
            },
        }
    }

    pub fn is_due_within_days(&self, due: Option<i64>, days: i64, today: i64) -> (r: bool)
        ensures
            r == due_within(due, days as int, today as int),
    {
        match due {
            Some(d) => {
                let n: i128 = (day_number(d) as i128) - (today as i128);
                n >= 0 && n <= days as i128
            },
            None => false,
        }
    }

    pub fn is_due_today(&self, due: Option<i64>, today: i64) -> (r: bool)
        ensures
            r == due_in_exactly(due, 0, today as int),
    {
        match due {
            Some(d) => day_number(d) == today,
            None => false,
        }
    }

    pub fn is_due_tomorrow(&self, due: Option<i64>, today: i64) -> (r: bool)
        ensures
            r == due_in_exactly(due, 1, today as int),
    {
        match due {
            Some(d) => (day_number(d) as i128) - (today as i128) == 1,
            None => false,
        }
    }

    pub fn is_overdue(&self, due: Option<i64>, today: i64) -> (r: bool)
        ensures
            r == due_passed(due, today as int),
    {
        match due {
            Some(d) => day_number(d) < today,
            None => false,
        }
    }

    /// How the row of `task` is emphasised, `today` being the current day number.
    pub fn get_row_style(&self, task: &Task, today: i64) -> (r: RowStyle)
        ensures
            r == row_style(*task, today as int),
    {
        let high = task.priority == Some(Priority::High);
        if self.is_overdue(task.due, today) || self.is_due_today(task.due, today) || (high
            && self.is_due_within_days(task.due, 2, today)) {
            RowStyle::Critical
        } else if self.is_due_tomorrow(task.due, today) {
            RowStyle::DueSoon
        } else if high {
            RowStyle::HighPriority
        } else if task.priority == Some(Priority::Medium) {
            RowStyle::MediumPriority
        } else if task.status == TaskStatus::Completed {
            RowStyle::Completed
        } else if task.priority == Some(Priority::Low) {
            RowStyle::LowPriority
        } else {
            RowStyle::Normal
        }
    }
}

fn digit_at(d: u32) -> (c: char)
    requires
        d < 10,
    ensures
        c == digit_char(d as int),
{
    if d == 0 {
        '0'
    } else if d == 1 {
        '1'
    } else if d == 2 {
        '2'
    } else if d == 3 {
        '3'
    } else if d == 4 {
        '4'
    } else if d == 5 {
        '5'
    } else if d == 6 {
        '6'
    } else if d == 7 {
        '7'
    } else if d == 8 {
        '8'
    } else {
        '9'
    }
}

} // verus!
