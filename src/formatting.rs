use vstd::prelude::*;
use chrono::{DateTime, NaiveDate};
use crate::model::Task;
use crate::activity::{decimal, decimal_text, div_toward_zero};
use crate::calendar::{day_of, day_number, MAX_DAY};
use crate::table::joined;

verus! {

/// "N days ago", "Nh ago", "Nm ago" or "Just now" for something `elapsed`
/// seconds in the past (whole units, rounded toward zero).
pub open spec fn relative_date(elapsed: int) -> Seq<char> {
    let days = div_toward_zero(elapsed, 86400);
    let hours = div_toward_zero(elapsed, 3600);
    let minutes = div_toward_zero(elapsed, 60);
    if days > 0 {
        decimal(days) + " days ago"@
    } else if hours > 0 {
        decimal(hours) + "h ago"@
    } else if minutes > 0 {
        decimal(minutes) + "m ago"@
    } else {
        "Just now"@
    }
}

/// How long ago `date` was at `now`, both in seconds since the epoch.
pub fn format_relative_date(date: i64, now: i64) -> (r: String)
    ensures
        r@ == relative_date(now - date),
{
    let e: i128 = (now as i128) - (date as i128);
    let days: i128 = if e >= 0 {
        e / 86400
    } else {
        -((-e) / 86400)
    };
    let hours: i128 = if e >= 0 {
        e / 3600
    } else {
        -((-e) / 3600)
    };
    let minutes: i128 = if e >= 0 {
        e / 60
    } else {
        -((-e) / 60)
    };
    if days > 0 {
        decimal_text(days).concat(" days ago")
    } else if hours > 0 {
        decimal_text(hours).concat("h ago")
    } else if minutes > 0 {
        decimal_text(minutes).concat("m ago")
    } else {
        String::from_str("Just now")
    }
}

/// The day number chrono's `NaiveDate::parse_from_str` reads from text `s` in format `fmt`.
pub uninterp spec fn parsed_day(s: Seq<char>, fmt: Seq<char>) -> Option<int>;

/// The instant chrono reads from an RFC 3339 date-time.
pub uninterp spec fn rfc3339_instant(s: Seq<char>) -> Option<int>;

/// The `%Y-%m-%d` text chrono writes for a day number.
pub uninterp spec fn iso_date_text(day: int) -> Seq<char>;

/// Relies on `NaiveDate::parse_from_str` and `NaiveDate::to_epoch_days`: the
/// day written in `s` in the format `fmt`, if it reads as one.
#[verifier::external_body]
pub(crate) fn day_from_text(s: &str, fmt: &str) -> (r: Option<i64>)
    ensures
        match r {
            Some(d) => parsed_day(s@, fmt@) == Some(d as int),
            None => parsed_day(s@, fmt@) is None,
        },
{
    match NaiveDate::parse_from_str(s, fmt) {
        Ok(d) => Some(d.to_epoch_days() as i64),
        Err(_) => None,
    }
}

/// Relies on `DateTime::parse_from_rfc3339` and `DateTime::timestamp`: the
/// instant written in `s`, if it reads as an RFC 3339 date-time.
#[verifier::external_body]
fn instant_from_rfc3339(s: &str) -> (r: Option<i64>)
    ensures
        match r {
            Some(t) => rfc3339_instant(s@) == Some(t as int),
            None => rfc3339_instant(s@) is None,
        },
{
    match DateTime::parse_from_rfc3339(s) {
        Ok(t) => Some(t.timestamp()),
        Err(_) => None,
    }
}

/// Relies on `NaiveDate::from_epoch_days` and `format("%Y-%m-%d")`: the
/// calendar date of a day number as text.
#[verifier::external_body]
pub(crate) fn date_text(day: i32) -> (r: String)
    requires
        -MAX_DAY <= day <= MAX_DAY,
    ensures
        r@ == iso_date_text(day as int),
{
    match NaiveDate::from_epoch_days(day) {
        Some(d) => d.format("%Y-%m-%d").to_string(),
        None => String::new(),
    }
}

/// A date or date-time the user typed could not be read.
#[derive(Debug, Clone, Copy, PartialEq, Eq, Structural)]
pub enum DateError {
    Unreadable,
}

/// Chooses between the two readings of a typed date: a plain day (midnight
/// UTC) wins over an RFC 3339 instant.
pub fn pick_date(day: Option<i64>, instant: Option<i64>) -> (r: Result<i64, DateError>)
    requires
        day is Some ==> -MAX_DAY <= day->0 <= MAX_DAY,
    ensures
        r == match day {
            Some(d) => Ok::<i64, DateError>((d * 86400) as i64),
            None => match instant {
                Some(t) => Ok(t),
                None => Err(DateError::Unreadable),
            },
        },
{
    match day {
        Some(d) => Ok(d * 86400),
        None => match instant {
            Some(t) => Ok(t),
            None => Err(DateError::Unreadable),
        },
    }
}

/// Reads a typed date, either `YYYY-MM-DD` (midnight UTC) or RFC 3339.
pub fn parse_date(date_str: &str) -> (r: Result<i64, DateError>)
    ensures
        match parsed_day(date_str@, "%Y-%m-%d"@) {
            Some(d) => -MAX_DAY <= d <= MAX_DAY ==> r == Ok::<i64, DateError>((d * 86400) as i64),
            None => r == match rfc3339_instant(date_str@) {
                Some(t) => Ok::<i64, DateError>(t as i64),
                None => Err(DateError::Unreadable),
            },
        },
{
    let day = day_from_text(date_str, "%Y-%m-%d");
    match day {
        Some(d) => {
            if d < -MAX_DAY || d > MAX_DAY {
                return Err(DateError::Unreadable);
            }
            pick_date(Some(d), None)
        },
        None => pick_date(None, instant_from_rfc3339(date_str)),
    }
}

/// Title line of the CSV export.
pub const CSV_HEADER: &'static str = "ID,UUID,Status,Description,Project,Priority,Due,Tags";

/// One CSV line of the export: id, uuid, status, description, project,
/// priority code, due date, tags joined by ';'.
pub open spec fn csv_line(t: Task) -> Seq<char> {
    (match t.id {
        Some(i) => decimal(i as int),
        None => Seq::empty(),
    }) + ","@ + t.uuid@ + ","@ + status_text(t) + ","@ + t.description@ + ","@ + (match t.project {
        Some(p) => p@,
        None => Seq::empty(),
    }) + ","@ + (match t.priority {
        Some(p) => priority_text(p),
        None => Seq::empty(),
    }) + ","@ + (match t.due {
        Some(d) => iso_date_text(day_of(d as int)),
        None => Seq::empty(),
    }) + ","@ + joined(t.tags@, ";"@)
}

pub open spec fn status_text(t: Task) -> Seq<char> {
    match t.status {
        crate::model::TaskStatus::Pending => "pending"@,
        crate::model::TaskStatus::Completed => "completed"@,
        crate::model::TaskStatus::Deleted => "deleted"@,
        crate::model::TaskStatus::Waiting => "waiting"@,
        crate::model::TaskStatus::Recurring => "recurring"@,
    }
}

pub open spec fn priority_text(p: crate::model::Priority) -> Seq<char> {
    match p {
        crate::model::Priority::High => "H"@,
        crate::model::Priority::Medium => "M"@,
        crate::model::Priority::Low => "L"@,
    }
}

/// The CSV line of one task; a due date out of calendar range is left empty.
pub fn csv_row(task: &Task) -> (r: String)
    ensures
        task.due is None || -MAX_DAY <= day_of(task.due->0 as int) <= MAX_DAY ==> r@ == csv_line(*task),
{
    let mut line = match task.id {
        Some(i) => decimal_text(i as i128),
        None => String::new(),
    };
    line.append(",");
    line.append(task.uuid.as_str());
    line.append(",");
    line.append(task.status.as_str());
    line.append(",");
    line.append(task.description.as_str());
    line.append(",");
    if let Some(p) = &task.project {
        line.append(p.as_str());
    }
    line.append(",");
    if let Some(p) = task.priority {
        line.append(p.as_str());
    }
    line.append(",");
    if let Some(d) = task.due {
        let day = day_number(d);
        if -MAX_DAY <= day && day <= MAX_DAY {
            let text = date_text(day as i32);
            line.append(text.as_str());
        }
    }
    line.append(",");
    let mut i: usize = 0;
    let ghost head = line@;
    while i < task.tags.len()
        invariant
            i <= task.tags@.len(),
            line@ == head + joined(task.tags@.subrange(0, i as int), ";"@),
        decreases task.tags@.len() - i,
    {
        let ghost before = task.tags@.subrange(0, i as int);
        let ghost after = task.tags@.subrange(0, i as int + 1);
        assert(after.drop_last() =~= before);
        assert(after.last() == task.tags@[i as int]);
        if i > 0 {
            line.append(";");
        }
        line.append(task.tags[i].as_str());
        proof {
            if i == 0 {
                assert(line@ =~= head + after[0]@);
            } else {
                assert(line@ =~= head + (joined(before, ";"@) + ";"@ + after.last()@));
            }
        }
        i = i + 1;
    }
    assert(task.tags@.subrange(0, task.tags@.len() as int) =~= task.tags@);
    proof {
        reveal_strlit("");
    }
    line
}

pub open spec fn pair_views(v: Seq<(String, String)>) -> Seq<(Seq<char>, Seq<char>)> {
    v.map_values(|p: (String, String)| (p.0@, p.1@))
}

pub open spec fn tag_attributes(tags: Seq<String>) -> Seq<(Seq<char>, Seq<char>)> {
    tags.map_values(|t: String| ("+"@ + t@, Seq::<char>::empty()))
}

/// The attributes the task store's `modify` command gets for a task: every
/// field is sent, empty to clear it; tags are first cleared, then added one by
/// one as `+tag`.
pub open spec fn attributes_of(t: Task) -> Seq<(Seq<char>, Seq<char>)> {
    seq![
        ("description"@, t.description@),
        ("project"@, match t.project {
            Some(p) => p@,
            None => Seq::empty(),
        }),
        ("priority"@, match t.priority {
            Some(p) => priority_text(p),
            None => Seq::empty(),
        }),
        ("tags"@, Seq::<char>::empty()),
    ] + tag_attributes(t.tags@) + seq![
        ("due"@, match t.due {
            Some(d) => iso_date_text(day_of(d as int)),
            None => Seq::empty(),
        }),
    ]
}

/// The attributes for a task; a due date out of calendar range is sent empty.
pub fn task_to_attributes(task: &Task) -> (r: Vec<(String, String)>)
    ensures
        task.due is None || -MAX_DAY <= day_of(task.due->0 as int) <= MAX_DAY ==> pair_views(r@)
            == attributes_of(*task),
{
    let mut r: Vec<(String, String)> = Vec::new();
    r.push((String::from_str("description"), task.description.clone()));
    let project = match &task.project {
        Some(p) => p.clone(),
        None => String::new(),
    };
    r.push((String::from_str("project"), project));
    let priority = match task.priority {
        Some(p) => String::from_str(p.as_str()),
        None => String::new(),
    };
    r.push((String::from_str("priority"), priority));
    r.push((String::from_str("tags"), String::new()));
    let ghost head = pair_views(r@);
    assert(head =~= seq![
        ("description"@, task.description@),
        ("project"@, match task.project {
            Some(p) => p@,
            None => Seq::<char>::empty(),
        }),
        ("priority"@, match task.priority {
            Some(p) => priority_text(p),
            None => Seq::<char>::empty(),
        }),
        ("tags"@, Seq::<char>::empty()),
    ]);
    let mut i: usize = 0;
    while i < task.tags.len()
        invariant
            i <= task.tags@.len(),
            r@.len() == 4 + i,
            pair_views(r@) == head + tag_attributes(task.tags@.subrange(0, i as int)),
        decreases task.tags@.len() - i,
    {
        let name = String::from_str("+").concat(task.tags[i].as_str());
        let ghost prev = pair_views(r@);
        r.push((name, String::new()));
        proof {
            assert(pair_views(r@) =~= prev.push(("+"@ + task.tags@[i as int]@, Seq::<char>::empty())));
            assert(tag_attributes(task.tags@.subrange(0, i as int + 1)) =~= tag_attributes(
                task.tags@.subrange(0, i as int),
            ).push(("+"@ + task.tags@[i as int]@, Seq::<char>::empty())));
        }
        i = i + 1;
    }
    assert(task.tags@.subrange(0, task.tags@.len() as int) =~= task.tags@);
    let due = match task.due {
        Some(d) => {
            let day = day_number(d);
            if -MAX_DAY <= day && day <= MAX_DAY {
                date_text(day as i32)
            } else {
                String::new()
            }
        },
        None => String::new(),
    };
    let ghost before_due = pair_views(r@);
    r.push((String::from_str("due"), due));
    proof {
        assert(pair_views(r@) =~= before_due.push(("due"@, due@)));
        if task.due is None || -MAX_DAY <= day_of(task.due->0 as int) <= MAX_DAY {
            assert(pair_views(r@) =~= attributes_of(*task));
        }
    }
    r
}

} // verus!
