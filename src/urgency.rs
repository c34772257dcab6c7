use vstd::prelude::*;
use crate::model::{Task, Priority, task_is_active};

verus! {

/// Seconds in one day.
pub const DAY_SECONDS: i64 = 86400;

/// Most tags a task may carry for its score to fit in a `u64`.
pub const MAX_SCORED_TAGS: usize = 1_000_000_000;

pub open spec fn priority_weight(p: Option<Priority>) -> int {
    match p {
        Some(Priority::High) => 60,
        Some(Priority::Medium) => 39,
        Some(Priority::Low) => 18,
        None => 0,
    }
}

/// Due-date tier: overdue, due within 7 days, within 30 days, otherwise nothing.
pub open spec fn due_weight(due: Option<i64>, now: int) -> int {
    match due {
        Some(d) => if d < now {
            120
        } else if d - now < 7 * DAY_SECONDS {
            50
        } else if d - now < 30 * DAY_SECONDS {
            20
        } else {
            0
        },
        None => 0,
    }
}

/// Urgency of a task at instant `now`, in tenths of a point.
pub open spec fn urgency_tenths(t: Task, now: int) -> int {
    10 + priority_weight(t.priority) + (if t.project.is_some() {
        10int
    } else {
        0int
    }) + (if task_is_active(t) {
        40int
    } else {
        0int
    }) + 10 * t.tags@.len() + due_weight(t.due, now)
}

/// Additive urgency score of a task at instant `now`, in tenths of a point:
/// 1.0 base, 6.0 / 3.9 / 1.8 for high / medium / low priority, 1.0 for a
/// project, 4.0 when active, 1.0 per tag, and 12.0 / 5.0 / 2.0 when the task is
/// overdue / due within 7 days / due within 30 days.
pub fn calculate_urgency(task: &Task, now: i64) -> (r: u64)
    requires
        task.tags@.len() <= MAX_SCORED_TAGS,
    ensures
        r == urgency_tenths(*task, now as int),
{
    let mut u: u64 = 10;
    u = u + match task.priority {
        Some(Priority::High) => 60,
        Some(Priority::Medium) => 39,
        Some(Priority::Low) => 18,
        None => 0,
    };
    if task.project.is_some() {
        u = u + 10;
    }
    if task.is_active() {
        u = u + 40;
    }
    u = u + 10 * (task.tags.len() as u64);
    if let Some(due) = task.due {
        let ahead: i128 = (due as i128) - (now as i128);
        if ahead < 0 {
            u = u + 120;
        } else if ahead < 7 * (DAY_SECONDS as i128) {
            u = u + 50;
        } else if ahead < 30 * (DAY_SECONDS as i128) {
            u = u + 20;
        }
    }
    u
}

} // verus!
