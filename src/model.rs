use vstd::prelude::*;
use crate::text::{lowercase, uppercase, lower_of, upper_of};
use crate::task_list::same_text;
use crate::criteria::{views_of, opt_view};

verus! {

/// Lifecycle state of a task; exactly one holds at a time.
#[derive(Debug, Clone, Copy, PartialEq, Eq, Structural)]
pub enum TaskStatus {
    Pending,
    Completed,
    Deleted,
    Waiting,
    Recurring,
}

/// Explicit priority tier of a task.
#[derive(Debug, Clone, Copy, PartialEq, Eq, Structural)]
pub enum Priority {
    High,
    Medium,
    Low,
}

/// A note attached to a task at a given instant (seconds since the Unix epoch, UTC).
#[derive(Debug, Clone)]
pub struct Annotation {
    pub entry: i64,
    pub description: String,
}

/// One unit of work, as handed over by the external task store.
///
/// Every instant is a count of seconds since 1970-01-01T00:00:00Z.
#[derive(Debug, Clone)]
pub struct Task {
    pub id: Option<u32>,
    pub uuid: String,
    pub status: TaskStatus,
    pub description: String,
    pub project: Option<String>,
    pub priority: Option<Priority>,
    pub due: Option<i64>,
    pub entry: i64,
    pub modified: Option<i64>,
    pub end: Option<i64>,
    pub start: Option<i64>,
    pub wait: Option<i64>,
    pub scheduled: Option<i64>,
    pub until: Option<i64>,
    pub depends: Vec<String>,
    pub tags: Vec<String>,
    pub annotations: Vec<Annotation>,
}

/// Per-project totals as shown in project listings.
#[derive(Debug, Clone)]
pub struct Project {
    pub name: String,
    pub task_count: u32,
    pub completed_count: u32,
    pub pending_count: u32,
}

/// Per-tag usage count.
#[derive(Debug, Clone)]
pub struct Tag {
    pub name: String,
    pub task_count: u32,
}

/// A task is active when it has been started and is still pending.
pub open spec fn task_is_active(t: Task) -> bool {
    t.start.is_some() && t.status == TaskStatus::Pending
}

/// A task is overdue at `now` when it is pending and its due instant lies before `now`.
pub open spec fn task_is_overdue(t: Task, now: int) -> bool {
    t.due.is_some() && t.due.unwrap() < now && t.status == TaskStatus::Pending
}

/// A task is blocked when it depends on at least one other task.
pub open spec fn task_is_blocked(t: Task) -> bool {
    t.depends@.len() > 0
}

/// How many tasks of `s` satisfy `f`.
pub open spec fn count_where(s: Seq<Task>, f: spec_fn(Task) -> bool) -> nat
    decreases s.len(),
{
    if s.len() == 0 {
        0
    } else {
        count_where(s.drop_last(), f) + if f(s.last()) {
            1nat
        } else {
            0nat
        }
    }
}

/// The fields a copy must share with the task it copies.
pub open spec fn same_task(a: Task, b: Task) -> bool {
    &&& a.id == b.id
    &&& a.uuid@ == b.uuid@
    &&& a.status == b.status
    &&& a.description@ == b.description@
    &&& opt_view(a.project) == opt_view(b.project)
    &&& a.priority == b.priority
    &&& a.due == b.due && a.entry == b.entry && a.modified == b.modified && a.end == b.end
    &&& a.start == b.start && a.wait == b.wait && a.scheduled == b.scheduled && a.until == b.until
    &&& views_of(a.depends@) == views_of(b.depends@)
    &&& views_of(a.tags@) == views_of(b.tags@)
    &&& a.annotations@.len() == b.annotations@.len()
    &&& forall|i: int|
        0 <= i < a.annotations@.len() ==> (#[trigger] a.annotations@[i]).entry == b.annotations@[i].entry
            && a.annotations@[i].description@ == b.annotations@[i].description@
}

/// Two snapshots agree task by task in every field.
pub open spec fn same_tasks(a: Seq<Task>, b: Seq<Task>) -> bool {
    a.len() == b.len() && forall|i: int| 0 <= i < a.len() ==> same_task(#[trigger] a[i], b[i])
}

fn copy_strings(v: &Vec<String>) -> (r: Vec<String>)
    ensures
        views_of(r@) == views_of(v@),
{
    let mut r: Vec<String> = Vec::new();
    let mut i: usize = 0;
    while i < v.len()
        invariant
            i <= v@.len(),
            views_of(r@) == views_of(v@.subrange(0, i as int)),
        decreases v@.len() - i,
    {
        let ghost prev = views_of(r@);
        r.push(v[i].clone());
        assert(views_of(r@) =~= prev.push(v@[i as int]@));
        assert(views_of(v@.subrange(0, i as int + 1)) =~= views_of(v@.subrange(0, i as int)).push(v@[i as int]@));
        i = i + 1;
    }
    assert(v@.subrange(0, v@.len() as int) =~= v@);
    r
}

/// A field-by-field copy of a task.
pub fn copy_task(t: &Task) -> (r: Task)
    ensures
        same_task(r, *t),
{
    let mut notes: Vec<Annotation> = Vec::new();
    let mut i: usize = 0;
    while i < t.annotations.len()
        invariant
            i <= t.annotations@.len(),
            notes@.len() == i,
            forall|k: int| 0 <= k < i ==> (#[trigger] notes@[k]).entry == t.annotations@[k].entry
                && notes@[k].description@ == t.annotations@[k].description@,
        decreases t.annotations@.len() - i,
    {
        let a = &t.annotations[i];
        notes.push(Annotation { entry: a.entry, description: a.description.clone() });
        i = i + 1;
    }
    Task {
        id: t.id,
        uuid: t.uuid.clone(),
        status: t.status,
        description: t.description.clone(),
        project: match &t.project {
            Some(p) => Some(p.clone()),
            None => None,
        },
        priority: t.priority,
        due: t.due,
        entry: t.entry,
        modified: t.modified,
        end: t.end,
        start: t.start,
        wait: t.wait,
        scheduled: t.scheduled,
        until: t.until,
        depends: copy_strings(&t.depends),
        tags: copy_strings(&t.tags),
        annotations: notes,
    }
}

/// Field-by-field copies of a snapshot.
pub fn copy_tasks(tasks: &Vec<Task>) -> (r: Vec<Task>)
    ensures
        same_tasks(r@, tasks@),
{
    let mut r: Vec<Task> = Vec::new();
    let mut i: usize = 0;
    while i < tasks.len()
        invariant
            i <= tasks@.len(),
            r@.len() == i,
            forall|k: int| 0 <= k < i ==> same_task(#[trigger] r@[k], tasks@[k]),
        decreases tasks@.len() - i,
    {
        r.push(copy_task(&tasks[i]));
        i = i + 1;
    }
    r
}

/// An overdue task is pending and its due instant lies before `now`.
pub proof fn lemma_overdue_is_pending_and_past(t: Task, now: int)
    ensures
        task_is_overdue(t, now) ==> t.status == TaskStatus::Pending && t.due.unwrap() < now,
{
}

/// An active task has a start instant and is pending.
pub proof fn lemma_active_is_started_and_pending(t: Task)
    ensures
        task_is_active(t) ==> t.start.is_some() && t.status == TaskStatus::Pending,
{
}

impl Task {
    pub fn is_active(&self) -> (r: bool)
        ensures
            r == task_is_active(*self),
    {
        self.start.is_some() && self.status == TaskStatus::Pending
    }

    pub fn is_overdue(&self, now: i64) -> (r: bool)
        ensures
            r == task_is_overdue(*self, now as int),
    {
        match self.due {
            Some(due) => due < now && self.status == TaskStatus::Pending,
            None => false,
        }
    }

    pub fn is_blocked(&self) -> (r: bool)
        ensures
            r == task_is_blocked(*self),
    {
        self.depends.len() > 0
    }
}

/// Relies on `uuid::Uuid::new_v4` and its `Display`: a random version-4 uuid
/// in hyphenated form, 36 characters long.
#[verifier::external_body]
fn fresh_uuid() -> (r: String)
    ensures
        r@.len() == 36,
{
    uuid::Uuid::new_v4().to_string()
}

/// Relies on `chrono::Utc::now` and `DateTime::timestamp`: the current instant
/// in whole seconds since the Unix epoch.
#[verifier::external_body]
pub(crate) fn now_timestamp() -> (r: i64) {
    chrono::Utc::now().timestamp()
}

/// The status a lower-case status name stands for; unknown names mean pending.
pub open spec fn status_named(s: Seq<char>) -> TaskStatus {
    if s == "completed"@ {
        TaskStatus::Completed
    } else if s == "deleted"@ {
        TaskStatus::Deleted
    } else if s == "waiting"@ {
        TaskStatus::Waiting
    } else if s == "recurring"@ {
        TaskStatus::Recurring
    } else {
        TaskStatus::Pending
    }
}

/// The priority an upper-case code stands for.
pub open spec fn priority_coded(s: Seq<char>) -> Option<Priority> {
    if s == "H"@ {
        Some(Priority::High)
    } else if s == "M"@ {
        Some(Priority::Medium)
    } else if s == "L"@ {
        Some(Priority::Low)
    } else {
        None
    }
}

impl TaskStatus {
    /// Reads a status name that is already lower case.
    pub fn from_lowercase(s: &str) -> (r: TaskStatus)
        ensures
            r == status_named(s@),
    {
        if same_text(s, "completed") {
            TaskStatus::Completed
        } else if same_text(s, "deleted") {
            TaskStatus::Deleted
        } else if same_text(s, "waiting") {
            TaskStatus::Waiting
        } else if same_text(s, "recurring") {
            TaskStatus::Recurring
        } else {
            TaskStatus::Pending
        }
    }

    /// Reads a status name in any case; unknown names mean pending.
    pub fn from_str(s: &str) -> (r: TaskStatus)
        ensures
            r == status_named(lower_of(s@)),
    {
        let folded = lowercase(s);
        TaskStatus::from_lowercase(folded.as_str())
    }

    pub fn as_str(&self) -> (r: &'static str)
        ensures
            r@ == match self {
                TaskStatus::Pending => "pending"@,
                TaskStatus::Completed => "completed"@,
                TaskStatus::Deleted => "deleted"@,
                TaskStatus::Waiting => "waiting"@,
                TaskStatus::Recurring => "recurring"@,
            },
    {
        match self {
            TaskStatus::Pending => "pending",
            TaskStatus::Completed => "completed",
            TaskStatus::Deleted => "deleted",
            TaskStatus::Waiting => "waiting",
            TaskStatus::Recurring => "recurring",
        }
    }
}

impl Priority {
    /// Reads a priority code that is already upper case.
    pub fn from_uppercase(s: &str) -> (r: Option<Priority>)
        ensures
            r == priority_coded(s@),
    {
        if same_text(s, "H") {
            Some(Priority::High)
        } else if same_text(s, "M") {
            Some(Priority::Medium)
        } else if same_text(s, "L") {
            Some(Priority::Low)
        } else {
            None
        }
    }

    /// Reads a priority code (H, M or L) in any case.
    pub fn from_str(s: &str) -> (r: Option<Priority>)
        ensures
            r == priority_coded(upper_of(s@)),
    {
        let folded = uppercase(s);
        Priority::from_uppercase(folded.as_str())
    }

    pub fn as_str(&self) -> (r: &'static str)
        ensures
            r@ == match self {
                Priority::High => "H"@,
                Priority::Medium => "M"@,
                Priority::Low => "L"@,
            },
    {
        match self {
            Priority::High => "H",
            Priority::Medium => "M",
            Priority::Low => "L",
        }
    }

    pub fn as_char(&self) -> (r: char)
        ensures
            r == match self {
                Priority::High => 'H',
                Priority::Medium => 'M',
                Priority::Low => 'L',
            },
    {
        match self {
            Priority::High => 'H',
            Priority::Medium => 'M',
            Priority::Low => 'L',
        }
    }
}

impl Task {
    /// A new pending task with a fresh uuid, created now, with nothing else set.
    pub fn new(description: String) -> (r: Task)
        ensures
            r.description@ == description@,
            r.status == TaskStatus::Pending,
            r.uuid@.len() == 36,
            r.id is None && r.project is None && r.priority is None && r.due is None,
            r.modified is None && r.end is None && r.start is None,
            r.wait is None && r.scheduled is None && r.until is None,
            r.depends@.len() == 0 && r.tags@.len() == 0 && r.annotations@.len() == 0,
    {
        Task {
            id: None,
            uuid: fresh_uuid(),
            status: TaskStatus::Pending,
            description,
            project: None,
            priority: None,
            due: None,
            entry: now_timestamp(),
            modified: None,
            end: None,
            start: None,
            wait: None,
            scheduled: None,
            until: None,
            depends: Vec::new(),
            tags: Vec::new(),
            annotations: Vec::new(),
        }
    }
}

} // verus!
