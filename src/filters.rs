use vstd::prelude::*;
use crate::model::{Task, TaskStatus, Priority, task_is_active, task_is_overdue, task_is_blocked};
use crate::text::{has_sub, lower_of, lowercase, contains_text};
use crate::criteria::{seq_has_str, contains_string};
use crate::ordering::derefs;

verus! {

/// A query over tasks where every field that is set must hold.
pub struct TaskFilter {
    pub status: Option<TaskStatus>,
    /// Substring of the task's project.
    pub project: Option<String>,
    pub priority: Option<Priority>,
    /// Due strictly before this instant.
    pub due_before: Option<i64>,
    /// Due strictly after this instant.
    pub due_after: Option<i64>,
    /// Every one of these tags must be on the task.
    pub tags: Vec<String>,
    /// Case-insensitive substring of the description.
    pub description_contains: Option<String>,
    pub is_active: Option<bool>,
    pub is_overdue: Option<bool>,
    pub is_blocked: Option<bool>,
}

/// Whether `t` passes every set field of `f` at instant `now`.
pub open spec fn filter_holds(f: TaskFilter, t: Task, now: int) -> bool {
    &&& (f.status is Some ==> t.status == f.status->0)
    &&& (f.project is Some ==> t.project is Some && has_sub(t.project->0@, f.project->0@))
    &&& (f.priority is Some ==> t.priority == f.priority)
    &&& (f.due_before is Some ==> t.due is Some && t.due->0 < f.due_before->0)
    &&& (f.due_after is Some ==> t.due is Some && t.due->0 > f.due_after->0)
    &&& (forall|i: int| 0 <= i < f.tags@.len() ==> seq_has_str(t.tags@, (#[trigger] f.tags@[i])@))
    &&& (f.description_contains is Some ==> has_sub(
        lower_of(t.description@),
        lower_of(f.description_contains->0@),
    ))
    &&& (f.is_active is Some ==> task_is_active(t) == f.is_active->0)
    &&& (f.is_overdue is Some ==> task_is_overdue(t, now) == f.is_overdue->0)
    &&& (f.is_blocked is Some ==> task_is_blocked(t) == f.is_blocked->0)
}

/// The tasks of `s` that pass `f`, in order.
pub open spec fn filter_all(f: TaskFilter, s: Seq<Task>, now: int) -> Seq<Task>
    decreases s.len(),
{
    if s.len() == 0 {
        s
    } else {
        let p = filter_all(f, s.drop_last(), now);
        if filter_holds(f, s.last(), now) {
            p.push(s.last())
        } else {
            p
        }
    }
}

impl TaskFilter {
    /// Pending tasks, nothing else constrained.
    pub fn new() -> (r: TaskFilter)
        ensures
            r.status == Some(TaskStatus::Pending),
            r.project is None && r.priority is None,
            r.due_before is None && r.due_after is None,
            r.tags@.len() == 0,
            r.description_contains is None,
            r.is_active is None && r.is_overdue is None && r.is_blocked is None,
    {
        TaskFilter {
            status: Some(TaskStatus::Pending),
            project: None,
            priority: None,
            due_before: None,
            due_after: None,
            tags: Vec::new(),
            description_contains: None,
            is_active: None,
            is_overdue: None,
            is_blocked: None,
        }
    }

    /// Whether `task` passes every set field at instant `now`.
    pub fn matches(&self, task: &Task, now: i64) -> (r: bool)
        ensures
            r == filter_holds(*self, *task, now as int),
    {
        if let Some(s) = self.status {
            if task.status != s {
                return false;
            }
        }
        if let Some(p) = &self.project {
            match &task.project {
                Some(tp) => {
                    if !contains_text(tp.as_str(), p.as_str()) {
                        return false;
                    }
                },
                None => return false,
            }
        }
        if let Some(p) = self.priority {
            match task.priority {
                Some(tp) => {
                    if tp != p {
                        return false;
                    }
                },
                None => return false,
            }
        }
        if let Some(b) = self.due_before {
            match task.due {
                Some(d) => {
                    if d >= b {
                        return false;
                    }
                },
                None => return false,
            }
        }
        if let Some(a) = self.due_after {
            match task.due {
                Some(d) => {
                    if d <= a {
                        return false;
                    }
                },
                None => return false,
            }
        }
        let mut i: usize = 0;
        while i < self.tags.len()
            invariant
                i <= self.tags@.len(),
                forall|k: int| 0 <= k < i ==> seq_has_str(task.tags@, (#[trigger] self.tags@[k])@),
            decreases self.tags@.len() - i,
        {
            if !contains_string(&task.tags, &self.tags[i]) {
                return false;
            }
            i = i + 1;
        }
        if let Some(text) = &self.description_contains {
            let hay = lowercase(task.description.as_str());
            let needle = lowercase(text.as_str());
            if !contains_text(hay.as_str(), needle.as_str()) {
                return false;
            }
        }
        if let Some(b) = self.is_active {
            if task.is_active() != b {
                return false;
            }
        }
        if let Some(b) = self.is_overdue {
            if task.is_overdue(now) != b {
                return false;
            }
        }
        if let Some(b) = self.is_blocked {
            if task.is_blocked() != b {
                return false;
            }
        }
        true
    }

    /// The tasks that pass, in the order given.
    pub fn apply<'a>(&self, tasks: &'a Vec<Task>, now: i64) -> (r: Vec<&'a Task>)
        ensures
            derefs(r@) == filter_all(*self, tasks@, now as int),
    {
        let mut r: Vec<&'a Task> = Vec::new();
        let mut i: usize = 0;
        while i < tasks.len()
            invariant
                i <= tasks@.len(),
                derefs(r@) == filter_all(*self, tasks@.subrange(0, i as int), now as int),
            decreases tasks@.len() - i,
        {
            let ghost before = tasks@.subrange(0, i as int);
            let ghost after = tasks@.subrange(0, i as int + 1);
            assert(after.drop_last() =~= before);
            if self.matches(&tasks[i], now) {
                let ghost prev = r@;
                r.push(&tasks[i]);
                assert(derefs(r@) =~= derefs(prev).push(tasks@[i as int]));
            }
            i = i + 1;
        }
        assert(tasks@.subrange(0, tasks@.len() as int) =~= tasks@);
        r
    }
}

} // verus!
