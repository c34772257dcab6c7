use vstd::prelude::*;
use crate::model::{Task, TaskStatus, Priority, count_where, task_is_active, task_is_overdue};
use crate::urgency::{calculate_urgency, urgency_tenths, MAX_SCORED_TAGS};

verus! {

/// Length of the "this week" window, in seconds.
pub const WEEK_SECONDS: i64 = 604800;

/// Status counts of one project. Waiting and recurring tasks count as pending.
#[derive(Debug, Clone, Copy, PartialEq, Eq, Structural)]
pub struct ProjectStats {
    pub pending: usize,
    pub completed: usize,
    pub deleted: usize,
    pub total: usize,
}

/// Completed share of the live (pending or completed) tasks, in hundredths of a
/// percent, rounded down; 0 when there is no live task.
pub open spec fn completion_rate_of(pending: int, completed: int) -> int {
    if pending + completed == 0 {
        0
    } else {
        (completed * 10000) / (pending + completed)
    }
}

impl ProjectStats {
    /// Completed share of pending plus completed tasks, in hundredths of a
    /// percent (0 to 10000); deleted tasks are left out, and a project with no
    /// pending or completed task has rate 0.
    pub fn completion_rate(&self) -> (r: u64)
        ensures
            r == completion_rate_of(self.pending as int, self.completed as int),
            r <= 10000,
    {
        let live: u128 = self.pending as u128 + self.completed as u128;
        if live == 0 {
            0
        } else {
            let c: u128 = self.completed as u128;
            proof {
                let ci = c as int;
                let li = live as int;
                assert(ci * 10000 <= li * 10000) by (nonlinear_arith)
                    requires
                        ci <= li,
                ;
                vstd::arithmetic::div_mod::lemma_div_is_ordered(ci * 10000, li * 10000, li);
                vstd::arithmetic::div_mod::lemma_div_multiples_vanish(10000, li);
                assert(li * 10000 == 10000 * li);
                assert(li * 10000 <= u64::MAX as int * 2 * 10000) by (nonlinear_arith)
                    requires
                        li <= u64::MAX as int * 2,
                ;
            }
            ((c * 10000) / live) as u64
        }
    }
}

/// Global counts over one snapshot, stamped with the snapshot's version.
pub struct TaskSummaryCache {
    pub total: usize,
    pub pending: usize,
    pub completed: usize,
    pub deleted: usize,
    pub waiting: usize,
    pub recurring: usize,
    pub active: usize,
    pub overdue: usize,
    pub high_priority: usize,
    pub medium_priority: usize,
    pub low_priority: usize,
    pub no_priority: usize,
    /// Sum of the urgency scores, in tenths of a point.
    pub urgency_sum: u128,
    /// Created within the last seven days.
    pub recent_tasks: usize,
    /// Completed, with an end within the last seven days.
    pub completed_this_week: usize,
    pub version: u64,
}

/// Sum of the urgency scores of `s` at `now`, in tenths.
pub open spec fn urgency_total(s: Seq<Task>, now: int) -> int
    decreases s.len(),
{
    if s.len() == 0 {
        0
    } else {
        urgency_total(s.drop_last(), now) + urgency_tenths(s.last(), now)
    }
}

pub open spec fn has_status(st: TaskStatus) -> spec_fn(Task) -> bool {
    |t: Task| t.status == st
}

pub open spec fn has_priority(p: Option<Priority>) -> spec_fn(Task) -> bool {
    |t: Task| t.priority == p
}

pub open spec fn created_after(since: int) -> spec_fn(Task) -> bool {
    |t: Task| t.entry > since
}

pub open spec fn completed_after(since: int) -> spec_fn(Task) -> bool {
    |t: Task| t.status == TaskStatus::Completed && t.end.is_some() && t.end.unwrap() > since
}

pub open spec fn active_at() -> spec_fn(Task) -> bool {
    |t: Task| task_is_active(t)
}

pub open spec fn overdue_at(now: int) -> spec_fn(Task) -> bool {
    |t: Task| task_is_overdue(t, now)
}

/// Every task's score fits the scoring arithmetic.
pub open spec fn scorable(s: Seq<Task>) -> bool {
    forall|i: int| 0 <= i < s.len() ==> (#[trigger] s[i]).tags@.len() <= MAX_SCORED_TAGS
}

/// A cache may be read only while its version is the collection's current one.
pub open spec fn cache_valid(c: TaskSummaryCache, current_version: u64) -> bool {
    c.version == current_version
}

pub(crate) proof fn lemma_urgency_bound(t: Task, now: int)
    requires
        t.tags@.len() <= MAX_SCORED_TAGS,
    ensures
        0 <= urgency_tenths(t, now) <= 10_000_000_240,
{
}

proof fn lemma_urgency_total_bound(s: Seq<Task>, now: int)
    requires
        scorable(s),
    ensures
        0 <= urgency_total(s, now) <= s.len() * 10_000_000_240,
    decreases s.len(),
{
    if s.len() > 0 {
        assert(scorable(s.drop_last()));
        lemma_urgency_total_bound(s.drop_last(), now);
        assert(s.last() == s[s.len() - 1]);
        lemma_urgency_bound(s.last(), now);
    }
}

impl TaskSummaryCache {
    /// Whether the cache describes the collection at `current_version`.
    pub fn is_valid(&self, current_version: u64) -> (r: bool)
        ensures
            r == cache_valid(*self, current_version),
    {
        self.version == current_version
    }

    /// Mean urgency in tenths of a point, rounded down; 0 for an empty snapshot.
    pub fn average_urgency(&self) -> (r: u128)
        ensures
            self.total == 0 ==> r == 0,
            self.total > 0 ==> r == self.urgency_sum / (self.total as u128),
    {
        if self.total == 0 {
            0
        } else {
            self.urgency_sum / (self.total as u128)
        }
    }
}

/// A cache stamped at version `n` is stale once the collection moves to `n + 1`.
pub proof fn lemma_cache_stale_after_replacement(c: TaskSummaryCache, n: u64)
    requires
        cache_valid(c, n),
        n < u64::MAX,
    ensures
        !cache_valid(c, (n + 1) as u64),
{
}

/// `c` holds the global counts of snapshot `s` at instant `now`, stamped with `version`.
pub open spec fn summary_matches(c: TaskSummaryCache, s: Seq<Task>, version: u64, now: int) -> bool {
    &&& c.version == version
    &&& c.total == s.len()
    &&& c.pending == count_where(s, has_status(TaskStatus::Pending))
    &&& c.completed == count_where(s, has_status(TaskStatus::Completed))
    &&& c.deleted == count_where(s, has_status(TaskStatus::Deleted))
    &&& c.waiting == count_where(s, has_status(TaskStatus::Waiting))
    &&& c.recurring == count_where(s, has_status(TaskStatus::Recurring))
    &&& c.active == count_where(s, active_at())
    &&& c.overdue == count_where(s, overdue_at(now))
    &&& c.high_priority == count_where(s, has_priority(Some(Priority::High)))
    &&& c.medium_priority == count_where(s, has_priority(Some(Priority::Medium)))
    &&& c.low_priority == count_where(s, has_priority(Some(Priority::Low)))
    &&& c.no_priority == count_where(s, has_priority(None))
    &&& c.urgency_sum == urgency_total(s, now)
    &&& c.recent_tasks == count_where(s, created_after(now - WEEK_SECONDS))
    &&& c.completed_this_week == count_where(s, completed_after(now - WEEK_SECONDS))
}

/// The global counts of a snapshot at instant `now`, stamped with `version`.
pub fn calculate_summary(tasks: &Vec<Task>, version: u64, now: i64) -> (r: TaskSummaryCache)
    requires
        scorable(tasks@),
        now >= i64::MIN + WEEK_SECONDS,
    ensures
        summary_matches(r, tasks@, version, now as int),
{
    let week_ago = now - WEEK_SECONDS;
    let mut r = TaskSummaryCache {
        total: tasks.len(),
        pending: 0,
        completed: 0,
        deleted: 0,
        waiting: 0,
        recurring: 0,
        active: 0,
        overdue: 0,
        high_priority: 0,
        medium_priority: 0,
        low_priority: 0,
        no_priority: 0,
        urgency_sum: 0,
        recent_tasks: 0,
        completed_this_week: 0,
        version,
    };
    let mut i: usize = 0;
    while i < tasks.len()
        invariant
            i <= tasks@.len(),
            scorable(tasks@),
            week_ago == now - WEEK_SECONDS,
            r.version == version,
            r.total == tasks@.len(),
            r.pending <= i && r.completed <= i && r.deleted <= i && r.waiting <= i,
            r.recurring <= i && r.active <= i && r.overdue <= i,
            r.high_priority <= i && r.medium_priority <= i && r.low_priority <= i,
            r.no_priority <= i && r.recent_tasks <= i && r.completed_this_week <= i,
            r.pending == count_where(tasks@.subrange(0, i as int), has_status(TaskStatus::Pending)),
            r.completed == count_where(
                tasks@.subrange(0, i as int),
                has_status(TaskStatus::Completed),
            ),
            r.deleted == count_where(tasks@.subrange(0, i as int), has_status(TaskStatus::Deleted)),
            r.waiting == count_where(tasks@.subrange(0, i as int), has_status(TaskStatus::Waiting)),
            r.recurring == count_where(
                tasks@.subrange(0, i as int),
                has_status(TaskStatus::Recurring),
            ),
            r.active == count_where(tasks@.subrange(0, i as int), active_at()),
            r.overdue == count_where(tasks@.subrange(0, i as int), overdue_at(now as int)),
            r.high_priority == count_where(
                tasks@.subrange(0, i as int),
                has_priority(Some(Priority::High)),
            ),
            r.medium_priority == count_where(
                tasks@.subrange(0, i as int),
                has_priority(Some(Priority::Medium)),
            ),
            r.low_priority == count_where(
                tasks@.subrange(0, i as int),
                has_priority(Some(Priority::Low)),
            ),
            r.no_priority == count_where(tasks@.subrange(0, i as int), has_priority(None)),
            r.urgency_sum == urgency_total(tasks@.subrange(0, i as int), now as int),
            r.recent_tasks == count_where(tasks@.subrange(0, i as int), created_after(week_ago as int)),
            r.completed_this_week == count_where(
                tasks@.subrange(0, i as int),
                completed_after(week_ago as int),
            ),
        decreases tasks@.len() - i,
    {
        let ghost before = tasks@.subrange(0, i as int);
        let ghost after = tasks@.subrange(0, i as int + 1);
        proof {
            assert(after.drop_last() =~= before);
            assert(after.last() == tasks@[i as int]);
            assert(scorable(after));
            lemma_urgency_total_bound(after, now as int);
            assert(after.len() * 10_000_000_240 <= 18446744073709551615int * 10_000_000_240)
                by (nonlinear_arith)
                requires
                    after.len() <= 18446744073709551615int,
            ;
        }
        let t = &tasks[i];
        match t.status {
            TaskStatus::Pending => r.pending = r.pending + 1,
            TaskStatus::Completed => r.completed = r.completed + 1,
            TaskStatus::Deleted => r.deleted = r.deleted + 1,
            TaskStatus::Waiting => r.waiting = r.waiting + 1,
            TaskStatus::Recurring => r.recurring = r.recurring + 1,
        }
        if t.is_active() {
            r.active = r.active + 1;
        }
        if t.is_overdue(now) {
            r.overdue = r.overdue + 1;
        }
        match t.priority {
            Some(Priority::High) => r.high_priority = r.high_priority + 1,
            Some(Priority::Medium) => r.medium_priority = r.medium_priority + 1,
            Some(Priority::Low) => r.low_priority = r.low_priority + 1,
            None => r.no_priority = r.no_priority + 1,
        }
        let score = calculate_urgency(t, now);
        r.urgency_sum = r.urgency_sum + score as u128;
        if t.entry > week_ago {
            r.recent_tasks = r.recent_tasks + 1;
        }
        if t.status == TaskStatus::Completed {
            if let Some(end) = t.end {
                if end > week_ago {
                    r.completed_this_week = r.completed_this_week + 1;
                }
            }
        }
        i = i + 1;
    }
    assert(tasks@.subrange(0, tasks@.len() as int) =~= tasks@);
    r
}

/// Project under which a task is counted.
pub open spec fn group_name(t: Task) -> Seq<char> {
    match t.project {
        Some(p) => p@,
        None => "(no project)"@,
    }
}

pub open spec fn is_pending_like(t: Task) -> bool {
    t.status == TaskStatus::Pending || t.status == TaskStatus::Waiting || t.status
        == TaskStatus::Recurring
}

pub open spec fn in_group(n: Seq<char>) -> spec_fn(Task) -> bool {
    |t: Task| group_name(t) == n
}

pub open spec fn pending_in(n: Seq<char>) -> spec_fn(Task) -> bool {
    |t: Task| group_name(t) == n && is_pending_like(t)
}

pub open spec fn completed_in(n: Seq<char>) -> spec_fn(Task) -> bool {
    |t: Task| group_name(t) == n && t.status == TaskStatus::Completed
}

pub open spec fn deleted_in(n: Seq<char>) -> spec_fn(Task) -> bool {
    |t: Task| group_name(t) == n && t.status == TaskStatus::Deleted
}

/// Per-project counts: `names[k]` is counted in `stats[k]`.
pub struct ProjectReport {
    pub names: Vec<String>,
    pub stats: Vec<ProjectStats>,
}

pub open spec fn names_distinct(names: Seq<String>) -> bool {
    forall|a: int, b: int|
        0 <= a < names.len() && 0 <= b < names.len() && a != b ==> (#[trigger] names[a])@
            != (#[trigger] names[b])@
}

pub open spec fn every_group_named(names: Seq<String>, s: Seq<Task>) -> bool {
    forall|i: int|
        0 <= i < s.len() ==> exists|k: int|
            0 <= k < names.len() && (#[trigger] names[k])@ == group_name(#[trigger] s[i])
}

pub open spec fn every_name_used(names: Seq<String>, s: Seq<Task>) -> bool {
    forall|k: int|
        0 <= k < names.len() ==> exists|i: int|
            0 <= i < s.len() && group_name(#[trigger] s[i]) == (#[trigger] names[k])@
}

pub open spec fn counts_agree(names: Seq<String>, stats: Seq<ProjectStats>, s: Seq<Task>) -> bool {
    forall|k: int|
        0 <= k < names.len() ==> {
            let n = (#[trigger] names[k])@;
            &&& stats[k].pending == count_where(s, pending_in(n))
            &&& stats[k].completed == count_where(s, completed_in(n))
            &&& stats[k].deleted == count_where(s, deleted_in(n))
            &&& stats[k].total == count_where(s, in_group(n))
        }
}

/// The report holds, for each project of `s` and nothing else, the counts of its tasks.
pub open spec fn report_matches(r: ProjectReport, s: Seq<Task>) -> bool {
    &&& r.names@.len() == r.stats@.len()
    &&& names_distinct(r.names@)
    &&& every_group_named(r.names@, s)
    &&& every_name_used(r.names@, s)
    &&& counts_agree(r.names@, r.stats@, s)
}

pub(crate) proof fn lemma_count_step(s: Seq<Task>, i: int, f: spec_fn(Task) -> bool)
    requires
        0 <= i < s.len(),
    ensures
        count_where(s.subrange(0, i + 1), f) == count_where(s.subrange(0, i), f) + if f(s[i]) {
            1nat
        } else {
            0nat
        },
{
    assert(s.subrange(0, i + 1).drop_last() =~= s.subrange(0, i));
}

proof fn lemma_count_none(s: Seq<Task>, f: spec_fn(Task) -> bool)
    requires
        forall|i: int| 0 <= i < s.len() ==> !f(#[trigger] s[i]),
    ensures
        count_where(s, f) == 0,
    decreases s.len(),
{
    if s.len() > 0 {
        lemma_count_none(s.drop_last(), f);
    }
}

pub(crate) proof fn lemma_count_le(s: Seq<Task>, f: spec_fn(Task) -> bool)
    ensures
        count_where(s, f) <= s.len(),
    decreases s.len(),
{
    if s.len() > 0 {
        lemma_count_le(s.drop_last(), f);
    }
}

fn find_name(names: &Vec<String>, name: &String) -> (r: Option<usize>)
    ensures
        match r {
            Some(k) => k < names@.len() && names@[k as int]@ == name@,
            None => forall|k: int| 0 <= k < names@.len() ==> (#[trigger] names@[k])@ != name@,
        },
{
    let mut k: usize = 0;
    while k < names.len()
        invariant
            k <= names@.len(),
            forall|j: int| 0 <= j < k ==> (#[trigger] names@[j])@ != name@,
        decreases names@.len() - k,
    {
        if names[k] == *name {
            return Some(k);
        }
        k = k + 1;
    }
    None
}

/// The counts of `st` after one more task `t` of the project.
pub open spec fn stats_step(st: ProjectStats, t: Task) -> ProjectStats {
    ProjectStats {
        pending: if is_pending_like(t) {
            (st.pending + 1) as usize
        } else {
            st.pending
        },
        completed: if t.status == TaskStatus::Completed {
            (st.completed + 1) as usize
        } else {
            st.completed
        },
        deleted: if t.status == TaskStatus::Deleted {
            (st.deleted + 1) as usize
        } else {
            st.deleted
        },
        total: (st.total + 1) as usize,
    }
}

/// How one step changes the lists: `nn[k]` names the group of `t`; it is
/// either an existing entry or a new one appended at the end.
pub open spec fn step_shape(
    on: Seq<String>,
    os: Seq<ProjectStats>,
    nn: Seq<String>,
    ns: Seq<ProjectStats>,
    k: int,
    t: Task,
) -> bool {
    &&& on.len() == os.len()
    &&& nn.len() == ns.len()
    &&& 0 <= k < nn.len()
    &&& nn[k]@ == group_name(t)
    &&& forall|j: int| 0 <= j < on.len() ==> nn[j] == on[j]
    &&& forall|j: int| 0 <= j < on.len() && j != k ==> ns[j] == os[j]
    &&& if k < on.len() {
        nn.len() == on.len() && ns[k] == stats_step(os[k], t)
    } else {
        &&& k == on.len()
        &&& nn.len() == on.len() + 1
        &&& forall|j: int| 0 <= j < on.len() ==> (#[trigger] on[j])@ != nn[k]@
        &&& ns[k] == stats_step(ProjectStats { pending: 0, completed: 0, deleted: 0, total: 0 }, t)
    }
}

proof fn lemma_step_distinct(
    on: Seq<String>,
    os: Seq<ProjectStats>,
    nn: Seq<String>,
    ns: Seq<ProjectStats>,
    k: int,
    t: Task,
)
    requires
        names_distinct(on),
        step_shape(on, os, nn, ns, k, t),
    ensures
        names_distinct(nn),
{
    assert forall|a: int, b: int|
        0 <= a < nn.len() && 0 <= b < nn.len() && a != b implies (#[trigger] nn[a])@ != (
        #[trigger] nn[b])@ by {
        if a < on.len() && b < on.len() {
            assert(nn[a] == on[a]);
            assert(nn[b] == on[b]);
        } else if a < on.len() {
            assert(nn[a] == on[a]);
        } else if b < on.len() {
            assert(nn[b] == on[b]);
        }
    }
}

proof fn lemma_step_named(
    s: Seq<Task>,
    i: int,
    on: Seq<String>,
    os: Seq<ProjectStats>,
    nn: Seq<String>,
    ns: Seq<ProjectStats>,
    k: int,
)
    requires
        0 <= i < s.len(),
        every_group_named(on, s.subrange(0, i)),
        step_shape(on, os, nn, ns, k, s[i]),
    ensures
        every_group_named(nn, s.subrange(0, i + 1)),
{
    let before = s.subrange(0, i);
    let after = s.subrange(0, i + 1);
    assert forall|a: int| 0 <= a < after.len() implies exists|b: int|
        0 <= b < nn.len() && (#[trigger] nn[b])@ == group_name(#[trigger] after[a]) by {
        if a < i {
            assert(after[a] == before[a]);
            let b = choose|b: int|
                0 <= b < on.len() && (#[trigger] on[b])@ == group_name(#[trigger] before[a]);
            assert(nn[b] == on[b]);
        } else {
            assert(after[a] == s[i]);
            assert(nn[k]@ == group_name(after[a]));
        }
    }
}

proof fn lemma_step_used(
    s: Seq<Task>,
    i: int,
    on: Seq<String>,
    os: Seq<ProjectStats>,
    nn: Seq<String>,
    ns: Seq<ProjectStats>,
    k: int,
)
    requires
        0 <= i < s.len(),
        every_name_used(on, s.subrange(0, i)),
        step_shape(on, os, nn, ns, k, s[i]),
    ensures
        every_name_used(nn, s.subrange(0, i + 1)),
{
    let before = s.subrange(0, i);
    let after = s.subrange(0, i + 1);
    assert forall|b: int| 0 <= b < nn.len() implies exists|a: int|
        0 <= a < after.len() && group_name(#[trigger] after[a]) == (#[trigger] nn[b])@ by {
        if b < on.len() {
            assert(nn[b] == on[b]);
            let a = choose|a: int|
                0 <= a < before.len() && group_name(#[trigger] before[a]) == (#[trigger] on[b])@;
            assert(after[a] == before[a]);
        } else {
            assert(b == k);
            assert(after[i] == s[i]);
            assert(group_name(after[i]) == nn[b]@);
        }
    }
}

proof fn lemma_step_counts(
    s: Seq<Task>,
    i: int,
    on: Seq<String>,
    os: Seq<ProjectStats>,
    nn: Seq<String>,
    ns: Seq<ProjectStats>,
    k: int,
)
    requires
        0 <= i < s.len(),
        s.len() <= usize::MAX,
        names_distinct(nn),
        every_group_named(on, s.subrange(0, i)),
        counts_agree(on, os, s.subrange(0, i)),
        step_shape(on, os, nn, ns, k, s[i]),
    ensures
        counts_agree(nn, ns, s.subrange(0, i + 1)),
{
    let before = s.subrange(0, i);
    let after = s.subrange(0, i + 1);
    let g = nn[k]@;
    if k == on.len() {
        assert forall|j: int| 0 <= j < before.len() implies !(#[trigger] in_group(g)(before[j])) by {
            let m = choose|m: int|
                0 <= m < on.len() && (#[trigger] on[m])@ == group_name(#[trigger] before[j]);
        }
        lemma_count_none(before, pending_in(g));
        lemma_count_none(before, completed_in(g));
        lemma_count_none(before, deleted_in(g));
        lemma_count_none(before, in_group(g));
    }
    assert forall|j: int| 0 <= j < nn.len() implies {
        let m = (#[trigger] nn[j])@;
        &&& ns[j].pending == count_where(after, pending_in(m))
        &&& ns[j].completed == count_where(after, completed_in(m))
        &&& ns[j].deleted == count_where(after, deleted_in(m))
        &&& ns[j].total == count_where(after, in_group(m))
    } by {
        let m = nn[j]@;
        lemma_count_le(before, pending_in(m));
        lemma_count_le(before, completed_in(m));
        lemma_count_le(before, deleted_in(m));
        lemma_count_le(before, in_group(m));
        lemma_count_step(s, i, pending_in(m));
        lemma_count_step(s, i, completed_in(m));
        lemma_count_step(s, i, deleted_in(m));
        lemma_count_step(s, i, in_group(m));
        if j != k {
            assert(m != g);
            assert(nn[j] == on[j]);
            assert(ns[j] == os[j]);
        } else if k < on.len() {
            assert(nn[k] == on[k]);
        }
    }
}

/// Counts the tasks of each project; tasks without a project are counted
/// under "(no project)". Projects appear in order of first appearance.
pub fn calculate_project_stats(tasks: &Vec<Task>) -> (r: ProjectReport)
    ensures
        report_matches(r, tasks@),
{
    let mut names: Vec<String> = Vec::new();
    let mut stats: Vec<ProjectStats> = Vec::new();
    let mut i: usize = 0;
    while i < tasks.len()
        invariant
            i <= tasks@.len(),
            report_matches(ProjectReport { names, stats }, tasks@.subrange(0, i as int)),
        decreases tasks@.len() - i,
    {
        let ghost before = tasks@.subrange(0, i as int);
        let ghost on = names@;
        let ghost os = stats@;
        let t = &tasks[i];
        let name: String = match &t.project {
            Some(p) => p.clone(),
            None => String::from_str("(no project)"),
        };
        assert(name@ == group_name(*t));
        assert(*t == tasks@[i as int]);
        let found = find_name(&names, &name);
        let k: usize = match found {
            Some(k) => k,
            None => {
                names.push(name);
                stats.push(ProjectStats { pending: 0, completed: 0, deleted: 0, total: 0 });
                names.len() - 1
            },
        };
        let cur = stats[k];
        proof {
            let n = names@[k as int]@;
            if k < on.len() {
                assert(names@[k as int] == on[k as int]);
            }
            lemma_count_le(before, in_group(n));
            lemma_count_le(before, pending_in(n));
            lemma_count_le(before, completed_in(n));
            lemma_count_le(before, deleted_in(n));
        }
        let pending_like = t.status == TaskStatus::Pending || t.status == TaskStatus::Waiting
            || t.status == TaskStatus::Recurring;
        let next = ProjectStats {
            pending: if pending_like {
                cur.pending + 1
            } else {
                cur.pending
            },
            completed: if t.status == TaskStatus::Completed {
                cur.completed + 1
            } else {
                cur.completed
            },
            deleted: if t.status == TaskStatus::Deleted {
                cur.deleted + 1
            } else {
                cur.deleted
            },
            total: cur.total + 1,
        };
        stats.set(k, next);
        proof {
            assert(step_shape(on, os, names@, stats@, k as int, tasks@[i as int]));
            lemma_step_distinct(on, os, names@, stats@, k as int, tasks@[i as int]);
            lemma_step_named(tasks@, i as int, on, os, names@, stats@, k as int);
            lemma_step_used(tasks@, i as int, on, os, names@, stats@, k as int);
            lemma_step_counts(tasks@, i as int, on, os, names@, stats@, k as int);
        }
        i = i + 1;
    }
    assert(tasks@.subrange(0, tasks@.len() as int) =~= tasks@);
    ProjectReport { names, stats }
}

/// Live tasks (pending or completed) of a project, the key of the project table's order.
pub open spec fn live_of(st: ProjectStats) -> int {
    st.pending + st.completed
}

/// Where project `k` goes in a list ordered by live tasks, most first, after
/// projects with as many.
pub open spec fn rank_slot(stats: Seq<ProjectStats>, order: Seq<usize>, e: int) -> nat
    decreases order.len(),
{
    if order.len() == 0 {
        0
    } else if live_of(stats[order[0] as int]) < e {
        0
    } else {
        1 + rank_slot(stats, order.drop_first(), e)
    }
}

/// Project indices `0..n`, stably ordered by live tasks, most first.
pub open spec fn ranked(stats: Seq<ProjectStats>, n: nat) -> Seq<usize>
    decreases n,
{
    if n == 0 {
        Seq::empty()
    } else {
        let p = ranked(stats, (n - 1) as nat);
        p.insert(rank_slot(stats, p, live_of(stats[n - 1])) as int, (n - 1) as usize)
    }
}

proof fn lemma_rank_slot_bounds(stats: Seq<ProjectStats>, order: Seq<usize>, e: int)
    ensures
        rank_slot(stats, order, e) <= order.len(),
    decreases order.len(),
{
    if order.len() > 0 && live_of(stats[order[0] as int]) >= e {
        lemma_rank_slot_bounds(stats, order.drop_first(), e);
    }
}

proof fn lemma_rank_slot_skip(stats: Seq<ProjectStats>, order: Seq<usize>, e: int, k: int)
    requires
        0 <= k <= order.len(),
        forall|j: int| 0 <= j < k ==> live_of(stats[#[trigger] order[j] as int]) >= e,
    ensures
        rank_slot(stats, order, e) == k + rank_slot(stats, order.subrange(k, order.len() as int), e),
    decreases k,
{
    if k == 0 {
        assert(order.subrange(0, order.len() as int) =~= order);
    } else {
        lemma_rank_slot_skip(stats, order, e, k - 1);
        let sub = order.subrange(k - 1, order.len() as int);
        assert(sub[0] == order[k - 1]);
        assert(sub.drop_first() =~= order.subrange(k, order.len() as int));
    }
}

proof fn lemma_ranked_in_range(stats: Seq<ProjectStats>, n: nat)
    ensures
        ranked(stats, n).len() == n,
        forall|j: int| 0 <= j < n ==> (#[trigger] ranked(stats, n)[j]) < n,
    decreases n,
{
    if n > 0 {
        let p = ranked(stats, (n - 1) as nat);
        lemma_ranked_in_range(stats, (n - 1) as nat);
        lemma_rank_slot_bounds(stats, p, live_of(stats[n - 1]));
        let k = rank_slot(stats, p, live_of(stats[n - 1])) as int;
        p.insert_ensures(k, (n - 1) as usize);
        assert forall|j: int| 0 <= j < n implies (#[trigger] ranked(stats, n)[j]) < n by {
            if j < k {
                assert(ranked(stats, n)[j] == p[j]);
            } else if j > k {
                assert(ranked(stats, n)[j] == p[j - 1]);
            }
        }
    }
}

/// The order of the project table: most live tasks first, ties in report order.
pub fn project_table_order(report: &ProjectReport) -> (r: Vec<usize>)
    requires
        report.names@.len() == report.stats@.len(),
    ensures
        r@ == ranked(report.stats@, report.stats@.len()),
{
    let stats = &report.stats;
    let mut r: Vec<usize> = Vec::new();
    let mut i: usize = 0;
    while i < stats.len()
        invariant
            i <= stats@.len(),
            r@ == ranked(stats@, i as nat),
        decreases stats@.len() - i,
    {
        proof {
            lemma_ranked_in_range(stats@, i as nat);
        }
        let e: u128 = stats[i].pending as u128 + stats[i].completed as u128;
        let mut k: usize = 0;
        while k < r.len() && (stats[r[k]].pending as u128 + stats[r[k]].completed as u128) >= e
            invariant
                r@ == ranked(stats@, i as nat),
                r@.len() == i,
                i < stats@.len(),
                forall|j: int| 0 <= j < i ==> (#[trigger] r@[j]) < i,
                k <= r@.len(),
                e as int == live_of(stats@[i as int]),
                forall|j: int| 0 <= j < k ==> live_of(stats@[#[trigger] r@[j] as int]) >= e,
            decreases r@.len() - k,
        {
            k = k + 1;
        }
        proof {
            lemma_rank_slot_skip(stats@, r@, e as int, k as int);
            if k < r@.len() {
                assert(r@.subrange(k as int, r@.len() as int)[0] == r@[k as int]);
            }
            lemma_rank_slot_bounds(stats@, r@, e as int);
        }
        r.insert(k, i);
        i = i + 1;
    }
    r
}

pub open spec fn pending_urgency_in(n: Seq<char>, now: int, s: Seq<Task>) -> int
    decreases s.len(),
{
    if s.len() == 0 {
        0
    } else {
        pending_urgency_in(n, now, s.drop_last()) + if group_name(s.last()) == n && s.last().status
            == TaskStatus::Pending {
            urgency_tenths(s.last(), now)
        } else {
            0
        }
    }
}

proof fn lemma_pending_urgency_bound(n: Seq<char>, now: int, s: Seq<Task>)
    requires
        scorable(s),
    ensures
        0 <= pending_urgency_in(n, now, s) <= s.len() * 10_000_000_240,
    decreases s.len(),
{
    if s.len() > 0 {
        assert(scorable(s.drop_last()));
        lemma_pending_urgency_bound(n, now, s.drop_last());
        assert(s.last() == s[s.len() - 1]);
        lemma_urgency_bound(s.last(), now);
    }
}

/// Average urgency (tenths, rounded down) of the pending tasks of project
/// `name`, dividing by its pending count (at least 1).
pub fn project_urgency(tasks: &Vec<Task>, name: &String, pending: usize, now: i64) -> (r: u128)
    requires
        scorable(tasks@),
    ensures
        r == pending_urgency_in(name@, now as int, tasks@) / (if pending == 0 {
            1
        } else {
            pending as int
        }),
{
    let mut sum: u128 = 0;
    let mut i: usize = 0;
    while i < tasks.len()
        invariant
            i <= tasks@.len(),
            scorable(tasks@),
            sum as int == pending_urgency_in(name@, now as int, tasks@.subrange(0, i as int)),
        decreases tasks@.len() - i,
    {
        let ghost before = tasks@.subrange(0, i as int);
        let ghost after = tasks@.subrange(0, i as int + 1);
        proof {
            assert(after.drop_last() =~= before);
            assert(after.last() == tasks@[i as int]);
            assert(scorable(after));
            lemma_pending_urgency_bound(name@, now as int, after);
            assert(after.len() * 10_000_000_240 <= 18446744073709551615int * 10_000_000_240)
                by (nonlinear_arith)
                requires
                    after.len() <= 18446744073709551615int,
            ;
        }
        let t = &tasks[i];
        let in_group = match &t.project {
            Some(p) => *p == *name,
            None => crate::task_list::same_text(name.as_str(), "(no project)"),
        };
        if in_group && t.status == TaskStatus::Pending {
            sum = sum + calculate_urgency(t, now) as u128;
        }
        i = i + 1;
    }
    assert(tasks@.subrange(0, tasks@.len() as int) =~= tasks@);
    let d: u128 = if pending == 0 {
        1
    } else {
        pending as u128
    };
    sum / d
}

} // verus!
