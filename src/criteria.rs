use vstd::prelude::*;
use crate::model::{Task, TaskStatus, task_is_active, task_is_overdue};
use crate::text::{has_sub, lower_of, lowercase, contains_text};

verus! {

/// The active filter state: every clause whose field is empty passes.
pub struct FilterCriteria {
    /// Statuses a task may have; combined by OR with the two toggles below.
    pub statuses: Vec<TaskStatus>,
    /// Also admit tasks that are started and pending.
    pub filter_active: bool,
    /// Also admit tasks that are pending and past due.
    pub filter_overdue: bool,
    /// Exact project names; empty means no project constraint.
    pub projects: Vec<String>,
    /// A task passes when it carries at least one of these tags.
    pub tags: Vec<String>,
    /// Case-insensitive substring over description, project and tags.
    pub search_text: String,
}

/// Some element of `v` reads as `s`.
pub open spec fn seq_has_str(v: Seq<String>, s: Seq<char>) -> bool {
    exists|i: int| 0 <= i < v.len() && (#[trigger] v[i])@ == s
}

pub open spec fn opt_view(o: Option<String>) -> Option<Seq<char>> {
    match o {
        Some(s) => Some(s@),
        None => None,
    }
}

pub open spec fn views_of(v: Seq<String>) -> Seq<Seq<char>> {
    v.map_values(|s: String| s@)
}

pub open spec fn lowered(v: Seq<String>) -> Seq<Seq<char>> {
    v.map_values(|s: String| lower_of(s@))
}

/// Status clause: skipped when no status and no toggle is selected.
pub open spec fn status_clause(t: Task, c: FilterCriteria, now: int) -> bool {
    if c.statuses@.len() == 0 && !c.filter_active && !c.filter_overdue {
        true
    } else {
        c.statuses@.contains(t.status) || (c.filter_active && task_is_active(t)) || (
        c.filter_overdue && task_is_overdue(t, now))
    }
}

/// Project clause: exact membership of the task's project in the selection.
pub open spec fn project_clause(t: Task, c: FilterCriteria) -> bool {
    c.projects@.len() == 0 || (t.project.is_some() && seq_has_str(
        c.projects@,
        t.project.unwrap()@,
    ))
}

/// Tags clause: the task shares at least one tag with the selection.
pub open spec fn tags_clause(t: Task, c: FilterCriteria) -> bool {
    c.tags@.len() == 0 || exists|j: int|
        0 <= j < t.tags@.len() && seq_has_str(c.tags@, (#[trigger] t.tags@[j])@)
}

/// `needle` occurs in the description, the project or one of the tags.
pub open spec fn text_hit(
    needle: Seq<char>,
    description: Seq<char>,
    project: Option<Seq<char>>,
    tags: Seq<Seq<char>>,
) -> bool {
    has_sub(description, needle) || (project.is_some() && has_sub(project.unwrap(), needle))
        || exists|j: int| 0 <= j < tags.len() && has_sub(#[trigger] tags[j], needle)
}

/// Free-text clause, compared after case folding on both sides.
pub open spec fn text_clause(t: Task, text: Seq<char>) -> bool {
    text.len() == 0 || text_hit(
        lower_of(text),
        lower_of(t.description@),
        match t.project {
            Some(p) => Some(lower_of(p@)),
            None => None,
        },
        lowered(t.tags@),
    )
}

/// All four clauses hold.
pub open spec fn task_matches(t: Task, c: FilterCriteria, now: int) -> bool {
    status_clause(t, c, now) && project_clause(t, c) && tags_clause(t, c) && text_clause(
        t,
        c.search_text@,
    )
}

/// The criteria under which every clause is skipped.
pub open spec fn is_empty_criteria(c: FilterCriteria) -> bool {
    c.statuses@.len() == 0 && !c.filter_active && !c.filter_overdue && c.projects@.len() == 0
        && c.tags@.len() == 0 && c.search_text@.len() == 0
}

impl FilterCriteria {
    /// Criteria that constrain nothing.
    pub fn new() -> (r: FilterCriteria)
        ensures
            is_empty_criteria(r),
    {
        FilterCriteria {
            statuses: Vec::new(),
            filter_active: false,
            filter_overdue: false,
            projects: Vec::new(),
            tags: Vec::new(),
            search_text: String::new(),
        }
    }
}

pub fn contains_status(v: &Vec<TaskStatus>, s: TaskStatus) -> (r: bool)
    ensures
        r == v@.contains(s),
{
    let mut i: usize = 0;
    while i < v.len()
        invariant
            i <= v@.len(),
            forall|k: int| 0 <= k < i ==> v@[k] != s,
        decreases v@.len() - i,
    {
        if v[i] == s {
            assert(v@[i as int] == s);
            return true;
        }
        i = i + 1;
    }
    false
}

pub fn contains_string(v: &Vec<String>, s: &String) -> (r: bool)
    ensures
        r == seq_has_str(v@, s@),
{
    let mut i: usize = 0;
    while i < v.len()
        invariant
            i <= v@.len(),
            forall|k: int| 0 <= k < i ==> (#[trigger] v@[k])@ != s@,
        decreases v@.len() - i,
    {
        if v[i] == *s {
            return true;
        }
        i = i + 1;
    }
    false
}

pub fn status_matches(task: &Task, c: &FilterCriteria, now: i64) -> (r: bool)
    ensures
        r == status_clause(*task, *c, now as int),
{
    if c.statuses.len() == 0 && !c.filter_active && !c.filter_overdue {
        return true;
    }
    contains_status(&c.statuses, task.status) || (c.filter_active && task.is_active()) || (
    c.filter_overdue && task.is_overdue(now))
}

pub fn project_matches(task: &Task, c: &FilterCriteria) -> (r: bool)
    ensures
        r == project_clause(*task, *c),
{
    if c.projects.len() == 0 {
        return true;
    }
    match &task.project {
        Some(p) => contains_string(&c.projects, p),
        None => false,
    }
}

pub fn tags_match(task: &Task, c: &FilterCriteria) -> (r: bool)
    ensures
        r == tags_clause(*task, *c),
{
    if c.tags.len() == 0 {
        return true;
    }
    let mut j: usize = 0;
    while j < task.tags.len()
        invariant
            j <= task.tags@.len(),
            forall|k: int| 0 <= k < j ==> !seq_has_str(c.tags@, (#[trigger] task.tags@[k])@),
        decreases task.tags@.len() - j,
    {
        if contains_string(&c.tags, &task.tags[j]) {
            return true;
        }
        j = j + 1;
    }
    false
}

/// The free-text test on values that are already case folded.
pub fn text_hit_folded(
    needle: &str,
    description: &str,
    project: &Option<String>,
    tags: &Vec<String>,
) -> (r: bool)
    ensures
        r == text_hit(needle@, description@, opt_view(*project), views_of(tags@)),
{
    if contains_text(description, needle) {
        return true;
    }
    if let Some(p) = project {
        if contains_text(p.as_str(), needle) {
            return true;
        }
    }
    let mut j: usize = 0;
    while j < tags.len()
        invariant
            j <= tags@.len(),
            forall|k: int| 0 <= k < j ==> !has_sub((#[trigger] tags@[k])@, needle@),
        decreases tags@.len() - j,
    {
        if contains_text(tags[j].as_str(), needle) {
            assert(views_of(tags@)[j as int] == tags@[j as int]@);
            return true;
        }
        j = j + 1;
    }
    assert forall|k: int| 0 <= k < views_of(tags@).len() implies !has_sub(
        #[trigger] views_of(tags@)[k],
        needle@,
    ) by {
        assert(views_of(tags@)[k] == tags@[k]@);
    }
    false
}

pub fn text_matches(task: &Task, text: &String) -> (r: bool)
    ensures
        r == text_clause(*task, text@),
{
    if text.as_str().is_empty() {
        return true;
    }
    let needle = lowercase(text.as_str());
    let description = lowercase(task.description.as_str());
    let project: Option<String> = match &task.project {
        Some(p) => Some(lowercase(p.as_str())),
        None => None,
    };
    let mut tags: Vec<String> = Vec::new();
    let mut j: usize = 0;
    while j < task.tags.len()
        invariant
            j <= task.tags@.len(),
            tags@.len() == j,
            views_of(tags@) == lowered(task.tags@.subrange(0, j as int)),
        decreases task.tags@.len() - j,
    {
        let folded = lowercase(task.tags[j].as_str());
        let ghost prev = tags@;
        tags.push(folded);
        assert forall|k: int| 0 <= k < j + 1 implies #[trigger] views_of(tags@)[k] == lowered(
            task.tags@.subrange(0, j as int + 1),
        )[k] by {
            if k < j {
                assert(views_of(prev)[k] == lowered(task.tags@.subrange(0, j as int))[k]);
            }
        }
        assert(views_of(tags@) =~= lowered(task.tags@.subrange(0, j as int + 1)));
        j = j + 1;
    }
    assert(task.tags@.subrange(0, task.tags@.len() as int) =~= task.tags@);
    text_hit_folded(needle.as_str(), description.as_str(), &project, &tags)
}

/// Whether a task passes every clause of the criteria at instant `now`.
pub fn matches_criteria(task: &Task, c: &FilterCriteria, now: i64) -> (r: bool)
    ensures
        r == task_matches(*task, *c, now as int),
{
    status_matches(task, c, now) && project_matches(task, c) && tags_match(task, c)
        && text_matches(task, &c.search_text)
}

} // verus!
