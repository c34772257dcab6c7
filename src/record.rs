use vstd::prelude::*;
use crate::model::{Task, TaskStatus, Priority, Annotation, status_named, priority_coded};
use crate::text::{lower_of, upper_of};
use crate::calendar::{day_from_civil, epoch_day_of, is_valid_date, SECONDS_PER_DAY};

verus! {

/// Why a record from the task store cannot become a task.
#[derive(Debug, Clone, Copy, PartialEq, Eq, Structural)]
pub enum TaskError {
    MissingUuid,
    MissingDescription,
}

/// The fields of one exported task, as text, before interpretation.
pub struct TaskRecord {
    pub id: Option<u64>,
    pub uuid: Option<String>,
    pub status: Option<String>,
    pub description: Option<String>,
    pub project: Option<String>,
    pub priority: Option<String>,
    pub entry: Option<String>,
    pub due: Option<String>,
    pub modified: Option<String>,
    pub start: Option<String>,
    pub end: Option<String>,
    pub wait: Option<String>,
    pub scheduled: Option<String>,
    pub until: Option<String>,
    pub tags: Vec<String>,
    /// Each annotation's entry instant and description, when present.
    pub annotations: Vec<(Option<String>, Option<String>)>,
}

pub open spec fn is_digit(c: char) -> bool {
    '0' <= c && c <= '9'
}

/// Value of the decimal digits `s[from..to]`.
pub open spec fn digits_value(s: Seq<char>, from: int, to: int) -> int
    decreases to - from,
{
    if to <= from {
        0
    } else {
        digits_value(s, from, to - 1) * 10 + (s[to - 1] as int - '0' as int)
    }
}

/// The compact form `YYYYMMDDTHHMMSSZ`: 16 characters, digits but for the 'T'
/// and the final 'Z'.
pub open spec fn compact_shape(s: Seq<char>) -> bool {
    &&& s.len() == 16
    &&& s[8] == 'T'
    &&& s[15] == 'Z'
    &&& forall|i: int| 0 <= i < 16 && i != 8 && i != 15 ==> is_digit(#[trigger] s[i])
}

/// The instant a compact timestamp denotes (UTC), if it is a real date and
/// time; a leap second (60) counts as the second before it.
pub open spec fn compact_instant(s: Seq<char>) -> Option<int> {
    if !compact_shape(s) {
        None
    } else {
        let y = digits_value(s, 0, 4);
        let mo = digits_value(s, 4, 6);
        let d = digits_value(s, 6, 8);
        let h = digits_value(s, 9, 11);
        let mi = digits_value(s, 11, 13);
        let se = digits_value(s, 13, 15);
        if is_valid_date(y, mo, d) && h < 24 && mi < 60 && se <= 60 {
            Some(epoch_day_of(y, mo, d) * 86400 + h * 3600 + mi * 60 + if se == 60 {
                59
            } else {
                se
            })
        } else {
            None
        }
    }
}

proof fn lemma_digits_bound(s: Seq<char>, from: int, to: int)
    requires
        0 <= from <= to <= s.len(),
        forall|i: int| from <= i < to ==> is_digit(#[trigger] s[i]),
    ensures
        0 <= digits_value(s, from, to),
        to - from <= 1 ==> digits_value(s, from, to) <= 9,
        to - from <= 2 ==> digits_value(s, from, to) <= 99,
        to - from <= 3 ==> digits_value(s, from, to) <= 999,
        to - from <= 4 ==> digits_value(s, from, to) <= 9999,
    decreases to - from,
{
    if from < to {
        lemma_digits_bound(s, from, to - 1);
        assert(is_digit(s[to - 1]));
    }
}

fn read_digits(chars: &Vec<char>, from: usize, to: usize) -> (r: u32)
    requires
        from <= to <= chars@.len(),
        to - from <= 4,
        forall|i: int| from <= i < to ==> is_digit(#[trigger] chars@[i]),
    ensures
        r as int == digits_value(chars@, from as int, to as int),
{
    let mut v: u32 = 0;
    let mut i: usize = from;
    while i < to
        invariant
            from <= i <= to <= chars@.len(),
            to - from <= 4,
            forall|k: int| from <= k < to ==> is_digit(#[trigger] chars@[k]),
            v as int == digits_value(chars@, from as int, i as int),
        decreases to - i,
    {
        proof {
            lemma_digits_bound(chars@, from as int, i as int + 1);
        }
        let c = chars[i];
        v = v * 10 + (c as u32 - '0' as u32);
        i = i + 1;
    }
    v
}

/// Reads a compact UTC timestamp such as `20251007T192937Z` as seconds since
/// the Unix epoch; `None` when the text is not of that form or names no real
/// date and time.
pub fn parse_taskwarrior_datetime(date_str: &str) -> (r: Option<i64>)
    ensures
        match r {
            Some(v) => compact_instant(date_str@) == Some(v as int),
            None => compact_instant(date_str@) is None,
        },
{
    let chars = crate::text::chars_of(date_str);
    if chars.len() != 16 || chars[8] != 'T' || chars[15] != 'Z' {
        return None;
    }
    let mut i: usize = 0;
    while i < 16
        invariant
            chars@ == date_str@,
            chars@.len() == 16,
            i <= 16,
            forall|k: int| 0 <= k < i && k != 8 && k != 15 ==> is_digit(#[trigger] chars@[k]),
        decreases 16 - i,
    {
        if i != 8 && i != 15 && !('0' <= chars[i] && chars[i] <= '9') {
            assert(!compact_shape(date_str@));
            return None;
        }
        i = i + 1;
    }
    let y = read_digits(&chars, 0, 4);
    let mo = read_digits(&chars, 4, 6);
    let d = read_digits(&chars, 6, 8);
    let h = read_digits(&chars, 9, 11);
    let mi = read_digits(&chars, 11, 13);
    let se = read_digits(&chars, 13, 15);
    proof {
        lemma_digits_bound(chars@, 0, 4);
        lemma_digits_bound(chars@, 4, 6);
        lemma_digits_bound(chars@, 6, 8);
    }
    if h >= 24 || mi >= 60 || se > 60 {
        return None;
    }
    let se: u32 = if se == 60 {
        59
    } else {
        se
    };
    match day_from_civil(y as i32, mo, d) {
        Some(day) => Some(
            (day as i64) * SECONDS_PER_DAY + (h as i64) * 3600 + (mi as i64) * 60 + (se as i64),
        ),
        None => None,
    }
}

/// An optional compact timestamp, read when present.
pub open spec fn instant_field(f: Option<String>) -> Option<int> {
    match f {
        Some(s) => compact_instant(s@),
        None => None,
    }
}

pub open spec fn opt_i64(o: Option<i64>) -> Option<int> {
    match o {
        Some(v) => Some(v as int),
        None => None,
    }
}

fn read_instant(f: &Option<String>) -> (r: Option<i64>)
    ensures
        opt_i64(r) == instant_field(*f),
{
    match f {
        Some(s) => parse_taskwarrior_datetime(s.as_str()),
        None => None,
    }
}

impl Task {
    /// Interprets an exported record. A uuid and a description are required;
    /// an unknown or missing status means pending; an unknown priority code
    /// means none; a missing or unreadable creation instant means `now`; the
    /// numeric id keeps its low 32 bits.
    pub fn from_record(rec: &TaskRecord, now: i64) -> (r: Result<Task, TaskError>)
        ensures
            rec.uuid is None ==> r == Err::<Task, TaskError>(TaskError::MissingUuid),
            rec.uuid is Some && rec.description is None ==> r == Err::<Task, TaskError>(
                TaskError::MissingDescription,
            ),
            rec.uuid is Some && rec.description is Some ==> r is Ok && {
                let t = r->Ok_0;
                &&& t.uuid@ == rec.uuid->0@
                &&& t.description@ == rec.description->0@
                &&& t.id == match rec.id {
                    Some(v) => Some((v % 0x1_0000_0000) as u32),
                    None => None,
                }
                &&& t.status == match rec.status {
                    Some(s) => status_named(lower_of(s@)),
                    None => TaskStatus::Pending,
                }
                &&& t.priority == match rec.priority {
                    Some(p) => priority_coded(upper_of(p@)),
                    None => None,
                }
                &&& (match rec.project {
                    Some(p) => t.project is Some && t.project->0@ == p@,
                    None => t.project is None,
                })
                &&& t.tags@.len() == rec.tags@.len()
                &&& forall|i: int| 0 <= i < t.tags@.len() ==> (#[trigger] t.tags@[i])@ == rec.tags@[i]@
                &&& t.entry as int == match instant_field(rec.entry) {
                    Some(v) => v,
                    None => now as int,
                }
                &&& opt_i64(t.due) == instant_field(rec.due)
                &&& opt_i64(t.modified) == instant_field(rec.modified)
                &&& opt_i64(t.start) == instant_field(rec.start)
                &&& opt_i64(t.end) == instant_field(rec.end)
                &&& opt_i64(t.wait) == instant_field(rec.wait)
                &&& opt_i64(t.scheduled) == instant_field(rec.scheduled)
                &&& opt_i64(t.until) == instant_field(rec.until)
                &&& t.depends@.len() == 0
            },
    {
        let uuid = match &rec.uuid {
            Some(u) => u.clone(),
            None => return Err(TaskError::MissingUuid),
        };
        let description = match &rec.description {
            Some(d) => d.clone(),
            None => return Err(TaskError::MissingDescription),
        };
        let id: Option<u32> = match rec.id {
            Some(v) => Some((v % 0x1_0000_0000) as u32),
            None => None,
        };
        let status = match &rec.status {
            Some(s) => TaskStatus::from_str(s.as_str()),
            None => TaskStatus::Pending,
        };
        let priority = match &rec.priority {
            Some(p) => Priority::from_str(p.as_str()),
            None => None,
        };
        let project: Option<String> = match &rec.project {
            Some(p) => Some(p.clone()),
            None => None,
        };
        let mut tags: Vec<String> = Vec::new();
        let mut i: usize = 0;
        while i < rec.tags.len()
            invariant
                i <= rec.tags@.len(),
                tags@.len() == i,
                forall|k: int| 0 <= k < i ==> (#[trigger] tags@[k])@ == rec.tags@[k]@,
            decreases rec.tags@.len() - i,
        {
            tags.push(rec.tags[i].clone());
            i = i + 1;
        }
        let mut annotations: Vec<Annotation> = Vec::new();
        let mut j: usize = 0;
        while j < rec.annotations.len()
            decreases rec.annotations@.len() - j,
        {
            let (at, text) = &rec.annotations[j];
            if let Some(when) = read_instant(at) {
                if let Some(d) = text {
                    annotations.push(Annotation { entry: when, description: d.clone() });
                }
            }
            j = j + 1;
        }
        let entry = match read_instant(&rec.entry) {
            Some(v) => v,
            None => now,
        };
        Ok(Task {
            id,
            uuid,
            status,
            description,
            project,
            priority,
            due: read_instant(&rec.due),
            entry,
            modified: read_instant(&rec.modified),
            end: read_instant(&rec.end),
            start: read_instant(&rec.start),
            wait: read_instant(&rec.wait),
            scheduled: read_instant(&rec.scheduled),
            until: read_instant(&rec.until),
            depends: Vec::new(),
            tags,
            annotations,
        })
    }
}

} // verus!
