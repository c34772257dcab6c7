use vstd::prelude::*;
use serde_json::Value;
use crate::model::{Task, Annotation};
use crate::record::{parse_taskwarrior_datetime, compact_instant};
use crate::record::{TaskRecord, TaskError};

verus! {

#[verifier::external_type_specification]
#[verifier::external_body]
pub struct ExValue(serde_json::Value);

/// Relies on `serde_json::Value::get` with a string key: the member of an
/// object, `None` for a missing key or a value that is not an object.
#[verifier::external_body]
fn member<'a>(v: &'a Value, key: &str) -> (r: Option<&'a Value>) {
    v.get(key)
}

/// Relies on `serde_json::Value::as_str`: the text of a string value.
#[verifier::external_body]
fn text_of(v: &Value) -> (r: Option<String>) {
    match v.as_str() {
        Some(s) => Some(s.to_string()),
        None => None,
    }
}

/// Relies on `serde_json::Value::as_u64`: a number that fits a `u64`.
#[verifier::external_body]
fn unsigned_of(v: &Value) -> (r: Option<u64>) {
    v.as_u64()
}

/// Relies on `serde_json::Value::as_array`: the elements of an array value.
#[verifier::external_body]
fn elements_of(v: &Value) -> (r: Option<&Vec<Value>>) {
    v.as_array()
}

fn text_member(v: &Value, key: &str) -> (r: Option<String>) {
    match member(v, key) {
        Some(m) => text_of(m),
        None => None,
    }
}

/// The string elements of the array under `key`; other elements are skipped.
fn text_list_member(v: &Value, key: &str) -> (r: Vec<String>) {
    let mut out: Vec<String> = Vec::new();
    if let Some(m) = member(v, key) {
        if let Some(items) = elements_of(m) {
            let mut i: usize = 0;
            while i < items.len()
                decreases items@.len() - i,
            {
                if let Some(s) = text_of(&items[i]) {
                    out.push(s);
                }
                i = i + 1;
            }
        }
    }
    out
}

/// Reads the fields of one exported task object.
pub fn record_from_json(json: &Value) -> (r: TaskRecord) {
    let id = match member(json, "id") {
        Some(m) => unsigned_of(m),
        None => None,
    };
    let mut annotations: Vec<(Option<String>, Option<String>)> = Vec::new();
    if let Some(m) = member(json, "annotations") {
        if let Some(items) = elements_of(m) {
            let mut i: usize = 0;
            while i < items.len()
                decreases items@.len() - i,
            {
                let entry = text_member(&items[i], "entry");
                let description = text_member(&items[i], "description");
                annotations.push((entry, description));
                i = i + 1;
            }
        }
    }
    TaskRecord {
        id,
        uuid: text_member(json, "uuid"),
        status: text_member(json, "status"),
        description: text_member(json, "description"),
        project: text_member(json, "project"),
        priority: text_member(json, "priority"),
        entry: text_member(json, "entry"),
        due: text_member(json, "due"),
        modified: text_member(json, "modified"),
        start: text_member(json, "start"),
        end: text_member(json, "end"),
        wait: text_member(json, "wait"),
        scheduled: text_member(json, "scheduled"),
        until: text_member(json, "until"),
        tags: text_list_member(json, "tags"),
        annotations,
    }
}

impl Task {
    /// Builds a task from one object of the task store's JSON export; see
    /// `Task::from_record` for how the fields are read. `now` stands in for a
    /// missing creation instant.
    pub fn from_json(json: &Value, now: i64) -> (r: Result<Task, TaskError>) {
        let rec = record_from_json(json);
        Task::from_record(&rec, now)
    }
}

/// An annotation read from its entry instant and description texts: both are
/// required, and the instant must be a compact UTC timestamp.
pub fn annotation_from_fields(entry: Option<String>, description: Option<String>) -> (r: Option<Annotation>)
    ensures
        r is Some <==> (entry is Some && description is Some && compact_instant(entry->0@) is Some),
        r is Some ==> compact_instant(entry->0@) == Some(r->0.entry as int) && r->0.description@
            == description->0@,
{
    match (entry, description) {
        (Some(e), Some(d)) => match parse_taskwarrior_datetime(e.as_str()) {
            Some(at) => Some(Annotation { entry: at, description: d }),
            None => None,
        },
        _ => None,
    }
}

impl Annotation {
    /// Reads one exported annotation object; see `annotation_from_fields`.
    pub fn from_json(json: &Value) -> (r: Option<Annotation>) {
        annotation_from_fields(text_member(json, "entry"), text_member(json, "description"))
    }
}

} // verus!
