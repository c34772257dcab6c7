use lazytask::activity::{activity_title, next_due_text, ActivityKind};
use lazytask::filters::TaskFilter;
use lazytask::model::{Annotation, Priority, Task, TaskStatus};
use lazytask::record::{parse_taskwarrior_datetime, TaskError, TaskRecord};
use lazytask::table::{RowStyle, TaskTableFormatter};

const NOW: i64 = 1_700_000_000;
const DAY: i64 = 86_400;

fn blank_record() -> TaskRecord {
    TaskRecord {
        id: None,
        uuid: None,
        status: None,
        description: None,
        project: None,
        priority: None,
        entry: None,
        due: None,
        modified: None,
        start: None,
        end: None,
        wait: None,
        scheduled: None,
        until: None,
        tags: Vec::new(),
        annotations: Vec::new(),
    }
}

fn task(uuid: &str) -> Task {
    let mut r = blank_record();
    r.uuid = Some(uuid.to_string());
    r.description = Some(format!("task {}", uuid));
    Task::from_record(&r, NOW).unwrap()
}

#[test]
fn compact_timestamps() {
    assert_eq!(parse_taskwarrior_datetime("20251007T192937Z"), Some(1_759_865_377));
    assert_eq!(parse_taskwarrior_datetime("19700101T000000Z"), Some(0));
    assert_eq!(parse_taskwarrior_datetime("20240229T120000Z"), Some(1_709_208_000));
    assert_eq!(parse_taskwarrior_datetime("20230229T120000Z"), None);
    assert_eq!(parse_taskwarrior_datetime("20251007T246000Z"), None);
    assert_eq!(parse_taskwarrior_datetime("20251007T192960Z"), Some(1_759_865_399));
    assert_eq!(parse_taskwarrior_datetime("20251007T192961Z"), None);
    assert_eq!(parse_taskwarrior_datetime("2025-10-07T19:29Z"), None);
    assert_eq!(parse_taskwarrior_datetime("20251007X192937Z"), None);
    assert_eq!(parse_taskwarrior_datetime(""), None);
}

#[test]
fn records_need_uuid_and_description() {
    let mut r = blank_record();
    assert_eq!(Task::from_record(&r, NOW).err(), Some(TaskError::MissingUuid));
    r.uuid = Some("u".to_string());
    assert_eq!(Task::from_record(&r, NOW).err(), Some(TaskError::MissingDescription));
    r.description = Some("Do it".to_string());
    r.status = Some("Completed".to_string());
    r.priority = Some("m".to_string());
    r.entry = Some("20251007T192937Z".to_string());
    r.due = Some("not a date".to_string());
    r.id = Some(7);
    r.tags = vec!["a".to_string(), "b".to_string()];
    r.annotations = vec![
        (Some("20251008T000000Z".to_string()), Some("note".to_string())),
        (None, Some("dropped".to_string())),
    ];
    let t = Task::from_record(&r, NOW).unwrap();
    assert_eq!(t.status, TaskStatus::Completed);
    assert_eq!(t.priority, Some(Priority::Medium));
    assert_eq!(t.entry, 1_759_865_377);
    assert_eq!(t.due, None);
    assert_eq!(t.id, Some(7));
    assert_eq!(t.tags, vec!["a".to_string(), "b".to_string()]);
    assert_eq!(t.annotations.len(), 1);
    assert_eq!(t.annotations[0].description, "note");
    r.entry = None;
    assert_eq!(Task::from_record(&r, NOW).unwrap().entry, NOW);
}

#[test]
fn json_export_objects() {
    let v: serde_json::Value = serde_json::from_str(
        r#"{"id": 3, "uuid": "abc", "description": "Read", "status": "waiting",
            "project": "home", "tags": ["x", 5, "y"], "due": "20240101T000000Z"}"#,
    )
    .unwrap();
    let t = Task::from_json(&v, NOW).unwrap();
    assert_eq!(t.uuid, "abc");
    assert_eq!(t.id, Some(3));
    assert_eq!(t.status, TaskStatus::Waiting);
    assert_eq!(t.project.as_deref(), Some("home"));
    assert_eq!(t.tags, vec!["x".to_string(), "y".to_string()]);
    assert_eq!(t.due, Some(1_704_067_200));
    assert_eq!(t.entry, NOW);
    let missing: serde_json::Value = serde_json::from_str(r#"{"uuid": "abc"}"#).unwrap();
    assert_eq!(Task::from_json(&missing, NOW).err(), Some(TaskError::MissingDescription));
}

#[test]
fn task_filter_requires_every_set_field() {
    let mut a = task("a");
    a.project = Some("homework".to_string());
    a.tags = vec!["x".to_string(), "y".to_string()];
    a.due = Some(NOW + DAY);
    a.description = "Read BOOK".to_string();
    let mut b = task("b");
    b.status = TaskStatus::Completed;
    let tasks = vec![a, b];
    let mut f = TaskFilter::new();
    assert_eq!(f.apply(&tasks, NOW).len(), 1);
    f.project = Some("work".to_string());
    f.tags = vec!["y".to_string()];
    f.description_contains = Some("book".to_string());
    f.due_before = Some(NOW + 2 * DAY);
    f.is_overdue = Some(false);
    assert!(f.matches(&tasks[0], NOW));
    f.tags = vec!["y".to_string(), "z".to_string()];
    assert!(!f.matches(&tasks[0], NOW));
    f.tags = Vec::new();
    f.due_after = Some(NOW + DAY);
    assert!(!f.matches(&tasks[0], NOW));
    f.due_after = None;
    f.priority = Some(Priority::High);
    assert!(!f.matches(&tasks[0], NOW));
    f.priority = None;
    f.status = None;
    f.project = None;
    f.description_contains = None;
    f.due_before = None;
    let all: Vec<String> = f.apply(&tasks, NOW).iter().map(|t| t.uuid.clone()).collect();
    assert_eq!(all, vec!["a", "b"]);
}

#[test]
fn table_cells() {
    let f = TaskTableFormatter::new();
    assert_eq!(f.headers(), vec!["ID", "Project", "Priority", "Due", "Description"]);
    assert_eq!(f.format_id(Some(42)), "42");
    assert_eq!(f.format_id(None), "");
    assert_eq!(f.format_status(&TaskStatus::Waiting), "W");
    assert_eq!(f.format_priority(&Some(Priority::High)), "H");
    assert_eq!(f.format_priority(&None), " ");
    assert_eq!(f.format_priority_full(&Some(Priority::Medium)), "Medium");
    assert_eq!(f.format_project(&Some("a-very-long-project".to_string())), "a-very-long...");
    assert_eq!(f.format_project(&Some("short".to_string())), "short");
    assert_eq!(f.format_tags(&vec!["ab".to_string(), "cd".to_string()]), "ab,cd");
    assert_eq!(f.format_tags(&vec!["abc".to_string(), "def".to_string()]), "abc,def");
    assert_eq!(f.format_tags(&vec!["abcd".to_string(), "efgh".to_string()]), "abcd...");
    assert_eq!(f.format_description(&"x".repeat(46)), format!("{}...", "x".repeat(42)));
    assert_eq!(f.format_age(30), "1m");
    assert_eq!(f.format_age(3 * 3600), "3h");
    assert_eq!(f.format_age(20 * DAY), "20d");
    assert_eq!(f.format_age(50 * DAY), "7w");
    assert_eq!(f.format_age(100 * DAY), "3mo");
    assert_eq!(f.format_age(800 * DAY), "2y");
}

#[test]
fn due_cells_and_row_styles() {
    let f = TaskTableFormatter::new();
    let today = NOW / DAY;
    let noon = today * DAY + 43_200;
    assert_eq!(f.format_due(Some(noon - 2 * DAY), today), "-2d");
    assert_eq!(f.format_due(Some(noon + 3 * DAY), today), "3d");
    assert_eq!(f.format_due(None, today), "");
    let day = chrono::NaiveDate::from_ymd_opt(2024, 3, 5).unwrap().to_epoch_days() as i64;
    assert_eq!(f.format_due(Some(day * DAY), day - 30), "03/05");
    let mut t = task("t");
    assert_eq!(f.get_row_style(&t, today), RowStyle::Normal);
    t.priority = Some(Priority::Low);
    assert_eq!(f.get_row_style(&t, today), RowStyle::LowPriority);
    t.due = Some(noon + DAY);
    assert_eq!(f.get_row_style(&t, today), RowStyle::DueSoon);
    t.priority = Some(Priority::High);
    assert_eq!(f.get_row_style(&t, today), RowStyle::Critical);
    t.due = Some(noon + 5 * DAY);
    assert_eq!(f.get_row_style(&t, today), RowStyle::HighPriority);
    t.priority = None;
    t.status = TaskStatus::Completed;
    assert_eq!(f.get_row_style(&t, today), RowStyle::Completed);
    assert!(f.is_due_within_days(Some(noon + DAY), 1, today));
    assert!(f.is_due_today(Some(noon), today));
    assert!(f.is_due_tomorrow(Some(noon + DAY), today));
    assert!(f.is_overdue(Some(noon - DAY), today));
}

#[test]
fn activity_titles_and_due_labels() {
    let mut t = task("t");
    assert_eq!(activity_title(&t, ActivityKind::Completed), "Completed (no project)");
    assert_eq!(activity_title(&t, ActivityKind::Created), "Task added");
    t.project = Some("home".to_string());
    t.tags = vec!["x".to_string()];
    t.due = Some(NOW);
    t.priority = Some(Priority::High);
    assert_eq!(activity_title(&t, ActivityKind::Completed), "Completed in [home]");
    assert_eq!(activity_title(&t, ActivityKind::Created), "Task+tags+due added to [home] [H]");
    assert_eq!(next_due_text(-3 * DAY as i128), "3d ago");
    assert_eq!(next_due_text(3600), "Today");
    assert_eq!(next_due_text(DAY as i128 + 5), "Tomorrow");
    assert_eq!(next_due_text(9 * DAY as i128), "9d");
}

#[test]
fn annotation_objects() {
    let v: serde_json::Value =
        serde_json::from_str(r#"{"entry": "19700102T000000Z", "description": "note"}"#).unwrap();
    let a = Annotation::from_json(&v).unwrap();
    assert_eq!(a.entry, 86_400);
    assert_eq!(a.description, "note");
    let no_entry: serde_json::Value = serde_json::from_str(r#"{"description": "note"}"#).unwrap();
    assert!(Annotation::from_json(&no_entry).is_none());
}
