use lazytask::cache::TaskCache;
use lazytask::calendar::{daily_completions, day_mark, tasks_on_day, DayMark};
use lazytask::formatting::{csv_row, format_relative_date, parse_date, DateError, CSV_HEADER};
use lazytask::model::{Priority, Task, TaskStatus};
use lazytask::widgets::TaskDetailWidget;

const NOW: i64 = 1_700_000_000;
const DAY: i64 = 86_400;

fn task(uuid: &str, entry: i64) -> Task {
    Task {
        id: None,
        uuid: uuid.to_string(),
        status: TaskStatus::Pending,
        description: format!("about {}", uuid),
        project: None,
        priority: None,
        due: None,
        entry,
        modified: None,
        end: None,
        start: None,
        wait: None,
        scheduled: None,
        until: None,
        depends: Vec::new(),
        tags: Vec::new(),
        annotations: Vec::new(),
    }
}

#[test]
fn relative_dates() {
    assert_eq!(format_relative_date(NOW - 3 * DAY, NOW), "3 days ago");
    assert_eq!(format_relative_date(NOW - 5 * 3600, NOW), "5h ago");
    assert_eq!(format_relative_date(NOW - 150, NOW), "2m ago");
    assert_eq!(format_relative_date(NOW - 10, NOW), "Just now");
    assert_eq!(format_relative_date(NOW + 100, NOW), "Just now");
    let w = TaskDetailWidget::new();
    assert_eq!(w.format_relative_time(10), "1min");
    assert_eq!(w.format_relative_time(45 * 60), "45min");
    assert_eq!(w.format_relative_time(400 * DAY), "1y");
}

#[test]
fn typed_dates() {
    assert_eq!(parse_date("2024-03-05"), Ok(1_709_596_800));
    assert_eq!(parse_date("2024-03-05T10:00:00+02:00"), Ok(1_709_625_600));
    assert_eq!(parse_date("yesterday"), Err(DateError::Unreadable));
    assert_eq!(parse_date("2023-02-29"), Err(DateError::Unreadable));
}

#[test]
fn csv_lines() {
    let mut t = task("u-1", NOW);
    t.id = Some(12);
    t.project = Some("home".to_string());
    t.priority = Some(Priority::High);
    t.due = Some(1_709_596_800 + 3600);
    t.tags = vec!["a".to_string(), "b".to_string()];
    assert_eq!(csv_row(&t), "12,u-1,pending,about u-1,home,H,2024-03-05,a;b");
    let plain = task("v", NOW);
    assert_eq!(csv_row(&plain), ",v,pending,about v,,,,");
    assert_eq!(CSV_HEADER, "ID,UUID,Status,Description,Project,Priority,Due,Tags");
}

#[test]
fn burndown_counts_by_day() {
    let mut a = task("a", NOW - 40 * DAY);
    a.status = TaskStatus::Completed;
    a.end = Some(NOW - 3600);
    let mut b = task("b", NOW - 40 * DAY);
    b.status = TaskStatus::Completed;
    b.end = Some(NOW - 2 * DAY - 5);
    let mut c = task("c", NOW - 40 * DAY);
    c.status = TaskStatus::Completed;
    c.end = Some(NOW - 31 * DAY);
    let mut d = task("d", NOW - 40 * DAY);
    d.end = Some(NOW - 3600);
    let counts = daily_completions(&vec![a, b, c, d], NOW);
    assert_eq!(counts.len(), 30);
    assert_eq!(counts[29], 1);
    assert_eq!(counts[27], 1);
    assert_eq!(counts.iter().sum::<usize>(), 2);
}

#[test]
fn calendar_day_marks() {
    let day = NOW / DAY;
    let mut a = task("a", day * DAY + 100);
    a.status = TaskStatus::Completed;
    let mut b = task("b", day * DAY + 200);
    b.status = TaskStatus::Completed;
    let tasks = vec![a, b];
    assert_eq!(day_mark(&tasks_on_day(day, &tasks), NOW), DayMark::AllCompleted);
    assert_eq!(day_mark(&tasks_on_day(day + 1, &tasks), NOW), DayMark::Empty);
    let mut c = task("c", day * DAY + 300);
    c.due = Some(day * DAY + 400);
    let tasks = vec![tasks[0].clone(), c];
    assert_eq!(day_mark(&tasks_on_day(day, &tasks), day * DAY + 500), DayMark::Overdue);
    assert_eq!(day_mark(&tasks_on_day(day, &tasks), day * DAY + 350), DayMark::HasPending);
    let mut w = task("w", day * DAY);
    w.status = TaskStatus::Waiting;
    let tasks = vec![w];
    assert_eq!(day_mark(&tasks_on_day(day, &tasks), NOW), DayMark::Other);
}

#[test]
fn cache_entries_expire() {
    let mut cache = TaskCache::new(60);
    cache.insert(task("a", NOW), NOW);
    cache.insert(task("b", NOW), NOW + 30);
    assert_eq!(cache.get("a", NOW + 59).map(|t| t.uuid.clone()), Some("a".to_string()));
    assert!(cache.get("a", NOW + 60).is_none());
    assert!(cache.get("zzz", NOW).is_none());
    let mut newer = task("a", NOW);
    newer.description = "changed".to_string();
    cache.insert(newer, NOW + 50);
    assert_eq!(cache.entries.len(), 2);
    assert_eq!(cache.get("a", NOW + 100).map(|t| t.description.clone()), Some("changed".to_string()));
    cache.cleanup_expired(NOW + 95);
    assert_eq!(cache.entries.len(), 1);
    assert_eq!(cache.entries[0].task.uuid, "a");
    cache.remove("a");
    assert!(cache.entries.is_empty());
    cache.insert(task("c", NOW), NOW);
    cache.clear();
    assert!(cache.entries.is_empty());
}
