use lazytask::activity::{recent_activity, ActivityKind, age_text, decimal_text};
use lazytask::model::{Priority, Task, TaskStatus};
use lazytask::reports::{
    calculate_project_stats, calculate_summary, project_table_order, project_urgency, ProjectStats,
};
use lazytask::reports_view::{ReportMode, ReportsView};
use lazytask::urgency::calculate_urgency;

const NOW: i64 = 1_700_000_000;
const DAY: i64 = 86_400;
const HOUR: i64 = 3_600;

fn task(uuid: &str, status: TaskStatus, entry: i64) -> Task {
    Task {
        id: Some(1),
        uuid: uuid.to_string(),
        status,
        description: format!("task {}", uuid),
        project: None,
        priority: None,
        due: None,
        entry,
        modified: None,
        end: None,
        start: None,
        wait: None,
        scheduled: None,
        until: None,
        depends: Vec::new(),
        tags: Vec::new(),
        annotations: Vec::new(),
    }
}

#[test]
fn urgency_of_high_priority_overdue_task() {
    let mut t = task("u", TaskStatus::Pending, NOW - 10 * DAY);
    t.priority = Some(Priority::High);
    t.project = Some("work".to_string());
    t.tags = vec!["one".to_string()];
    t.due = Some(NOW - DAY);
    assert_eq!(calculate_urgency(&t, NOW), 210);
    assert_eq!(calculate_urgency(&t, NOW) as f64 / 10.0, 21.0);
}

#[test]
fn urgency_tiers_do_not_stack() {
    let mut t = task("u", TaskStatus::Pending, NOW);
    assert_eq!(calculate_urgency(&t, NOW), 10);
    t.priority = Some(Priority::Medium);
    t.due = Some(NOW + 3 * DAY);
    assert_eq!(calculate_urgency(&t, NOW), 10 + 39 + 50);
    t.priority = Some(Priority::Low);
    t.due = Some(NOW + 20 * DAY);
    t.start = Some(NOW - HOUR);
    assert_eq!(calculate_urgency(&t, NOW), 10 + 18 + 40 + 20);
    t.due = Some(NOW + 40 * DAY);
    assert_eq!(calculate_urgency(&t, NOW), 10 + 18 + 40);
}

#[test]
fn completion_rate_without_live_tasks_is_zero() {
    let s = ProjectStats { pending: 0, completed: 0, deleted: 3, total: 3 };
    assert_eq!(s.completion_rate(), 0);
    let s = ProjectStats { pending: 1, completed: 2, deleted: 5, total: 8 };
    assert_eq!(s.completion_rate(), 6666);
}

#[test]
fn project_stats_group_and_collapse_statuses() {
    let mut a = task("a", TaskStatus::Pending, NOW);
    a.project = Some("home".to_string());
    let mut b = task("b", TaskStatus::Waiting, NOW);
    b.project = Some("home".to_string());
    let mut c = task("c", TaskStatus::Completed, NOW);
    c.project = Some("home".to_string());
    let d = task("d", TaskStatus::Deleted, NOW);
    let r = calculate_project_stats(&vec![a, b, c, d]);
    assert_eq!(r.names, vec!["home".to_string(), "(no project)".to_string()]);
    assert_eq!(r.stats[0], ProjectStats { pending: 2, completed: 1, deleted: 0, total: 3 });
    assert_eq!(r.stats[1], ProjectStats { pending: 0, completed: 0, deleted: 1, total: 1 });
    assert_eq!(r.stats[1].completion_rate(), 0);
}

#[test]
fn summary_counts_and_average() {
    let mut a = task("a", TaskStatus::Pending, NOW - 2 * DAY);
    a.priority = Some(Priority::High);
    a.start = Some(NOW - HOUR);
    let mut b = task("b", TaskStatus::Completed, NOW - 20 * DAY);
    b.end = Some(NOW - DAY);
    let mut c = task("c", TaskStatus::Pending, NOW - 30 * DAY);
    c.due = Some(NOW - HOUR);
    let s = calculate_summary(&vec![a, b, c], 7, NOW);
    assert_eq!(s.total, 3);
    assert_eq!(s.pending, 2);
    assert_eq!(s.completed, 1);
    assert_eq!(s.active, 1);
    assert_eq!(s.overdue, 1);
    assert_eq!(s.high_priority, 1);
    assert_eq!(s.no_priority, 2);
    assert_eq!(s.recent_tasks, 1);
    assert_eq!(s.completed_this_week, 1);
    assert_eq!(s.urgency_sum, (10 + 60 + 40) + 10 + (10 + 120));
    assert_eq!(s.average_urgency(), 250 / 3);
    assert_eq!(s.version, 7);
}

#[test]
fn empty_summary_has_zero_average() {
    let s = calculate_summary(&Vec::new(), 0, NOW);
    assert_eq!(s.total, 0);
    assert_eq!(s.average_urgency(), 0);
}

#[test]
fn stale_cache_is_reported() {
    let tasks = vec![task("a", TaskStatus::Pending, NOW)];
    let s = calculate_summary(&tasks, 4, NOW);
    assert!(s.is_valid(4));
    assert!(!s.is_valid(5));
}

#[test]
fn reports_view_serves_only_current_cache() {
    let mut view = ReportsView::new();
    assert!(view.summary().is_none());
    view.update_tasks(&vec![task("a", TaskStatus::Pending, NOW)], NOW);
    assert_eq!(view.data_version, 1);
    assert_eq!(view.summary().map(|s| s.total), Some(1));
    view.data_version += 1;
    assert!(view.summary().is_none());
    view.update_tasks(&Vec::new(), NOW);
    assert_eq!(view.summary().map(|s| s.version), Some(3));
    view.toggle_mode();
    assert_eq!(view.mode, ReportMode::Calendar);
    assert!(view.is_calendar_mode());
}

#[test]
fn recent_completion_sorts_before_older_creation() {
    let mut done = task("done", TaskStatus::Completed, NOW - 30 * DAY);
    done.end = Some(NOW - 2 * HOUR);
    let made = task("made", TaskStatus::Pending, NOW - DAY);
    let feed = recent_activity(&vec![made, done], NOW, 10);
    assert_eq!(feed.len(), 2);
    assert_eq!(feed[0].kind, ActivityKind::Completed);
    assert_eq!(feed[0].task_index, 1);
    assert_eq!(feed[0].label, "2h ago");
    assert_eq!(feed[1].kind, ActivityKind::Created);
    assert_eq!(feed[1].task_index, 0);
    assert_eq!(feed[1].label, "1d ago");
}

#[test]
fn feed_windows_and_limit() {
    let mut old_done = task("a", TaskStatus::Completed, NOW - 30 * DAY);
    old_done.end = Some(NOW - 8 * DAY);
    let old_made = task("b", TaskStatus::Pending, NOW - 4 * DAY);
    let fresh = task("c", TaskStatus::Pending, NOW - 5 * 60);
    let mut both = task("d", TaskStatus::Completed, NOW - 2 * DAY);
    both.end = Some(NOW - 3 * DAY);
    let feed = recent_activity(&vec![old_done, old_made, fresh, both], NOW, 10);
    let got: Vec<(usize, ActivityKind)> = feed.iter().map(|e| (e.task_index, e.kind)).collect();
    assert_eq!(
        got,
        vec![(2, ActivityKind::Created), (3, ActivityKind::Created), (3, ActivityKind::Completed)]
    );
    assert_eq!(feed[0].label, "5min ago");
    let short = recent_activity(&vec![task("x", TaskStatus::Pending, NOW), task("y", TaskStatus::Pending, NOW)], NOW, 1);
    assert_eq!(short.len(), 1);
    assert_eq!(short[0].task_index, 0);
}

#[test]
fn age_labels_and_numbers() {
    assert_eq!(age_text(59), "0min ago");
    assert_eq!(age_text(59 * 60), "59min ago");
    assert_eq!(age_text(60 * 60), "1h ago");
    assert_eq!(age_text(3 * DAY as i128 + 5), "3d ago");
    assert_eq!(age_text(-120), "-2min ago");
    assert_eq!(decimal_text(0), "0");
    assert_eq!(decimal_text(1207), "1207");
    assert_eq!(decimal_text(-45), "-45");
}

#[test]
fn project_table_rows() {
    let mut a = task("a", TaskStatus::Pending, NOW);
    a.project = Some("one".to_string());
    let mut b = task("b", TaskStatus::Pending, NOW);
    b.project = Some("two".to_string());
    b.priority = Some(Priority::High);
    let mut c = task("c", TaskStatus::Completed, NOW);
    c.project = Some("two".to_string());
    let d = task("d", TaskStatus::Pending, NOW);
    let tasks = vec![a, b, c, d];
    let report = calculate_project_stats(&tasks);
    assert_eq!(report.names, vec!["one".to_string(), "two".to_string(), "(no project)".to_string()]);
    assert_eq!(project_table_order(&report), vec![1, 0, 2]);
    assert_eq!(project_urgency(&tasks, &"two".to_string(), report.stats[1].pending, NOW), 10 + 60 + 10);
    assert_eq!(project_urgency(&tasks, &"(no project)".to_string(), 1, NOW), 10);
    assert_eq!(project_urgency(&tasks, &"none".to_string(), 0, NOW), 0);
}
