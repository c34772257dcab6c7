use lazytask::calendar::{
    adjacent_month, month_cells, month_layout, month_name, weekday_from_monday,
    day_number, day_stats, navigate_date, shift_month, step_month, tasks_on_day, CalendarWidget,
    DateNavigation,
};
use lazytask::handlers::{NavigationHandler, TaskwarriorCLI};
use lazytask::model::{Priority, Task, TaskStatus};
use lazytask::screen::View;
use lazytask::validation::{
    truncate_text, validate_project_name, validate_tag_name, validate_task_description,
    ValidationError,
};
use lazytask::widgets::StatusBarWidget;

fn epoch_day(y: i32, m: u32, d: u32) -> i64 {
    chrono::NaiveDate::from_ymd_opt(y, m, d).unwrap().to_epoch_days() as i64
}

fn task(uuid: &str, entry: i64) -> Task {
    Task {
        id: None,
        uuid: uuid.to_string(),
        status: TaskStatus::Pending,
        description: "x".to_string(),
        project: None,
        priority: None,
        due: None,
        entry,
        modified: None,
        end: None,
        start: None,
        wait: None,
        scheduled: None,
        until: None,
        depends: Vec::new(),
        tags: Vec::new(),
        annotations: Vec::new(),
    }
}

#[test]
fn january_31_steps_to_end_of_february() {
    assert_eq!(shift_month(2023, 1, 31, true), (2023, 2, 28));
    assert_eq!(shift_month(2024, 1, 31, true), (2024, 2, 29));
    assert_eq!(shift_month(2024, 3, 31, false), (2024, 2, 29));
    assert_eq!(shift_month(2023, 12, 15, true), (2024, 1, 15));
    assert_eq!(shift_month(2023, 1, 15, false), (2022, 12, 15));
    assert_eq!(step_month(epoch_day(2023, 1, 31), true), epoch_day(2023, 2, 28));
    assert_eq!(step_month(epoch_day(2024, 1, 31), true), epoch_day(2024, 2, 29));
    assert_eq!(
        navigate_date(epoch_day(2024, 3, 31), DateNavigation::PrevMonth, 0),
        epoch_day(2024, 2, 29)
    );
}

#[test]
fn day_and_week_steps() {
    let d = epoch_day(2024, 2, 28);
    assert_eq!(navigate_date(d, DateNavigation::NextDay, 0), epoch_day(2024, 2, 29));
    assert_eq!(navigate_date(d, DateNavigation::PrevWeek, 0), epoch_day(2024, 2, 21));
    assert_eq!(navigate_date(d, DateNavigation::NextWeek, 0), epoch_day(2024, 3, 6));
    assert_eq!(navigate_date(d, DateNavigation::Today, 42), 42);
}

#[test]
fn day_numbers_floor_before_the_epoch() {
    assert_eq!(day_number(0), 0);
    assert_eq!(day_number(86_399), 0);
    assert_eq!(day_number(86_400), 1);
    assert_eq!(day_number(-1), -1);
    assert_eq!(day_number(-86_400), -1);
    assert_eq!(day_number(-86_401), -2);
}

#[test]
fn tasks_on_a_day_are_listed_once() {
    let day = epoch_day(2024, 5, 10);
    let noon = day * 86_400 + 12 * 3_600;
    let mut a = task("a", noon);
    a.due = Some(noon + 3_600);
    let mut b = task("b", noon - 10 * 86_400);
    b.status = TaskStatus::Completed;
    b.end = Some(noon);
    let mut c = task("c", noon - 10 * 86_400);
    c.due = Some(noon + 86_400);
    let tasks = vec![a, b, c];
    let on: Vec<String> = tasks_on_day(day, &tasks).iter().map(|t| t.uuid.clone()).collect();
    assert_eq!(on, vec!["a", "b"]);
    let s = day_stats(day, &tasks, noon);
    assert_eq!((s.total, s.pending, s.completed, s.deleted), (2, 1, 1, 0));
    assert_eq!((s.due, s.completed_today, s.created), (1, 1, 1));
    let w = CalendarWidget::new(day + 1, tasks);
    assert_eq!(w.get_tasks_for_date(day + 1).len(), 1);
    assert_eq!(w.daily_stats(noon).due, 1);
    assert_eq!(s.overdue, 0);
    assert_eq!(s.urgency_sum, 10 + 50 + 10);
    let later = day_stats(day, &w.tasks, noon + 2 * 3_600);
    assert_eq!(later.overdue, 1);
    assert_eq!(later.urgency_sum, 10 + 120 + 10);
}

#[test]
fn reports_view_steps_true_months() {
    let mut view = lazytask::reports_view::ReportsView::new();
    view.selected_day = epoch_day(2025, 1, 31);
    view.navigate_date(DateNavigation::NextMonth, 0);
    assert_eq!(view.selected_day, epoch_day(2025, 2, 28));
    view.selected_day = epoch_day(2024, 1, 31);
    view.navigate_date(DateNavigation::NextMonth, 0);
    assert_eq!(view.selected_day, epoch_day(2024, 2, 29));
    view.selected_day = epoch_day(2025, 3, 31);
    view.navigate_date(DateNavigation::PrevMonth, 0);
    assert_eq!(view.selected_day, epoch_day(2025, 2, 28));
    view.navigate_date(DateNavigation::NextDay, 0);
    assert_eq!(view.selected_day, epoch_day(2025, 3, 1));
}

#[test]
fn status_and_priority_names() {
    assert_eq!(TaskStatus::from_str("Completed"), TaskStatus::Completed);
    assert_eq!(TaskStatus::from_str("WAITING"), TaskStatus::Waiting);
    assert_eq!(TaskStatus::from_str("whatever"), TaskStatus::Pending);
    assert_eq!(TaskStatus::Recurring.as_str(), "recurring");
    assert_eq!(Priority::from_str("h"), Some(Priority::High));
    assert_eq!(Priority::from_str("m"), Some(Priority::Medium));
    assert_eq!(Priority::from_str("x"), None);
    assert_eq!(Priority::Low.as_str(), "L");
    assert_eq!(Priority::Medium.as_char(), 'M');
}

#[test]
fn computed_predicates() {
    let mut t = task("t", 0);
    assert!(!t.is_active());
    t.start = Some(10);
    assert!(t.is_active());
    t.due = Some(100);
    assert!(t.is_overdue(101));
    assert!(!t.is_overdue(100));
    t.status = TaskStatus::Completed;
    assert!(!t.is_overdue(101));
    assert!(!t.is_active());
    assert!(!t.is_blocked());
    t.depends = vec!["other".to_string()];
    assert!(t.is_blocked());
}

#[test]
fn new_task_is_pending_with_a_uuid() {
    let t = Task::new("Call mom".to_string());
    assert_eq!(t.status, TaskStatus::Pending);
    assert_eq!(t.uuid.len(), 36);
    assert_eq!(t.description, "Call mom");
    assert!(t.entry > 1_600_000_000);
}

#[test]
fn validation_errors() {
    assert_eq!(validate_task_description("  \t "), Err(ValidationError::Empty));
    assert_eq!(validate_task_description(&"a".repeat(1001)), Err(ValidationError::TooLong));
    assert_eq!(validate_task_description(&"a".repeat(1000)), Ok(()));
    assert_eq!(validate_task_description(&"\u{e9}".repeat(500)), Ok(()));
    assert_eq!(validate_task_description(&"\u{e9}".repeat(501)), Err(ValidationError::TooLong));
    assert_eq!(validate_project_name(""), Err(ValidationError::Empty));
    assert_eq!(validate_project_name("my project"), Err(ValidationError::HasSpace));
    assert_eq!(validate_project_name("home/work"), Err(ValidationError::BadCharacter));
    assert_eq!(validate_project_name("home.work_2-x"), Ok(()));
    assert_eq!(validate_tag_name("a.b"), Err(ValidationError::BadCharacter));
    assert_eq!(validate_tag_name("next_week-1"), Ok(()));
    assert_eq!(validate_tag_name("a b"), Err(ValidationError::HasSpace));
}

#[test]
fn truncation() {
    assert_eq!(truncate_text("short", 10), "short");
    assert_eq!(truncate_text("a long description", 10), "a long ...");
    assert_eq!(truncate_text("abcdef", 2), "...");
}

#[test]
fn navigation_stack() {
    let mut n = NavigationHandler::new();
    assert_eq!(*n.current_view(), View::TaskList);
    n.navigate_to(View::Reports);
    n.navigate_to(View::Help);
    assert_eq!(*n.current_view(), View::Help);
    assert!(n.go_back());
    assert_eq!(*n.current_view(), View::Reports);
    assert!(n.go_back());
    assert!(!n.go_back());
    assert_eq!(*n.current_view(), View::TaskList);
}

#[test]
fn small_constructors() {
    let cli = TaskwarriorCLI::new(Some("/tmp/taskrc".to_string()));
    assert_eq!(cli.taskrc_path.as_deref(), Some("/tmp/taskrc"));
    assert!(StatusBarWidget::new().text().contains("[q]uit"));
    let c: lazytask::config::Config = Default::default();
    assert_eq!(c.ui.refresh_interval, 1000);
    assert_eq!(c.keybindings.global.get("quit").map(|s| s.as_str()), Some("q"));
}

#[test]
fn month_pages() {
    assert_eq!(weekday_from_monday(0), 3);
    assert_eq!(weekday_from_monday(-1), 2);
    assert_eq!(weekday_from_monday(epoch_day(2024, 4, 1)), 0);
    let cells = month_cells(3, 30);
    assert_eq!(cells.len(), 35);
    assert_eq!(&cells[..5], &[0, 0, 0, 1, 2]);
    assert_eq!(cells[32], 30);
    assert_eq!(cells[33], 0);
    let feb = month_layout(2024, 2).unwrap();
    assert_eq!(feb.len(), 35);
    assert_eq!(feb[3], 1);
    assert_eq!(feb[31], 29);
    assert!(month_layout(300_000, 1).is_none());
    assert_eq!(adjacent_month(2024, 12, true), (2025, 1));
    assert_eq!(adjacent_month(2024, 1, false), (2023, 12));
    assert_eq!(month_name(9), "September");
    assert_eq!(month_name(13), "Unknown");
}
