use lazytask::criteria::FilterCriteria;
use lazytask::main_view::MainView;
use lazytask::model::{Priority, Task, TaskStatus};
use lazytask::ordering::filter_tasks;
use lazytask::facets::{available_projects, available_tags};

const NOW: i64 = 1_700_000_000;
const DAY: i64 = 86_400;

fn task(uuid: &str, description: &str, status: TaskStatus, entry: i64) -> Task {
    Task {
        id: None,
        uuid: uuid.to_string(),
        status,
        description: description.to_string(),
        project: None,
        priority: None,
        due: None,
        entry,
        modified: None,
        end: None,
        start: None,
        wait: None,
        scheduled: None,
        until: None,
        depends: Vec::new(),
        tags: Vec::new(),
        annotations: Vec::new(),
    }
}

fn snapshot() -> Vec<Task> {
    let mut a = task("a", "Write report", TaskStatus::Pending, NOW - 3 * DAY);
    a.project = Some("work".to_string());
    a.tags = vec!["urgent".to_string()];
    let mut b = task("b", "Buy milk", TaskStatus::Pending, NOW - DAY);
    b.project = Some("home".to_string());
    let mut c = task("c", "File taxes", TaskStatus::Completed, NOW - 2 * DAY);
    c.project = Some("home".to_string());
    let mut d = task("d", "Plan trip", TaskStatus::Waiting, NOW - DAY);
    d.tags = vec!["travel".to_string(), "fun".to_string()];
    vec![a, b, c, d]
}

fn uuids(v: &[&Task]) -> Vec<String> {
    v.iter().map(|t| t.uuid.clone()).collect()
}

#[test]
fn empty_criteria_keep_every_task_newest_first() {
    let tasks = snapshot();
    let c = FilterCriteria::new();
    let r = filter_tasks(&tasks, &c, NOW);
    assert_eq!(uuids(&r), vec!["b", "d", "c", "a"]);
}

#[test]
fn refiltering_changes_nothing() {
    let tasks = snapshot();
    let mut c = FilterCriteria::new();
    c.statuses = vec![TaskStatus::Pending, TaskStatus::Waiting];
    let first: Vec<Task> = filter_tasks(&tasks, &c, NOW).into_iter().cloned().collect();
    let second = filter_tasks(&first, &c, NOW);
    let first_refs: Vec<&Task> = first.iter().collect();
    assert_eq!(uuids(&second), uuids(&first_refs));
    assert_eq!(uuids(&second), vec!["b", "d", "a"]);
}

#[test]
fn status_toggles_add_active_and_overdue_tasks() {
    let mut tasks = snapshot();
    tasks[2].start = Some(NOW - DAY);
    tasks[2].status = TaskStatus::Pending;
    let mut late = task("e", "Pay rent", TaskStatus::Pending, NOW - 10 * DAY);
    late.due = Some(NOW - 60);
    tasks.push(late);
    let mut c = FilterCriteria::new();
    c.statuses = vec![TaskStatus::Completed];
    c.filter_active = true;
    assert_eq!(uuids(&filter_tasks(&tasks, &c, NOW)), vec!["c"]);
    c.filter_overdue = true;
    assert_eq!(uuids(&filter_tasks(&tasks, &c, NOW)), vec!["c", "e"]);
}

#[test]
fn project_selection_is_exact() {
    let tasks = snapshot();
    let mut c = FilterCriteria::new();
    c.projects = vec!["hom".to_string()];
    assert!(filter_tasks(&tasks, &c, NOW).is_empty());
    c.projects = vec!["home".to_string()];
    assert_eq!(uuids(&filter_tasks(&tasks, &c, NOW)), vec!["b", "c"]);
}

#[test]
fn tag_selection_needs_any_one_tag() {
    let tasks = snapshot();
    let mut c = FilterCriteria::new();
    c.tags = vec!["fun".to_string(), "urgent".to_string()];
    assert_eq!(uuids(&filter_tasks(&tasks, &c, NOW)), vec!["d", "a"]);
}

#[test]
fn search_ignores_case_and_looks_at_project_and_tags() {
    let tasks = snapshot();
    let mut c = FilterCriteria::new();
    c.search_text = "MILK".to_string();
    assert_eq!(uuids(&filter_tasks(&tasks, &c, NOW)), vec!["b"]);
    c.search_text = "HOM".to_string();
    assert_eq!(uuids(&filter_tasks(&tasks, &c, NOW)), vec!["b", "c"]);
    c.search_text = "Trav".to_string();
    assert_eq!(uuids(&filter_tasks(&tasks, &c, NOW)), vec!["d"]);
}

#[test]
fn facets_come_from_open_tasks_sorted_and_unique() {
    let mut tasks = snapshot();
    let mut e = task("e", "Old", TaskStatus::Deleted, NOW);
    e.project = Some("archive".to_string());
    e.tags = vec!["zzz".to_string()];
    tasks.push(e);
    let mut f = task("f", "Again", TaskStatus::Recurring, NOW);
    f.project = Some("home".to_string());
    f.tags = vec!["fun".to_string()];
    tasks.push(f);
    assert_eq!(available_projects(&tasks), vec!["home".to_string(), "work".to_string()]);
    assert_eq!(
        available_tags(&tasks),
        vec!["fun".to_string(), "travel".to_string(), "urgent".to_string()]
    );
}

#[test]
fn selection_follows_the_task_while_it_matches() {
    let mut view = MainView::new();
    view.criteria.statuses = Vec::new();
    view.set_tasks_with_preserved_selection(snapshot(), Some("a"), NOW);
    assert_eq!(view.selected_task_uuid(), Some("a".to_string()));
    assert_eq!(view.selected_index(), Some(3));
    view.criteria.projects = vec!["work".to_string()];
    view.apply_filters(NOW);
    assert_eq!(view.selected_task_uuid(), Some("a".to_string()));
    assert_eq!(view.selected_index(), Some(0));
    view.criteria.projects = vec!["home".to_string()];
    view.apply_filters(NOW);
    assert_eq!(view.selected_index(), None);
    assert!(view.selected_task().is_none());
}

#[test]
fn without_a_uuid_the_first_row_is_selected() {
    let mut view = MainView::new();
    view.set_tasks_with_preserved_selection(snapshot(), None, NOW);
    assert_eq!(view.selected_task_uuid(), Some("b".to_string()));
    view.next_task();
    assert_eq!(view.selected_task_uuid(), Some("a".to_string()));
    view.next_task();
    assert_eq!(view.selected_task_uuid(), Some("b".to_string()));
    view.previous_task();
    assert_eq!(view.selected_task_uuid(), Some("a".to_string()));
}

#[test]
fn empty_list_has_no_selection() {
    let mut view = MainView::new();
    view.set_tasks_with_preserved_selection(Vec::new(), Some("a"), NOW);
    assert_eq!(view.selected_index(), None);
    view.set_tasks_with_preserved_selection(Vec::new(), None, NOW);
    assert_eq!(view.selected_index(), None);
}

#[test]
fn panel_toggles_edit_the_criteria() {
    let mut view = MainView::new();
    let tasks = snapshot();
    view.update_available_filters(&tasks);
    assert_eq!(view.criteria.statuses, vec![TaskStatus::Pending]);
    view.toggle_current_selection();
    assert!(view.criteria.statuses.is_empty());
    view.handle_filter_navigation_down();
    view.toggle_current_selection();
    assert!(view.criteria.filter_active);
    view.next_filter_section();
    view.handle_filter_navigation_down();
    view.toggle_current_selection();
    assert_eq!(view.criteria.projects, vec!["work".to_string()]);
    view.toggle_current_selection();
    assert!(view.criteria.projects.is_empty());
    view.next_filter_section();
    view.next_filter_section();
    view.handle_search_character('x');
    view.handle_search_character('y');
    view.handle_search_backspace();
    assert_eq!(view.criteria.search_text, "x");
}

#[test]
fn matches_filters_uses_the_view_criteria() {
    let view = MainView::new();
    let tasks = snapshot();
    assert!(view.matches_filters(&tasks[0], NOW));
    assert!(!view.matches_filters(&tasks[2], NOW));
    let mut p = task("p", "x", TaskStatus::Pending, NOW);
    p.priority = Some(Priority::Low);
    assert!(view.matches_filters(&p, NOW));
}
