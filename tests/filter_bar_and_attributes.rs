use lazytask::filter_bar::FilterBarWidget;
use lazytask::formatting::task_to_attributes;
use lazytask::handlers::Action;
use lazytask::model::{Priority, Task, TaskStatus};
use lazytask::task_list::TaskListWidget;
use lazytask::widgets::{FilterField, StatusFilterType};

fn task() -> Task {
    Task {
        id: None,
        uuid: "u".to_string(),
        status: TaskStatus::Pending,
        description: "Fix bike".to_string(),
        project: None,
        priority: None,
        due: None,
        entry: 0,
        modified: None,
        end: None,
        start: None,
        wait: None,
        scheduled: None,
        until: None,
        depends: Vec::new(),
        tags: Vec::new(),
        annotations: Vec::new(),
    }
}

fn pairs(v: &[(String, String)]) -> Vec<(&str, &str)> {
    v.iter().map(|(a, b)| (a.as_str(), b.as_str())).collect()
}

#[test]
fn attributes_clear_and_set_every_field() {
    let mut t = task();
    assert_eq!(
        pairs(&task_to_attributes(&t)),
        vec![("description", "Fix bike"), ("project", ""), ("priority", ""), ("tags", ""), ("due", "")]
    );
    t.project = Some("home".to_string());
    t.priority = Some(Priority::Low);
    t.tags = vec!["a".to_string(), "b".to_string()];
    t.due = Some(1_709_596_800 + 60);
    assert_eq!(
        pairs(&task_to_attributes(&t)),
        vec![
            ("description", "Fix bike"),
            ("project", "home"),
            ("priority", "L"),
            ("tags", ""),
            ("+a", ""),
            ("+b", ""),
            ("due", "2024-03-05"),
        ]
    );
}

#[test]
fn filter_bar_edits_fields() {
    let mut bar = FilterBarWidget::new();
    assert!(!bar.handle_input(Action::MoveDown));
    bar.toggle_visibility();
    assert!(bar.is_visible && bar.is_editing);
    assert!(bar.handle_input(Action::Character('o')));
    assert_eq!(bar.status_filter_type, StatusFilterType::Overdue);
    assert_eq!(bar.filter.is_overdue, Some(true));
    assert_eq!(bar.filter.status, Some(TaskStatus::Pending));
    assert!(bar.handle_input(Action::Back));
    assert!(!bar.is_editing);
    assert!(bar.handle_input(Action::Space));
    assert_eq!(bar.status_filter_type, StatusFilterType::Completed);
    assert_eq!(bar.filter.status, Some(TaskStatus::Completed));
    assert_eq!(bar.filter.is_overdue, None);
    assert!(bar.handle_input(Action::MoveDown));
    assert_eq!(bar.active_field, FilterField::Priority);
    assert!(bar.handle_input(Action::MoveRight));
    assert!(bar.handle_input(Action::Character('h')));
    assert_eq!(bar.filter.priority, Some(Priority::High));
    assert!(bar.handle_input(Action::Back));
    assert!(bar.handle_input(Action::MoveDown));
    assert_eq!(bar.active_field, FilterField::Project);
    assert!(!bar.handle_input(Action::Space));
    bar.handle_input(Action::MoveRight);
    for c in "  work  ".chars() {
        bar.handle_input(Action::Character(c));
    }
    assert!(bar.handle_input(Action::Select));
    assert_eq!(bar.filter.project.as_deref(), Some("work"));
    assert!(!bar.is_editing);
    bar.handle_input(Action::MoveDown);
    bar.handle_input(Action::MoveRight);
    for c in " x  yz ".chars() {
        bar.handle_input(Action::Character(c));
    }
    bar.handle_input(Action::Backspace);
    bar.handle_input(Action::Select);
    assert_eq!(bar.filter.tags, vec!["x".to_string(), "yz".to_string()]);
    assert!(!bar.handle_input(Action::Select));
    assert!(bar.handle_input(Action::Character('C')));
    assert_eq!(bar.filter.status, Some(TaskStatus::Pending));
    assert!(bar.filter.project.is_none());
    assert!(bar.filter.tags.is_empty());
    assert!(bar.project_input.is_empty());
    assert!(!bar.handle_input(Action::Quit));
    assert!(bar.handle_input(Action::Back));
    assert!(!bar.is_visible);
    bar.previous_field();
    assert_eq!(bar.active_field, FilterField::Project);
}

#[test]
fn filter_bar_options_and_list_widget() {
    let mut bar = FilterBarWidget::new();
    bar.update_available_options(vec!["p".to_string()], vec!["t".to_string()]);
    assert_eq!(bar.available_projects, vec!["p".to_string()]);
    assert_eq!(bar.get_filter().status, Some(TaskStatus::Pending));
    let mut list = TaskListWidget::new();
    assert!(list.selected_task().is_none());
    list.set_tasks(vec![task(), task()]);
    assert_eq!(list.selected, Some(0));
    list.previous();
    assert_eq!(list.selected, Some(1));
    list.set_tasks(Vec::new());
    assert_eq!(list.selected, None);
    list.next();
    assert_eq!(list.selected, None);
}
