use lazytask::app_ui::{AppUI, StoreCommand};
use lazytask::config::Config;
use lazytask::handlers::Action;
use lazytask::model::{Task, TaskStatus};
use lazytask::reports_view::ReportMode;
use lazytask::widgets::AppView;

const NOW: i64 = 1_700_000_000;

fn task(uuid: &str, id: Option<u32>, entry: i64) -> Task {
    let mut t = Task::new(format!("task {}", uuid));
    t.uuid = uuid.to_string();
    t.id = id;
    t.entry = entry;
    t
}

fn loaded() -> AppUI {
    let mut ui = AppUI::new(&Config::default());
    ui.load_tasks(vec![task("a", Some(1), NOW - 30), task("b", Some(2), NOW - 20), task("c", Some(3), NOW - 10)], NOW);
    ui
}

#[test]
fn loading_shows_pending_tasks_newest_first() {
    let ui = loaded();
    assert_eq!(ui.main_view.selected_task_uuid(), Some("c".to_string()));
    assert_eq!(ui.main_view.task_list_widget.len(), 3);
    assert_eq!(ui.reports_view.data_version, 1);
    assert_eq!(ui.reports_view.summary().map(|s| s.total), Some(3));
}

#[test]
fn done_asks_the_store_and_remembers_the_neighbour() {
    let mut ui = loaded();
    match ui.handle_action(Action::DoneTask, NOW, NOW / 86_400) {
        Some(StoreCommand::Done(id)) => assert_eq!(id, 3),
        _ => panic!("expected a done command"),
    }
    assert_eq!(ui.preserve_selection_uuid.as_deref(), Some("b"));
    let mut next = vec![task("a", Some(1), NOW - 30), task("b", Some(2), NOW - 20)];
    let mut c = task("c", None, NOW - 10);
    c.status = TaskStatus::Completed;
    next.push(c);
    ui.load_tasks(next, NOW);
    assert_eq!(ui.main_view.selected_task_uuid(), Some("b".to_string()));
    match ui.handle_action(Action::DeleteTask, NOW, 0) {
        Some(StoreCommand::Delete(id)) => assert_eq!(id, 2),
        _ => panic!("expected a delete command"),
    }
    ui.command_failed();
    assert!(ui.preserve_selection_uuid.is_none());
}

#[test]
fn form_round_trip() {
    let mut ui = loaded();
    assert!(ui.handle_action(Action::AddTask, NOW, 0).is_none());
    assert!(ui.task_form.is_some());
    for c in "Call".chars() {
        ui.handle_action(Action::Character(c), NOW, 0);
    }
    ui.handle_action(Action::Select, NOW, 0);
    match ui.handle_action(Action::Select, NOW, 0) {
        Some(StoreCommand::Add { description, attributes }) => {
            assert_eq!(description, "Call");
            assert_eq!(attributes[0], ("description".to_string(), "Call".to_string()));
        }
        _ => panic!("expected an add command"),
    }
    assert!(ui.task_form.is_none());
    ui.handle_action(Action::EditTask, NOW, 0);
    ui.handle_action(Action::Select, NOW, 0);
    match ui.handle_action(Action::Select, NOW, 0) {
        Some(StoreCommand::Modify { id, .. }) => assert_eq!(id, 3),
        _ => panic!("expected a modify command"),
    }
    assert_eq!(ui.preserve_selection_uuid.as_deref(), Some("c"));
    ui.handle_action(Action::AddTask, NOW, 0);
    assert!(ui.handle_action(Action::Back, NOW, 0).is_none());
    assert!(ui.task_form.is_none());
}

#[test]
fn views_filters_and_calendar() {
    let mut ui = loaded();
    ui.handle_action(Action::Filter, NOW, 0);
    assert!(ui.main_view.is_filter_focused());
    ui.handle_action(Action::Tab, NOW, 0);
    ui.handle_action(Action::Tab, NOW, 0);
    ui.handle_action(Action::Tab, NOW, 0);
    ui.handle_action(Action::Character('b'), NOW, 0);
    assert_eq!(ui.main_view.task_list_widget.len(), 1);
    assert_eq!(ui.main_view.selected_task_uuid(), Some("b".to_string()));
    ui.handle_action(Action::Character(' '), NOW, 0);
    ui.handle_action(Action::Character('b'), NOW, 0);
    assert_eq!(ui.main_view.criteria.search_text, "b b");
    assert_eq!(ui.main_view.task_list_widget.len(), 0);
    ui.handle_action(Action::Back, NOW, 0);
    assert!(!ui.main_view.is_filter_focused());
    assert!(matches!(ui.handle_action(Action::Refresh, NOW, 0), Some(StoreCommand::Reload)));
    ui.handle_action(Action::Reports, NOW, 0);
    assert_eq!(ui.current_view, AppView::Reports);
    ui.handle_action(Action::Context, NOW, 0);
    assert_eq!(ui.reports_view.mode, ReportMode::Calendar);
    ui.reports_view.selected_day = 100;
    ui.handle_action(Action::MoveRight, NOW, 0);
    ui.handle_action(Action::MoveDown, NOW, 0);
    assert_eq!(ui.reports_view.selected_day, 108);
    ui.handle_action(Action::Help, NOW, 0);
    assert_eq!(ui.current_view, AppView::Help);
    ui.handle_action(Action::Back, NOW, 0);
    assert_eq!(ui.current_view, AppView::TaskList);
    assert!(ui.handle_action(Action::Quit, NOW, 0).is_none());
}
