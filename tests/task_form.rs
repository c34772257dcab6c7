use lazytask::handlers::Action;
use lazytask::model::{Priority, Task, TaskStatus};
use lazytask::model::copy_task;
use lazytask::task_form::{split_tags, TaskForm, TaskFormResult};
use lazytask::widgets::FormField;

fn type_text(form: &mut TaskForm, s: &str) {
    for c in s.chars() {
        form.handle_input(Action::Character(c));
    }
}

#[test]
fn tags_split_on_commas_and_spaces() {
    assert_eq!(split_tags(" a, b,,c  d "), vec!["a", "b", "c", "d"]);
    assert!(split_tags("  , ").is_empty());
    assert_eq!(split_tags("one"), vec!["one"]);
}

#[test]
fn new_form_builds_a_task() {
    let mut form = TaskForm::new_task();
    assert!(matches!(form.handle_input(Action::Select), None));
    assert!(!form.is_editing);
    assert!(matches!(form.handle_input(Action::Select), None));
    assert_eq!(form.active_field, FormField::Description);
    assert!(form.is_editing);
    type_text(&mut form, "Buy mlk");
    form.handle_input(Action::MoveLeft);
    form.handle_input(Action::MoveLeft);
    form.handle_input(Action::Character('i'));
    assert_eq!(form.description.text, "Buy milk");
    form.handle_input(Action::Tab);
    assert_eq!(form.active_field, FormField::Project);
    type_text(&mut form, "homex");
    form.handle_input(Action::Backspace);
    form.handle_input(Action::MoveDown);
    form.handle_input(Action::Character('m'));
    assert_eq!(form.priority_index, 2);
    form.handle_input(Action::MoveDown);
    type_text(&mut form, "03/05/2024");
    form.handle_input(Action::MoveDown);
    type_text(&mut form, "food,");
    form.handle_input(Action::Space);
    type_text(&mut form, "errand");
    form.handle_input(Action::Select);
    match form.handle_input(Action::Select) {
        Some(TaskFormResult::Save(t)) => {
            assert_eq!(t.description, "Buy milk");
            assert_eq!(t.project.as_deref(), Some("home"));
            assert_eq!(t.priority, Some(Priority::Medium));
            assert_eq!(t.due, Some(1_709_596_800));
            assert_eq!(t.tags, vec!["food".to_string(), "errand".to_string()]);
            assert_eq!(t.status, TaskStatus::Pending);
        }
        _ => panic!("expected a saved task"),
    }
    assert!(matches!(form.handle_input(Action::Back), Some(TaskFormResult::Cancel)));
}

#[test]
fn editing_keeps_other_fields() {
    let mut t = Task::new("Old".to_string());
    t.project = Some("p".to_string());
    t.priority = Some(Priority::High);
    t.tags = vec!["a".to_string(), "b".to_string()];
    t.due = Some(1_709_596_800 + 60);
    t.start = Some(5);
    let uuid = t.uuid.clone();
    let mut form = TaskForm::edit_task(t);
    assert_eq!(form.tags.text, "a, b");
    assert_eq!(form.due.text, "2024-03-05");
    assert_eq!(form.priority_index, 1);
    assert_eq!(form.get_cursor_position_for_field(), 3);
    form.handle_input(Action::Backspace);
    form.handle_input(Action::Backspace);
    form.handle_input(Action::Backspace);
    type_text(&mut form, "New");
    form.handle_input(Action::MoveUp);
    assert_eq!(form.active_field, FormField::Tags);
    form.handle_input(Action::MoveUp);
    assert_eq!(form.active_field, FormField::Due);
    type_text(&mut form, "x");
    let built = form.build_task();
    assert_eq!(built.description, "New");
    assert_eq!(built.uuid, uuid);
    assert_eq!(built.start, Some(5));
    assert_eq!(built.due, Some(1_709_596_800 + 60));
    assert_eq!(built.tags, vec!["a".to_string(), "b".to_string()]);
    let copy = copy_task(&built);
    assert_eq!(copy.uuid, built.uuid);
    assert_eq!(copy.tags, built.tags);
}
