use lazytask::commands::{
    add_task_args, created_task_id, delete_task_args, done_task_args, modify_task_args, KeyBindings,
    KeyCode, KeyPress,
};
use lazytask::config::Config;
use lazytask::handlers::{Action, InputHandler};

fn attrs(v: &[(&str, &str)]) -> Vec<(String, String)> {
    v.iter().map(|(a, b)| (a.to_string(), b.to_string())).collect()
}

#[test]
fn command_arguments() {
    let a = attrs(&[("project", "home"), ("+urgent", ""), ("priority", "")]);
    assert_eq!(add_task_args("Buy milk", &a), vec!["add", "Buy milk", "project:home", "+urgent", "priority"]);
    assert_eq!(modify_task_args(7, &a), vec!["7", "modify", "project:home", "+urgent", "priority:"]);
    assert_eq!(done_task_args(12), vec!["12", "done"]);
    assert_eq!(delete_task_args(3), vec!["3", "delete", "rc.confirmation=no"]);
}

#[test]
fn created_ids() {
    assert_eq!(created_task_id("Created task 42."), Some(42));
    assert_eq!(created_task_id("Created task 42"), Some(42));
    assert_eq!(created_task_id("7 Created task 42."), Some(42));
    assert_eq!(created_task_id("Nothing here"), None);
    assert_eq!(created_task_id("Created task 99999999999."), None);
    assert_eq!(created_task_id("Created ."), None);
}

#[test]
fn key_mapping() {
    let h = InputHandler::new(&Config::default());
    let key = |code| KeyPress { code, ctrl: false };
    assert_eq!(h.handle_key_event(key(KeyCode::Char('q'))), Action::Quit);
    assert_eq!(h.handle_key_event(key(KeyCode::Char('c'))), Action::Context);
    assert_eq!(h.handle_key_event(KeyPress { code: KeyCode::Char('c'), ctrl: true }), Action::Quit);
    assert_eq!(h.handle_key_event(key(KeyCode::F(5))), Action::Refresh);
    assert_eq!(h.handle_key_event(key(KeyCode::F(2))), Action::NoOp);
    assert_eq!(h.handle_key_event(key(KeyCode::Delete)), Action::DeleteTask);
    assert_eq!(h.handle_key_event(key(KeyCode::Char('t'))), Action::Character('t'));
    assert_eq!(h.handle_key_event_with_context(key(KeyCode::Char('q')), true), Action::Character('q'));
    assert_eq!(h.handle_key_event_with_context(key(KeyCode::Char(' ')), true), Action::Space);
    assert_eq!(h.handle_key_event_with_context(key(KeyCode::BackTab), true), Action::MoveUp);
    assert_eq!(h.handle_key_event_with_context(key(KeyCode::Delete), true), Action::NoOp);
}

#[test]
fn default_key_bindings() {
    let b = KeyBindings::new();
    assert_eq!(b.get("quit"), Some(&KeyPress { code: KeyCode::Char('q'), ctrl: false }));
    assert_eq!(b.get("help"), Some(&KeyPress { code: KeyCode::F(1), ctrl: false }));
    assert_eq!(b.get("other"), None);
    assert!(b.matches(&KeyPress { code: KeyCode::Char('q'), ctrl: false }, "quit"));
    assert!(!b.matches(&KeyPress { code: KeyCode::Char('q'), ctrl: true }, "quit"));
    assert!(!b.matches(&KeyPress { code: KeyCode::Char('q'), ctrl: false }, "help"));
}
