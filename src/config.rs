use vstd::prelude::*;
use std::collections::HashMap;

verus! {

/// Settings of the application, as read from its configuration file.
#[derive(Debug, Clone)]
pub struct Config {
    pub theme: ThemeConfig,
    pub keybindings: KeyBindingsConfig,
    pub taskwarrior: TaskwarriorConfig,
    pub ui: UIConfig,
}

#[derive(Debug, Clone)]
pub struct ThemeConfig {
    pub name: String,
    pub colors: HashMap<String, String>,
}

#[derive(Debug, Clone)]
pub struct KeyBindingsConfig {
    pub global: HashMap<String, String>,
    pub task_list: HashMap<String, String>,
    pub task_detail: HashMap<String, String>,
}

/// Where the task store lives; paths are kept as text.
#[derive(Debug, Clone)]
pub struct TaskwarriorConfig {
    pub taskrc_path: Option<String>,
    pub data_location: Option<String>,
    pub sync_enabled: bool,
}

#[derive(Debug, Clone)]
pub struct UIConfig {
    pub default_view: String,
    pub show_help_bar: bool,
    pub task_list_columns: Vec<String>,
    pub refresh_interval: u64,
}

fn put(map: &mut HashMap<String, String>, key: &str, value: &str) {
    map.insert(String::from_str(key), String::from_str(value));
}

impl Default for Config {
    /// The settings used when no configuration file exists.
    fn default() -> (r: Config)
        ensures
            r.theme.name@ == "catppuccin-mocha"@,
            r.ui.default_view@ == "task_list"@,
            r.ui.show_help_bar,
            r.ui.refresh_interval == 1000,
            r.ui.task_list_columns@.len() == 5,
            r.ui.task_list_columns@[0]@ == "id"@,
            r.ui.task_list_columns@[1]@ == "project"@,
            r.ui.task_list_columns@[2]@ == "priority"@,
            r.ui.task_list_columns@[3]@ == "due"@,
            r.ui.task_list_columns@[4]@ == "description"@,
            r.taskwarrior.taskrc_path is None,
            r.taskwarrior.data_location is None,
            !r.taskwarrior.sync_enabled,
    {
        let mut global_keys: HashMap<String, String> = HashMap::new();
        put(&mut global_keys, "quit", "q");
        put(&mut global_keys, "help", "F1");
        put(&mut global_keys, "refresh", "F5");
        let mut task_list_keys: HashMap<String, String> = HashMap::new();
        put(&mut task_list_keys, "add_task", "a");
        put(&mut task_list_keys, "edit_task", "e");
        put(&mut task_list_keys, "done_task", "d");
        put(&mut task_list_keys, "delete_task", "Delete");
        let mut colors: HashMap<String, String> = HashMap::new();
        put(&mut colors, "background", "#1e1e2e");
        put(&mut colors, "foreground", "#cdd6f4");
        put(&mut colors, "primary", "#89b4fa");
        put(&mut colors, "secondary", "#f38ba8");
        let mut columns: Vec<String> = Vec::new();
        columns.push(String::from_str("id"));
        columns.push(String::from_str("project"));
        columns.push(String::from_str("priority"));
        columns.push(String::from_str("due"));
        columns.push(String::from_str("description"));
        Config {
            theme: ThemeConfig { name: String::from_str("catppuccin-mocha"), colors },
            keybindings: KeyBindingsConfig {
                global: global_keys,
                task_list: task_list_keys,
                task_detail: HashMap::new(),
            },
            taskwarrior: TaskwarriorConfig {
                taskrc_path: None,
                data_location: None,
                sync_enabled: false,
            },
            ui: UIConfig {
                default_view: String::from_str("task_list"),
                show_help_bar: true,
                task_list_columns: columns,
                refresh_interval: 1000,
            },
        }
    }
}

} // verus!
