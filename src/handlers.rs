use vstd::prelude::*;
use crate::config::Config;
use crate::screen;

verus! {

/// The current screen and the screens to go back to.
pub struct NavigationHandler {
    pub current_view: screen::View,
    pub view_stack: Vec<screen::View>,
}

impl NavigationHandler {
    pub fn new() -> (r: NavigationHandler)
        ensures
            r.current_view == screen::View::TaskList,
            r.view_stack@.len() == 0,
    {
        NavigationHandler { current_view: screen::View::TaskList, view_stack: Vec::new() }
    }

    /// Shows `view`, remembering the current screen.
    pub fn navigate_to(&mut self, view: screen::View)
        ensures
            final(self).current_view == view,
            final(self).view_stack@ == old(self).view_stack@.push(old(self).current_view),
    {
        let previous = self.current_view;
        self.view_stack.push(previous);
        self.current_view = view;
    }

    /// Returns to the last remembered screen; false when there is none.
    pub fn go_back(&mut self) -> (r: bool)
        ensures
            r == (old(self).view_stack@.len() > 0),
            r ==> final(self).current_view == old(self).view_stack@.last()
                && final(self).view_stack@ == old(self).view_stack@.drop_last(),
            !r ==> final(self).current_view == old(self).current_view
                && final(self).view_stack@ == old(self).view_stack@,
    {
        match self.view_stack.pop() {
            Some(previous) => {
                self.current_view = previous;
                true
            },
            None => false,
        }
    }

    pub fn current_view(&self) -> (r: &screen::View)
        ensures
            *r == self.current_view,
    {
        &self.current_view
    }
}

/// What a key press asks the application to do.
#[derive(Debug, Clone, Copy, PartialEq, Eq, Structural)]
pub enum Action {
    Quit,
    Refresh,
    Help,
    AddTask,
    EditTask,
    DoneTask,
    DeleteTask,
    MoveUp,
    MoveDown,
    MoveLeft,
    MoveRight,
    Select,
    Back,
    Filter,
    Context,
    Reports,
    Character(char),
    Backspace,
    NoOp,
    Space,
    Tab,
}

/// Turns key presses into actions according to the configured bindings.
pub struct InputHandler {
    pub config: Config,
}

impl InputHandler {
    pub fn new(config: &Config) -> (r: InputHandler) {
        InputHandler { config: config.clone() }
    }
}

/// Runs task commands typed by the user.
pub struct CommandHandler;

impl CommandHandler {
    pub fn new() -> (r: CommandHandler) {
        CommandHandler
    }
}

/// Requests to the background synchronisation.
#[derive(Debug, Clone, Copy, PartialEq, Eq, Structural)]
pub enum SyncMessage {
    Start,
    Stop,
    Status,
}

/// The command-line client of the task store.
pub struct TaskwarriorCLI {
    pub taskrc_path: Option<String>,
}

impl TaskwarriorCLI {
    pub fn new(taskrc_path: Option<String>) -> (r: TaskwarriorCLI)
        ensures
            r.taskrc_path == taskrc_path,
    {
        TaskwarriorCLI { taskrc_path }
    }
}

/// File formats for exporting tasks.
#[derive(Debug, Clone, Copy, PartialEq, Eq, Structural)]
pub enum ExportFormat {
    Json,
    Csv,
}

/// Writes and reads task files.
pub struct TaskExporter;

} // verus!
