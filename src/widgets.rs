use vstd::prelude::*;
use crate::table::{span_cell, span_text};

verus! {

/// Screens of the terminal interface.
#[derive(Debug, Clone, Copy, PartialEq, Eq, Structural)]
pub enum AppView {
    TaskList,
    TaskDetail,
    Reports,
    Settings,
    Help,
}

/// Status choices of the filter bar.
#[derive(Debug, Clone, Copy, PartialEq, Eq, Structural)]
pub enum StatusFilterType {
    All,
    Pending,
    Completed,
    Active,
    Overdue,
    Waiting,
    Deleted,
}

/// Fields of the filter bar.
#[derive(Debug, Clone, Copy, PartialEq, Eq, Structural)]
pub enum FilterField {
    Project,
    Priority,
    Status,
    Tags,
    Description,
}

/// Fields of the task form.
#[derive(Debug, Clone, Copy, PartialEq, Eq, Structural)]
pub enum FormField {
    Description,
    Project,
    Priority,
    Due,
    Tags,
}

/// A modal dialog.
pub struct ModalDialogWidget;

impl ModalDialogWidget {
    pub fn new() -> (r: ModalDialogWidget) {
        ModalDialogWidget
    }
}

/// The line of key hints at the bottom of the screen.
pub struct StatusBarWidget;

impl StatusBarWidget {
    pub fn new() -> (r: StatusBarWidget) {
        StatusBarWidget
    }

    /// The key hints shown in the bar.
    pub fn text(&self) -> (r: &'static str)
        ensures
            r@ == "[a]dd [e]dit [d]one [Del]ete [/]filter [r]eports [q]uit"@,
    {
        "[a]dd [e]dit [d]one [Del]ete [/]filter [r]eports [q]uit"
    }
}

/// The panel with the details of the selected task.
pub struct TaskDetailWidget;

impl TaskDetailWidget {
    pub fn new() -> (r: TaskDetailWidget) {
        TaskDetailWidget
    }

    /// A span of `elapsed` seconds as "Nmin", "Nh", "Nd", "Nw", "Nmo" or "Ny".
    pub fn format_relative_time(&self, elapsed: i64) -> (r: String)
        ensures
            r@ == span_cell(elapsed as int, "min"@),
    {
        span_text(elapsed, "min")
    }
}

} // verus!
