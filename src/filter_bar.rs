use vstd::prelude::*;
use crate::model::{TaskStatus, Priority};
use crate::filters::TaskFilter;
use crate::widgets::{StatusFilterType, FilterField};
use crate::handlers::Action;
use crate::criteria::views_of;
use crate::text::{push_char, pop_char};

verus! {

/// What `str::trim` leaves of a character sequence.
pub uninterp spec fn trimmed(s: Seq<char>) -> Seq<char>;

/// The words `str::split_whitespace` finds in a character sequence.
pub uninterp spec fn words(s: Seq<char>) -> Seq<Seq<char>>;

/// Relies on `str::trim`: leading and trailing white space removed.
#[verifier::external_body]
fn trim_text(s: &str) -> (r: String)
    ensures
        r@ == trimmed(s@),
{
    s.trim().to_string()
}

/// Relies on `str::split_whitespace`: the maximal runs of non-white-space characters.
#[verifier::external_body]
pub(crate) fn split_words(s: &str) -> (r: Vec<String>)
    ensures
        views_of(r@) == words(s@),
{
    s.split_whitespace().map(|w| w.to_string()).collect()
}

/// A trimmed field value: none when nothing is left.
pub fn optional_text(trimmed_value: String) -> (r: Option<String>)
    ensures
        trimmed_value@.len() == 0 ==> r is None,
        trimmed_value@.len() > 0 ==> r is Some && r->0@ == trimmed_value@,
{
    if trimmed_value.as_str().is_empty() {
        None
    } else {
        Some(trimmed_value)
    }
}

pub open spec fn next_field_of(f: FilterField) -> FilterField {
    match f {
        FilterField::Status => FilterField::Priority,
        FilterField::Priority => FilterField::Project,
        FilterField::Project => FilterField::Tags,
        FilterField::Tags => FilterField::Description,
        FilterField::Description => FilterField::Status,
    }
}

pub open spec fn previous_field_of(f: FilterField) -> FilterField {
    match f {
        FilterField::Status => FilterField::Description,
        FilterField::Priority => FilterField::Status,
        FilterField::Project => FilterField::Priority,
        FilterField::Tags => FilterField::Project,
        FilterField::Description => FilterField::Tags,
    }
}

pub open spec fn next_status_of(s: StatusFilterType) -> StatusFilterType {
    match s {
        StatusFilterType::All => StatusFilterType::Pending,
        StatusFilterType::Pending => StatusFilterType::Active,
        StatusFilterType::Active => StatusFilterType::Overdue,
        StatusFilterType::Overdue => StatusFilterType::Completed,
        StatusFilterType::Completed => StatusFilterType::Waiting,
        StatusFilterType::Waiting => StatusFilterType::Deleted,
        StatusFilterType::Deleted => StatusFilterType::All,
    }
}

/// The status, active and overdue fields a status choice sets.
pub open spec fn status_fields(s: StatusFilterType) -> (Option<TaskStatus>, Option<bool>, Option<bool>) {
    match s {
        StatusFilterType::All => (None, None, None),
        StatusFilterType::Pending => (Some(TaskStatus::Pending), None, None),
        StatusFilterType::Completed => (Some(TaskStatus::Completed), None, None),
        StatusFilterType::Active => (Some(TaskStatus::Pending), Some(true), None),
        StatusFilterType::Overdue => (Some(TaskStatus::Pending), None, Some(true)),
        StatusFilterType::Waiting => (Some(TaskStatus::Waiting), None, None),
        StatusFilterType::Deleted => (Some(TaskStatus::Deleted), None, None),
    }
}

/// The status choice a typed letter selects (case ignored); `a` flips
/// between all and active.
pub open spec fn status_key(current: StatusFilterType, c: char) -> StatusFilterType {
    if c == 'a' || c == 'A' {
        if current == StatusFilterType::All {
            StatusFilterType::Active
        } else {
            StatusFilterType::All
        }
    } else if c == 'p' || c == 'P' {
        StatusFilterType::Pending
    } else if c == 'c' || c == 'C' {
        StatusFilterType::Completed
    } else if c == 'd' || c == 'D' {
        StatusFilterType::Deleted
    } else if c == 'w' || c == 'W' {
        StatusFilterType::Waiting
    } else if c == 'o' || c == 'O' {
        StatusFilterType::Overdue
    } else {
        current
    }
}

/// The priority a typed letter selects (case ignored): H, M, L, or N for none;
/// other letters keep `current`.
pub open spec fn priority_key(current: Option<Priority>, c: char) -> Option<Priority> {
    if c == 'h' || c == 'H' {
        Some(Priority::High)
    } else if c == 'm' || c == 'M' {
        Some(Priority::Medium)
    } else if c == 'l' || c == 'L' {
        Some(Priority::Low)
    } else if c == 'n' || c == 'N' {
        None
    } else {
        current
    }
}

/// The filter editor: a `TaskFilter` being built field by field.
pub struct FilterBarWidget {
    pub filter: TaskFilter,
    pub active_field: FilterField,
    pub is_editing: bool,
    pub project_input: String,
    pub tags_input: String,
    pub description_input: String,
    pub status_filter_type: StatusFilterType,
    pub is_visible: bool,
    pub available_projects: Vec<String>,
    pub available_tags: Vec<String>,
}

impl FilterBarWidget {
    pub fn new() -> (r: FilterBarWidget)
        ensures
            r.filter.status == Some(TaskStatus::Pending),
            r.active_field == FilterField::Status,
            !r.is_editing && !r.is_visible,
            r.status_filter_type == StatusFilterType::Pending,
    {
        FilterBarWidget {
            filter: TaskFilter::new(),
            active_field: FilterField::Status,
            is_editing: false,
            project_input: String::new(),
            tags_input: String::new(),
            description_input: String::new(),
            status_filter_type: StatusFilterType::Pending,
            is_visible: false,
            available_projects: Vec::new(),
            available_tags: Vec::new(),
        }
    }

    pub fn update_available_options(&mut self, projects: Vec<String>, tags: Vec<String>)
        ensures
            final(self).available_projects@ == projects@,
            final(self).available_tags@ == tags@,
            final(self).filter == old(self).filter,
    {
        self.available_projects = projects;
        self.available_tags = tags;
    }

    /// Shows or hides the bar; showing it starts editing.
    pub fn toggle_visibility(&mut self)
        ensures
            final(self).is_visible == !old(self).is_visible,
            final(self).is_editing == (old(self).is_editing || !old(self).is_visible),
            final(self).filter == old(self).filter,
    {
        self.is_visible = !self.is_visible;
        if self.is_visible {
            self.is_editing = true;
        }
    }

    pub fn next_field(&mut self)
        ensures
            final(self).active_field == next_field_of(old(self).active_field),
            final(self).filter == old(self).filter,
    {
        self.active_field = match self.active_field {
            FilterField::Status => FilterField::Priority,
            FilterField::Priority => FilterField::Project,
            FilterField::Project => FilterField::Tags,
            FilterField::Tags => FilterField::Description,
            FilterField::Description => FilterField::Status,
        };
    }

    pub fn previous_field(&mut self)
        ensures
            final(self).active_field == previous_field_of(old(self).active_field),
            final(self).filter == old(self).filter,
    {
        self.active_field = match self.active_field {
            FilterField::Status => FilterField::Description,
            FilterField::Priority => FilterField::Status,
            FilterField::Project => FilterField::Priority,
            FilterField::Tags => FilterField::Project,
            FilterField::Description => FilterField::Tags,
        };
    }

    pub fn cycle_status_filter(&mut self)
        ensures
            final(self).status_filter_type == next_status_of(old(self).status_filter_type),
            final(self).filter == old(self).filter,
            final(self).active_field == old(self).active_field,
            final(self).is_editing == old(self).is_editing,
            final(self).is_visible == old(self).is_visible,
    {
        self.status_filter_type = match self.status_filter_type {
            StatusFilterType::All => StatusFilterType::Pending,
            StatusFilterType::Pending => StatusFilterType::Active,
            StatusFilterType::Active => StatusFilterType::Overdue,
            StatusFilterType::Overdue => StatusFilterType::Completed,
            StatusFilterType::Completed => StatusFilterType::Waiting,
            StatusFilterType::Waiting => StatusFilterType::Deleted,
            StatusFilterType::Deleted => StatusFilterType::All,
        };
    }

    /// Sets the status, active and overdue fields from the status choice.
    pub fn apply_status_filter(&mut self)
        ensures
            (final(self).filter.status, final(self).filter.is_active, final(self).filter.is_overdue)
                == status_fields(old(self).status_filter_type),
            final(self).filter.project == old(self).filter.project,
            final(self).filter.priority == old(self).filter.priority,
            final(self).filter.tags == old(self).filter.tags,
            final(self).filter.description_contains == old(self).filter.description_contains,
            final(self).status_filter_type == old(self).status_filter_type,
            final(self).active_field == old(self).active_field,
            final(self).project_input == old(self).project_input,
            final(self).tags_input == old(self).tags_input,
            final(self).description_input == old(self).description_input,
            final(self).is_editing == old(self).is_editing,
            final(self).is_visible == old(self).is_visible,
    {
        self.filter.status = None;
        self.filter.is_active = None;
        self.filter.is_overdue = None;
        match self.status_filter_type {
            StatusFilterType::All => {},
            StatusFilterType::Pending => {
                self.filter.status = Some(TaskStatus::Pending);
            },
            StatusFilterType::Completed => {
                self.filter.status = Some(TaskStatus::Completed);
            },
            StatusFilterType::Active => {
                self.filter.status = Some(TaskStatus::Pending);
                self.filter.is_active = Some(true);
            },
            StatusFilterType::Overdue => {
                self.filter.status = Some(TaskStatus::Pending);
                self.filter.is_overdue = Some(true);
            },
            StatusFilterType::Waiting => {
                self.filter.status = Some(TaskStatus::Waiting);
            },
            StatusFilterType::Deleted => {
                self.filter.status = Some(TaskStatus::Deleted);
            },
        }
    }

    /// A typed character: appended to the text fields, or a letter choosing
    /// the priority or the status.
    pub fn handle_character_input(&mut self, c: char)
        ensures
            final(self).active_field == old(self).active_field,
            final(self).project_input@ == if old(self).active_field == FilterField::Project {
                old(self).project_input@.push(c)
            } else {
                old(self).project_input@
            },
            final(self).tags_input@ == if old(self).active_field == FilterField::Tags {
                old(self).tags_input@.push(c)
            } else {
                old(self).tags_input@
            },
            final(self).description_input@ == if old(self).active_field == FilterField::Description {
                old(self).description_input@.push(c)
            } else {
                old(self).description_input@
            },
            final(self).filter.priority == if old(self).active_field == FilterField::Priority {
                priority_key(old(self).filter.priority, c)
            } else {
                old(self).filter.priority
            },
            old(self).active_field == FilterField::Status ==> {
                &&& final(self).status_filter_type == status_key(old(self).status_filter_type, c)
                &&& (final(self).filter.status, final(self).filter.is_active, final(self).filter.is_overdue)
                    == status_fields(final(self).status_filter_type)
            },
            old(self).active_field != FilterField::Status ==> final(self).status_filter_type
                == old(self).status_filter_type && final(self).filter.status == old(self).filter.status,
    {
        match self.active_field {
            FilterField::Project => push_char(&mut self.project_input, c),
            FilterField::Tags => push_char(&mut self.tags_input, c),
            FilterField::Description => push_char(&mut self.description_input, c),
            FilterField::Priority => {
                if c == 'h' || c == 'H' {
                    self.filter.priority = Some(Priority::High);
                } else if c == 'm' || c == 'M' {
                    self.filter.priority = Some(Priority::Medium);
                } else if c == 'l' || c == 'L' {
                    self.filter.priority = Some(Priority::Low);
                } else if c == 'n' || c == 'N' {
                    self.filter.priority = None;
                }
            },
            FilterField::Status => {
                if c == 'a' || c == 'A' {
                    if self.status_filter_type == StatusFilterType::All {
                        self.status_filter_type = StatusFilterType::Active;
                    } else {
                        self.status_filter_type = StatusFilterType::All;
                    }
                } else if c == 'p' || c == 'P' {
                    self.status_filter_type = StatusFilterType::Pending;
                } else if c == 'c' || c == 'C' {
                    self.status_filter_type = StatusFilterType::Completed;
                } else if c == 'd' || c == 'D' {
                    self.status_filter_type = StatusFilterType::Deleted;
                } else if c == 'w' || c == 'W' {
                    self.status_filter_type = StatusFilterType::Waiting;
                } else if c == 'o' || c == 'O' {
                    self.status_filter_type = StatusFilterType::Overdue;
                }
                self.apply_status_filter();
            },
        }
    }

    /// Deletes in the text fields; clears the priority; resets the status to all.
    pub fn handle_backspace(&mut self)
        ensures
            final(self).active_field == old(self).active_field,
            final(self).project_input@ == if old(self).active_field == FilterField::Project
                && old(self).project_input@.len() > 0 {
                old(self).project_input@.drop_last()
            } else {
                old(self).project_input@
            },
            final(self).tags_input@ == if old(self).active_field == FilterField::Tags
                && old(self).tags_input@.len() > 0 {
                old(self).tags_input@.drop_last()
            } else {
                old(self).tags_input@
            },
            final(self).description_input@ == if old(self).active_field == FilterField::Description
                && old(self).description_input@.len() > 0 {
                old(self).description_input@.drop_last()
            } else {
                old(self).description_input@
            },
            old(self).active_field == FilterField::Priority ==> final(self).filter.priority is None,
            old(self).active_field == FilterField::Status ==> final(self).status_filter_type
                == StatusFilterType::All && final(self).filter.status is None,
    {
        match self.active_field {
            FilterField::Project => {
                pop_char(&mut self.project_input);
            },
            FilterField::Tags => {
                pop_char(&mut self.tags_input);
            },
            FilterField::Description => {
                pop_char(&mut self.description_input);
            },
            FilterField::Priority => {
                self.filter.priority = None;
            },
            FilterField::Status => {
                self.status_filter_type = StatusFilterType::All;
                self.apply_status_filter();
            },
        }
    }

    /// Copies the text typed in the current field into the filter.
    pub fn apply_current_field(&mut self)
        ensures
            final(self).active_field == old(self).active_field,
            old(self).active_field == FilterField::Project ==> (if trimmed(old(self).project_input@).len() == 0 {
                final(self).filter.project is None
            } else {
                final(self).filter.project is Some && final(self).filter.project->0@ == trimmed(old(self).project_input@)
            }),
            old(self).active_field == FilterField::Tags ==> views_of(final(self).filter.tags@) == words(old(self).tags_input@),
            old(self).active_field == FilterField::Description ==> (if trimmed(old(self).description_input@).len() == 0 {
                final(self).filter.description_contains is None
            } else {
                final(self).filter.description_contains is Some
                    && final(self).filter.description_contains->0@ == trimmed(old(self).description_input@)
            }),
            old(self).active_field == FilterField::Status || old(self).active_field == FilterField::Priority
                ==> final(self).filter == old(self).filter,
    {
        match self.active_field {
            FilterField::Project => {
                self.filter.project = optional_text(trim_text(self.project_input.as_str()));
            },
            FilterField::Tags => {
                self.filter.tags = split_words(self.tags_input.as_str());
            },
            FilterField::Description => {
                self.filter.description_contains = optional_text(trim_text(self.description_input.as_str()));
            },
            _ => {},
        }
    }

    pub fn get_filter(&self) -> (r: &TaskFilter)
        ensures
            *r == self.filter,
    {
        &self.filter
    }

    /// Back to pending tasks only, with every typed text cleared.
    pub fn clear_filters(&mut self)
        ensures
            final(self).filter.status == Some(TaskStatus::Pending),
            final(self).filter.project is None && final(self).filter.priority is None,
            final(self).filter.tags@.len() == 0,
            final(self).filter.description_contains is None,
            final(self).status_filter_type == StatusFilterType::Pending,
            final(self).project_input@.len() == 0,
            final(self).tags_input@.len() == 0,
            final(self).description_input@.len() == 0,
            final(self).active_field == old(self).active_field,
    {
        self.filter = TaskFilter::new();
        self.project_input = String::new();
        self.tags_input = String::new();
        self.description_input = String::new();
        self.status_filter_type = StatusFilterType::Pending;
    }

    /// Handles one action while the bar is shown; true when the bar used it.
    pub fn handle_input(&mut self, action: Action) -> (r: bool)
        ensures
            !old(self).is_visible ==> !r && final(self).filter == old(self).filter
                && final(self).is_editing == old(self).is_editing,
            old(self).is_visible ==> r == match action {
                Action::Back | Action::MoveDown | Action::MoveUp | Action::MoveRight
                | Action::Character(_) | Action::Backspace => true,
                Action::Select => old(self).is_editing,
                Action::Space => old(self).active_field == FilterField::Status,
                _ => false,
            },
            old(self).is_visible && action == Action::Back ==> if old(self).is_editing {
                !final(self).is_editing && final(self).is_visible
            } else {
                !final(self).is_visible
            },
            old(self).is_visible && action == Action::MoveRight ==> final(self).is_editing,
            old(self).is_visible && action == Action::Select && old(self).is_editing
                ==> !final(self).is_editing,
            old(self).is_visible && action == Action::MoveDown && !old(self).is_editing
                ==> final(self).active_field == next_field_of(old(self).active_field),
            old(self).is_visible && action == Action::MoveUp && !old(self).is_editing
                ==> final(self).active_field == previous_field_of(old(self).active_field),
            old(self).is_visible && action == Action::Character('C') && !old(self).is_editing
                ==> final(self).filter.status == Some(TaskStatus::Pending)
                && final(self).status_filter_type == StatusFilterType::Pending,
            old(self).is_visible && action == Action::Space && old(self).active_field
                == FilterField::Status ==> final(self).status_filter_type == next_status_of(
                old(self).status_filter_type,
            ),
    {
        if !self.is_visible {
            return false;
        }
        match action {
            Action::Back => {
                if self.is_editing {
                    self.is_editing = false;
                } else {
                    self.is_visible = false;
                }
                true
            },
            Action::Select => {
                if self.is_editing {
                    self.apply_current_field();
                    self.is_editing = false;
                    true
                } else {
                    false
                }
            },
            Action::MoveDown => {
                if !self.is_editing {
                    self.next_field();
                }
                true
            },
            Action::MoveUp => {
                if !self.is_editing {
                    self.previous_field();
                }
                true
            },
            Action::MoveRight => {
                if !self.is_editing {
                    self.is_editing = true;
                }
                true
            },
            Action::Character(c) => {
                if c == 'C' && !self.is_editing {
                    self.clear_filters();
                } else if self.is_editing {
                    self.handle_character_input(c);
                }
                true
            },
            Action::Space => {
                if self.active_field == FilterField::Status {
                    self.cycle_status_filter();
                    self.apply_status_filter();
                    true
                } else {
                    false
                }
            },
            Action::Backspace => {
                if self.is_editing {
                    self.handle_backspace();
                }
                true
            },
            _ => false,
        }
    }
}

} // verus!
