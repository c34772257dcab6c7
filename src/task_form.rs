use vstd::prelude::*;
use crate::model::{Task, Priority, copy_task};
use crate::widgets::FormField;
use crate::handlers::Action;
use crate::criteria::views_of;
use crate::text::push_char;
use crate::validation::{is_white_space, white_space, is_blank, validate_task_description, ValidationError};
use crate::formatting::{day_from_text, parsed_day, date_text, iso_date_text};
use crate::calendar::{day_of, day_number, MAX_DAY};
use crate::table::joined;

verus! {

/// A line of text being edited, with a cursor counted in characters.
pub struct TextInput {
    pub text: String,
    pub cursor: usize,
}

pub open spec fn input_view(t: TextInput) -> (Seq<char>, int) {
    (t.text@, t.cursor as int)
}

/// The text after typing `c` at the cursor.
pub open spec fn typed(v: (Seq<char>, int), c: char) -> (Seq<char>, int) {
    if v.1 < usize::MAX {
        (v.0.insert(v.1, c), v.1 + 1)
    } else {
        v
    }
}

/// The text after deleting the character before the cursor.
pub open spec fn erased(v: (Seq<char>, int)) -> (Seq<char>, int) {
    if v.1 > 0 {
        (v.0.remove(v.1 - 1), v.1 - 1)
    } else {
        v
    }
}

pub open spec fn moved_left(v: (Seq<char>, int)) -> (Seq<char>, int) {
    if v.1 > 0 {
        (v.0, v.1 - 1)
    } else {
        v
    }
}

pub open spec fn moved_right(v: (Seq<char>, int)) -> (Seq<char>, int) {
    if v.1 < v.0.len() {
        (v.0, v.1 + 1)
    } else {
        v
    }
}

impl TextInput {
    pub open spec fn wf(&self) -> bool {
        self.cursor <= self.text@.len()
    }

    /// A field holding `text`, the cursor at its end.
    pub fn at_end(text: String) -> (r: TextInput)
        ensures
            r.wf(),
            r.text@ == text@,
            r.cursor == text@.len(),
    {
        let n = text.as_str().unicode_len();
        TextInput { text, cursor: n }
    }

    pub fn type_char(&mut self, c: char)
        requires
            old(self).wf(),
        ensures
            final(self).wf(),
            input_view(*final(self)) == typed(input_view(*old(self)), c),
    {
        if self.cursor < usize::MAX {
            let n = self.text.as_str().unicode_len();
            let head = String::from_str(self.text.as_str().substring_char(0, self.cursor));
            let tail = String::from_str(self.text.as_str().substring_char(self.cursor, n));
            let mut t = head;
            push_char(&mut t, c);
            t.append(tail.as_str());
            proof {
                assert(t@ =~= self.text@.insert(self.cursor as int, c));
            }
            self.text = t;
            self.cursor = self.cursor + 1;
        }
    }

    pub fn backspace(&mut self)
        requires
            old(self).wf(),
        ensures
            final(self).wf(),
            input_view(*final(self)) == erased(input_view(*old(self))),
    {
        if self.cursor > 0 {
            let n = self.text.as_str().unicode_len();
            let k = self.cursor - 1;
            let mut t = String::from_str(self.text.as_str().substring_char(0, k));
            t.append(self.text.as_str().substring_char(k + 1, n));
            proof {
                assert(t@ =~= self.text@.remove(k as int));
            }
            self.text = t;
            self.cursor = k;
        }
    }

    pub fn move_left(&mut self)
        requires
            old(self).wf(),
        ensures
            final(self).wf(),
            input_view(*final(self)) == moved_left(input_view(*old(self))),
    {
        if self.cursor > 0 {
            self.cursor = self.cursor - 1;
        }
    }

    pub fn move_right(&mut self)
        requires
            old(self).wf(),
        ensures
            final(self).wf(),
            input_view(*final(self)) == moved_right(input_view(*old(self))),
    {
        if self.cursor < self.text.as_str().unicode_len() {
            self.cursor = self.cursor + 1;
        }
    }

    pub fn to_end(&mut self)
        ensures
            final(self).wf(),
            final(self).text@ == old(self).text@,
            final(self).cursor == old(self).text@.len(),
    {
        self.cursor = self.text.as_str().unicode_len();
    }
}

/// What the form asks for when it closes.
pub enum TaskFormResult {
    Save(Task),
    Cancel,
}

/// The add / edit dialog: the task being edited and one input per field;
/// priority is chosen by index (0 none, 1 high, 2 medium, 3 low).
pub struct TaskForm {
    pub task: Task,
    pub active_field: FormField,
    pub is_editing: bool,
    pub description: TextInput,
    pub project: TextInput,
    pub tags: TextInput,
    pub due: TextInput,
    pub priority_index: usize,
}

pub open spec fn priority_of_index(i: int) -> Option<Priority> {
    if i == 1 {
        Some(Priority::High)
    } else if i == 2 {
        Some(Priority::Medium)
    } else if i == 3 {
        Some(Priority::Low)
    } else {
        None
    }
}

pub open spec fn index_of_priority(p: Option<Priority>) -> int {
    match p {
        None => 0,
        Some(Priority::High) => 1,
        Some(Priority::Medium) => 2,
        Some(Priority::Low) => 3,
    }
}

pub open spec fn next_form_field(f: FormField) -> FormField {
    match f {
        FormField::Description => FormField::Project,
        FormField::Project => FormField::Priority,
        FormField::Priority => FormField::Due,
        FormField::Due => FormField::Tags,
        FormField::Tags => FormField::Description,
    }
}

pub open spec fn previous_form_field(f: FormField) -> FormField {
    match f {
        FormField::Description => FormField::Tags,
        FormField::Project => FormField::Description,
        FormField::Priority => FormField::Project,
        FormField::Due => FormField::Priority,
        FormField::Tags => FormField::Due,
    }
}

/// How one action changes the text input of field `x`.
pub open spec fn field_step(
    v: (Seq<char>, int),
    x: FormField,
    active: FormField,
    editing: bool,
    a: Action,
) -> (Seq<char>, int) {
    match a {
        Action::MoveDown | Action::Tab => if next_form_field(active) == x {
            (v.0, v.0.len() as int)
        } else {
            v
        },
        Action::MoveUp => if previous_form_field(active) == x {
            (v.0, v.0.len() as int)
        } else {
            v
        },
        Action::Character(c) => if active == x {
            typed(v, c)
        } else {
            v
        },
        Action::Space => if editing && active == x {
            typed(v, ' ')
        } else {
            v
        },
        Action::Backspace => if active == x {
            erased(v)
        } else {
            v
        },
        Action::MoveLeft => if editing && active == x {
            moved_left(v)
        } else {
            v
        },
        Action::MoveRight => if editing && active == x {
            moved_right(v)
        } else {
            v
        },
        _ => v,
    }
}

/// A tag separator: a comma or white space.
pub open spec fn is_tag_separator(c: char) -> bool {
    c == ',' || white_space(c)
}

/// Finished tags and the tag being read, after reading `s`.
pub open spec fn scan_tags(s: Seq<char>) -> (Seq<Seq<char>>, Seq<char>)
    decreases s.len(),
{
    if s.len() == 0 {
        (Seq::empty(), Seq::empty())
    } else {
        let (done, cur) = scan_tags(s.drop_last());
        let c = s.last();
        if is_tag_separator(c) {
            if cur.len() > 0 {
                (done.push(cur), Seq::empty())
            } else {
                (done, Seq::empty())
            }
        } else {
            (done, cur.push(c))
        }
    }
}

/// The tags typed in the tags field: the non-empty runs between commas and white space.
pub open spec fn typed_tags(s: Seq<char>) -> Seq<Seq<char>> {
    let (done, cur) = scan_tags(s);
    if cur.len() > 0 {
        done.push(cur)
    } else {
        done
    }
}

/// The day typed in the due field, tried as `%Y-%m-%d`, `%m/%d/%Y`, then `%d-%m-%Y`.
pub open spec fn typed_due_day(s: Seq<char>) -> Option<int> {
    if parsed_day(s, "%Y-%m-%d"@) is Some {
        parsed_day(s, "%Y-%m-%d"@)
    } else if parsed_day(s, "%m/%d/%Y"@) is Some {
        parsed_day(s, "%m/%d/%Y"@)
    } else {
        parsed_day(s, "%d-%m-%Y"@)
    }
}

/// Splits the tags field into tags.
pub fn split_tags(s: &str) -> (r: Vec<String>)
    ensures
        views_of(r@) == typed_tags(s@),
{
    let n = s.unicode_len();
    let mut done: Vec<String> = Vec::new();
    let mut cur = String::new();
    let mut i: usize = 0;
    while i < n
        invariant
            n == s@.len(),
            i <= n,
            (views_of(done@), cur@) == scan_tags(s@.subrange(0, i as int)),
        decreases n - i,
    {
        let ghost before = s@.subrange(0, i as int);
        let ghost after = s@.subrange(0, i as int + 1);
        assert(after.drop_last() =~= before);
        let c = s.get_char(i);
        assert(after.last() == c);
        if c == ',' || is_white_space(c) {
            if !cur.as_str().is_empty() {
                let ghost prev = views_of(done@);
                let ghost word = cur@;
                let mut taken = String::new();
                core::mem::swap(&mut taken, &mut cur);
                done.push(taken);
                assert(views_of(done@) =~= prev.push(word));
            }
        } else {
            push_char(&mut cur, c);
        }
        i = i + 1;
    }
    assert(s@.subrange(0, n as int) =~= s@);
    if !cur.as_str().is_empty() {
        let ghost prev = views_of(done@);
        let ghost word = cur@;
        done.push(cur);
        assert(views_of(done@) =~= prev.push(word));
    }
    done
}

/// The day typed in the due field, if it reads in one of the accepted formats.
pub fn parse_due_input(s: &str) -> (r: Option<i64>)
    ensures
        match r {
            Some(d) => typed_due_day(s@) == Some(d as int),
            None => typed_due_day(s@) is None,
        },
{
    match day_from_text(s, "%Y-%m-%d") {
        Some(d) => Some(d),
        None => match day_from_text(s, "%m/%d/%Y") {
            Some(d) => Some(d),
            None => day_from_text(s, "%d-%m-%Y"),
        },
    }
}

impl TaskForm {
    pub open spec fn wf(&self) -> bool {
        &&& self.description.wf()
        &&& self.project.wf()
        &&& self.tags.wf()
        &&& self.due.wf()
        &&& self.priority_index <= 3
    }

    /// An empty form for a new task, editing the description.
    pub fn new_task() -> (r: TaskForm)
        ensures
            r.wf(),
            r.active_field == FormField::Description,
            r.is_editing,
            r.description.text@.len() == 0 && r.project.text@.len() == 0,
            r.tags.text@.len() == 0 && r.due.text@.len() == 0,
            r.priority_index == 0,
    {
        TaskForm {
            task: Task::new(String::new()),
            active_field: FormField::Description,
            is_editing: true,
            description: TextInput::at_end(String::new()),
            project: TextInput::at_end(String::new()),
            tags: TextInput::at_end(String::new()),
            due: TextInput::at_end(String::new()),
            priority_index: 0,
        }
    }

    /// A form filled from `task`, each cursor at the end of its text; tags
    /// are joined by ", " and the due day is written as `%Y-%m-%d`.
    pub fn edit_task(task: Task) -> (r: TaskForm)
        ensures
            r.wf(),
            r.active_field == FormField::Description,
            r.is_editing,
            r.description.text@ == task.description@,
            r.project.text@ == match task.project {
                Some(p) => p@,
                None => Seq::<char>::empty(),
            },
            r.tags.text@ == joined(task.tags@, ", "@),
            task.due is None ==> r.due.text@.len() == 0,
            task.due is Some && -MAX_DAY <= day_of(task.due->0 as int) <= MAX_DAY ==> r.due.text@
                == iso_date_text(day_of(task.due->0 as int)),
            r.priority_index == index_of_priority(task.priority),
            r.description.cursor == r.description.text@.len(),
    {
        let priority_index: usize = match task.priority {
            None => 0,
            Some(Priority::High) => 1,
            Some(Priority::Medium) => 2,
            Some(Priority::Low) => 3,
        };
        let mut tags_text = String::new();
        let mut i: usize = 0;
        while i < task.tags.len()
            invariant
                i <= task.tags@.len(),
                tags_text@ == joined(task.tags@.subrange(0, i as int), ", "@),
            decreases task.tags@.len() - i,
        {
            let ghost before = task.tags@.subrange(0, i as int);
            let ghost after = task.tags@.subrange(0, i as int + 1);
            assert(after.drop_last() =~= before);
            assert(after.last() == task.tags@[i as int]);
            if i > 0 {
                tags_text.append(", ");
            }
            tags_text.append(task.tags[i].as_str());
            proof {
                if i == 0 {
                    assert(tags_text@ =~= after[0]@);
                }
            }
            i = i + 1;
        }
        assert(task.tags@.subrange(0, task.tags@.len() as int) =~= task.tags@);
        let due_text = match task.due {
            Some(d) => {
                let day = day_number(d);
                if -MAX_DAY <= day && day <= MAX_DAY {
                    date_text(day as i32)
                } else {
                    String::new()
                }
            },
            None => String::new(),
        };
        let description = TextInput::at_end(task.description.clone());
        let project = TextInput::at_end(
            match &task.project {
                Some(p) => p.clone(),
                None => String::new(),
            },
        );
        TaskForm {
            task,
            active_field: FormField::Description,
            is_editing: true,
            description,
            project,
            tags: TextInput::at_end(tags_text),
            due: TextInput::at_end(due_text),
            priority_index,
        }
    }

    /// Puts the cursor of the active field at the end of its text.
    pub fn set_cursor_to_end(&mut self)
        requires
            old(self).wf(),
        ensures
            final(self).wf(),
            final(self).active_field == old(self).active_field,
            final(self).is_editing == old(self).is_editing,
            final(self).priority_index == old(self).priority_index,
            input_view(final(self).description) == if old(self).active_field == FormField::Description {
                (old(self).description.text@, old(self).description.text@.len() as int)
            } else {
                input_view(old(self).description)
            },
            input_view(final(self).project) == if old(self).active_field == FormField::Project {
                (old(self).project.text@, old(self).project.text@.len() as int)
            } else {
                input_view(old(self).project)
            },
            input_view(final(self).tags) == if old(self).active_field == FormField::Tags {
                (old(self).tags.text@, old(self).tags.text@.len() as int)
            } else {
                input_view(old(self).tags)
            },
            input_view(final(self).due) == if old(self).active_field == FormField::Due {
                (old(self).due.text@, old(self).due.text@.len() as int)
            } else {
                input_view(old(self).due)
            },
    {
        match self.active_field {
            FormField::Description => self.description.to_end(),
            FormField::Project => self.project.to_end(),
            FormField::Tags => self.tags.to_end(),
            FormField::Due => self.due.to_end(),
            FormField::Priority => {},
        }
    }

    /// The cursor position in the active field (0 for the priority field).
    pub fn get_cursor_position_for_field(&self) -> (r: usize)
        ensures
            r == match self.active_field {
                FormField::Description => self.description.cursor,
                FormField::Project => self.project.cursor,
                FormField::Tags => self.tags.cursor,
                FormField::Due => self.due.cursor,
                FormField::Priority => 0,
            },
    {
        match self.active_field {
            FormField::Description => self.description.cursor,
            FormField::Project => self.project.cursor,
            FormField::Tags => self.tags.cursor,
            FormField::Due => self.due.cursor,
            FormField::Priority => 0,
        }
    }

    /// The task as edited: the edited fields from the inputs, every other
    /// field from the task the form was opened with. An unreadable due date
    /// keeps the due date the task had.
    pub fn build_task(&self) -> (r: Task)
        requires
            self.wf(),
        ensures
            r.description@ == self.description.text@,
            self.project.text@.len() == 0 ==> r.project is None,
            self.project.text@.len() > 0 ==> r.project is Some && r.project->0@ == self.project.text@,
            r.priority == priority_of_index(self.priority_index as int),
            views_of(r.tags@) == typed_tags(self.tags.text@),
            r.due == match typed_due_day(self.due.text@) {
                Some(d) => if -MAX_DAY <= d <= MAX_DAY {
                    Some((d * 86400) as i64)
                } else {
                    self.task.due
                },
                None => self.task.due,
            },
            r.id == self.task.id && r.uuid@ == self.task.uuid@ && r.status == self.task.status,
            r.entry == self.task.entry && r.end == self.task.end && r.start == self.task.start,
            views_of(r.depends@) == views_of(self.task.depends@),
    {
        let mut t = copy_task(&self.task);
        t.description = self.description.text.clone();
        t.project = if self.project.text.as_str().is_empty() {
            None
        } else {
            Some(self.project.text.clone())
        };
        t.priority = if self.priority_index == 1 {
            Some(Priority::High)
        } else if self.priority_index == 2 {
            Some(Priority::Medium)
        } else if self.priority_index == 3 {
            Some(Priority::Low)
        } else {
            None
        };
        t.tags = split_tags(self.tags.text.as_str());
        match parse_due_input(self.due.text.as_str()) {
            Some(d) => {
                if -MAX_DAY <= d && d <= MAX_DAY {
                    t.due = Some(d * 86400);
                }
            },
            None => {},
        }
        t
    }

    /// Handles one key action; returns what the form asks for, if anything.
    pub fn handle_input(&mut self, action: Action) -> (r: Option<TaskFormResult>)
        requires
            old(self).wf(),
        ensures
            final(self).wf(),
            input_view(final(self).description) == field_step(
                input_view(old(self).description),
                FormField::Description,
                old(self).active_field,
                old(self).is_editing,
                action,
            ),
            input_view(final(self).project) == field_step(
                input_view(old(self).project),
                FormField::Project,
                old(self).active_field,
                old(self).is_editing,
                action,
            ),
            input_view(final(self).tags) == field_step(
                input_view(old(self).tags),
                FormField::Tags,
                old(self).active_field,
                old(self).is_editing,
                action,
            ),
            input_view(final(self).due) == field_step(
                input_view(old(self).due),
                FormField::Due,
                old(self).active_field,
                old(self).is_editing,
                action,
            ),
            action == Action::Back ==> r matches Some(TaskFormResult::Cancel),
            action == Action::Select ==> if old(self).is_editing {
                r is None && !final(self).is_editing
            } else if is_blank(old(self).description.text@) {
                r is None && final(self).active_field == FormField::Description
                    && final(self).is_editing
            } else {
                r matches Some(TaskFormResult::Save(_))
            },
            action != Action::Back && action != Action::Select ==> r is None,
            (action == Action::MoveDown || action == Action::Tab) ==> final(self).active_field
                == next_form_field(old(self).active_field) && final(self).is_editing,
            action == Action::MoveUp ==> final(self).active_field == previous_form_field(
                old(self).active_field,
            ) && final(self).is_editing,
    {
        match action {
            Action::Back => Some(TaskFormResult::Cancel),
            Action::Select => {
                if self.is_editing {
                    self.is_editing = false;
                    None
                } else if matches!(
                    validate_task_description(self.description.text.as_str()),
                    Err(ValidationError::Empty)
                ) {
                    self.active_field = FormField::Description;
                    self.is_editing = true;
                    None
                } else {
                    Some(TaskFormResult::Save(self.build_task()))
                }
            },
            Action::MoveDown | Action::Tab => {
                self.active_field = match self.active_field {
                    FormField::Description => FormField::Project,
                    FormField::Project => FormField::Priority,
                    FormField::Priority => FormField::Due,
                    FormField::Due => FormField::Tags,
                    FormField::Tags => FormField::Description,
                };
                self.set_cursor_to_end();
                self.is_editing = true;
                None
            },
            Action::MoveUp => {
                self.active_field = match self.active_field {
                    FormField::Description => FormField::Tags,
                    FormField::Project => FormField::Description,
                    FormField::Priority => FormField::Project,
                    FormField::Due => FormField::Priority,
                    FormField::Tags => FormField::Due,
                };
                self.set_cursor_to_end();
                self.is_editing = true;
                None
            },
            Action::Character(c) => {
                self.is_editing = true;
                match self.active_field {
                    FormField::Description => self.description.type_char(c),
                    FormField::Project => self.project.type_char(c),
                    FormField::Tags => self.tags.type_char(c),
                    FormField::Due => self.due.type_char(c),
                    FormField::Priority => {
                        if c == 'h' || c == 'H' {
                            self.priority_index = 1;
                        } else if c == 'm' || c == 'M' {
                            self.priority_index = 2;
                        } else if c == 'l' || c == 'L' {
                            self.priority_index = 3;
                        } else if c == 'n' || c == 'N' {
                            self.priority_index = 0;
                        }
                    },
                }
                None
            },
            Action::Backspace => {
                self.is_editing = true;
                match self.active_field {
                    FormField::Description => self.description.backspace(),
                    FormField::Project => self.project.backspace(),
                    FormField::Tags => self.tags.backspace(),
                    FormField::Due => self.due.backspace(),
                    FormField::Priority => {
                        self.priority_index = 0;
                    },
                }
                None
            },
            Action::MoveLeft => {
                if self.is_editing {
                    match self.active_field {
                        FormField::Description => self.description.move_left(),
                        FormField::Project => self.project.move_left(),
                        FormField::Tags => self.tags.move_left(),
                        FormField::Due => self.due.move_left(),
                        FormField::Priority => {},
                    }
                }
                None
            },
            Action::MoveRight => {
                if self.is_editing {
                    match self.active_field {
                        FormField::Description => self.description.move_right(),
                        FormField::Project => self.project.move_right(),
                        FormField::Tags => self.tags.move_right(),
                        FormField::Due => self.due.move_right(),
                        FormField::Priority => {},
                    }
                } else {
                    self.is_editing = true;
                }
                None
            },
            Action::Space => {
                if self.is_editing {
                    match self.active_field {
                        FormField::Description => self.description.type_char(' '),
                        FormField::Project => self.project.type_char(' '),
                        FormField::Tags => self.tags.type_char(' '),
                        FormField::Due => self.due.type_char(' '),
                        FormField::Priority => {},
                    }
                }
                None
            },
            _ => None,
        }
    }
}

} // verus!
