use vstd::prelude::*;
use crate::handlers::{Action, InputHandler};
use crate::activity::{decimal, decimal_text};
use crate::filter_bar::{words, split_words};
use crate::criteria::views_of;
use crate::task_list::same_text;
use crate::text::chars_of;

verus! {

/// A key as the terminal reports it.
#[derive(Debug, Clone, Copy, PartialEq, Eq, Structural)]
pub enum KeyCode {
    Esc,
    Enter,
    Up,
    Down,
    Left,
    Right,
    Tab,
    BackTab,
    Backspace,
    Delete,
    F(u8),
    Char(char),
    Other,
}

/// A key press: the key and whether Control was held.
#[derive(Debug, Clone, Copy, PartialEq, Eq, Structural)]
pub struct KeyPress {
    pub code: KeyCode,
    pub ctrl: bool,
}

/// What a key means inside a form or the filter panel.
pub open spec fn form_action(code: KeyCode) -> Action {
    match code {
        KeyCode::Esc => Action::Back,
        KeyCode::Enter => Action::Select,
        KeyCode::Up => Action::MoveUp,
        KeyCode::Down => Action::MoveDown,
        KeyCode::Left => Action::MoveLeft,
        KeyCode::Right => Action::MoveRight,
        KeyCode::Tab => Action::Tab,
        KeyCode::BackTab => Action::MoveUp,
        KeyCode::Backspace => Action::Backspace,
        KeyCode::Char(c) => if c == ' ' {
            Action::Space
        } else {
            Action::Character(c)
        },
        _ => Action::NoOp,
    }
}

/// What a key means on the task list.
pub open spec fn list_action(key: KeyPress) -> Action {
    match key.code {
        KeyCode::Char(c) => if c == 'q' {
            Action::Quit
        } else if c == 'a' {
            Action::AddTask
        } else if c == 'e' {
            Action::EditTask
        } else if c == 'd' {
            Action::DoneTask
        } else if c == '/' {
            Action::Filter
        } else if c == 'c' {
            if key.ctrl {
                Action::Quit
            } else {
                Action::Context
            }
        } else if c == 'r' {
            Action::Reports
        } else if c == ' ' {
            Action::Space
        } else {
            Action::Character(c)
        },
        KeyCode::F(n) => if n == 1 {
            Action::Help
        } else if n == 5 {
            Action::Refresh
        } else {
            Action::NoOp
        },
        KeyCode::Delete => Action::DeleteTask,
        KeyCode::Up => Action::MoveUp,
        KeyCode::Down => Action::MoveDown,
        KeyCode::Left => Action::MoveLeft,
        KeyCode::Right => Action::MoveRight,
        KeyCode::Enter => Action::Select,
        KeyCode::Esc => Action::Back,
        KeyCode::Tab => Action::Tab,
        KeyCode::Backspace => Action::Backspace,
        _ => Action::NoOp,
    }
}

impl InputHandler {
    /// The action a key press stands for, inside a form or on the task list.
    pub fn handle_key_event_with_context(&self, key: KeyPress, in_form: bool) -> (r: Action)
        ensures
            r == if in_form {
                form_action(key.code)
            } else {
                list_action(key)
            },
    {
        if in_form {
            match key.code {
                KeyCode::Esc => Action::Back,
                KeyCode::Enter => Action::Select,
                KeyCode::Up => Action::MoveUp,
                KeyCode::Down => Action::MoveDown,
                KeyCode::Left => Action::MoveLeft,
                KeyCode::Right => Action::MoveRight,
                KeyCode::Tab => Action::Tab,
                KeyCode::BackTab => Action::MoveUp,
                KeyCode::Backspace => Action::Backspace,
                KeyCode::Char(c) => if c == ' ' {
                    Action::Space
                } else {
                    Action::Character(c)
                },
                _ => Action::NoOp,
            }
        } else {
            match key.code {
                KeyCode::Char(c) => if c == 'q' {
                    Action::Quit
                } else if c == 'a' {
                    Action::AddTask
                } else if c == 'e' {
                    Action::EditTask
                } else if c == 'd' {
                    Action::DoneTask
                } else if c == '/' {
                    Action::Filter
                } else if c == 'c' {
                    if key.ctrl {
                        Action::Quit
                    } else {
                        Action::Context
                    }
                } else if c == 'r' {
                    Action::Reports
                } else if c == ' ' {
                    Action::Space
                } else {
                    Action::Character(c)
                },
                KeyCode::F(n) => if n == 1 {
                    Action::Help
                } else if n == 5 {
                    Action::Refresh
                } else {
                    Action::NoOp
                },
                KeyCode::Delete => Action::DeleteTask,
                KeyCode::Up => Action::MoveUp,
                KeyCode::Down => Action::MoveDown,
                KeyCode::Left => Action::MoveLeft,
                KeyCode::Right => Action::MoveRight,
                KeyCode::Enter => Action::Select,
                KeyCode::Esc => Action::Back,
                KeyCode::Tab => Action::Tab,
                KeyCode::Backspace => Action::Backspace,
                _ => Action::NoOp,
            }
        }
    }

    /// The action a key press stands for on the task list.
    pub fn handle_key_event(&self, key: KeyPress) -> (r: Action)
        ensures
            r == list_action(key),
    {
        self.handle_key_event_with_context(key, false)
    }
}

/// One attribute argument: the bare key when the value is empty, else `key:value`.
pub open spec fn add_argument(key: Seq<char>, value: Seq<char>) -> Seq<char> {
    if value.len() == 0 {
        key
    } else {
        key + ":"@ + value
    }
}

/// Fields that `modify` clears with `key:`.
pub open spec fn clearable(key: Seq<char>) -> bool {
    key == "tags"@ || key == "project"@ || key == "priority"@ || key == "due"@
}

pub open spec fn modify_argument(key: Seq<char>, value: Seq<char>) -> Seq<char> {
    if value.len() == 0 {
        if clearable(key) {
            key + ":"@
        } else {
            key
        }
    } else {
        key + ":"@ + value
    }
}

pub open spec fn add_arguments(attrs: Seq<(String, String)>) -> Seq<Seq<char>> {
    attrs.map_values(|p: (String, String)| add_argument(p.0@, p.1@))
}

pub open spec fn modify_arguments(attrs: Seq<(String, String)>) -> Seq<Seq<char>> {
    attrs.map_values(|p: (String, String)| modify_argument(p.0@, p.1@))
}

fn is_clearable(key: &str) -> (r: bool)
    ensures
        r == clearable(key@),
{
    same_text(key, "tags") || same_text(key, "project") || same_text(key, "priority")
        || same_text(key, "due")
}

/// Arguments of the `task` command that adds a task.
pub fn add_task_args(description: &str, attributes: &Vec<(String, String)>) -> (r: Vec<String>)
    ensures
        views_of(r@) == seq!["add"@, description@] + add_arguments(attributes@),
{
    let mut r: Vec<String> = Vec::new();
    r.push(String::from_str("add"));
    r.push(String::from_str(description));
    let ghost head = views_of(r@);
    assert(head =~= seq!["add"@, description@]);
    let mut i: usize = 0;
    while i < attributes.len()
        invariant
            i <= attributes@.len(),
            views_of(r@) == head + add_arguments(attributes@.subrange(0, i as int)),
        decreases attributes@.len() - i,
    {
        let (k, v) = &attributes[i];
        let arg = if v.as_str().is_empty() {
            k.clone()
        } else {
            k.clone().concat(":").concat(v.as_str())
        };
        let ghost prev = views_of(r@);
        r.push(arg);
        proof {
            assert(views_of(r@) =~= prev.push(add_argument(k@, v@)));
            assert(add_arguments(attributes@.subrange(0, i as int + 1)) =~= add_arguments(
                attributes@.subrange(0, i as int),
            ).push(add_argument(k@, v@)));
        }
        i = i + 1;
    }
    assert(attributes@.subrange(0, attributes@.len() as int) =~= attributes@);
    r
}

/// Arguments of the `task` command that modifies task `id`.
pub fn modify_task_args(id: u32, attributes: &Vec<(String, String)>) -> (r: Vec<String>)
    ensures
        views_of(r@) == seq![decimal(id as int), "modify"@] + modify_arguments(attributes@),
{
    let mut r: Vec<String> = Vec::new();
    r.push(decimal_text(id as i128));
    r.push(String::from_str("modify"));
    let ghost head = views_of(r@);
    assert(head =~= seq![decimal(id as int), "modify"@]);
    let mut i: usize = 0;
    while i < attributes.len()
        invariant
            i <= attributes@.len(),
            views_of(r@) == head + modify_arguments(attributes@.subrange(0, i as int)),
        decreases attributes@.len() - i,
    {
        let (k, v) = &attributes[i];
        let arg = if v.as_str().is_empty() {
            if is_clearable(k.as_str()) {
                k.clone().concat(":")
            } else {
                k.clone()
            }
        } else {
            k.clone().concat(":").concat(v.as_str())
        };
        let ghost prev = views_of(r@);
        r.push(arg);
        proof {
            assert(views_of(r@) =~= prev.push(modify_argument(k@, v@)));
            assert(modify_arguments(attributes@.subrange(0, i as int + 1)) =~= modify_arguments(
                attributes@.subrange(0, i as int),
            ).push(modify_argument(k@, v@)));
        }
        i = i + 1;
    }
    assert(attributes@.subrange(0, attributes@.len() as int) =~= attributes@);
    r
}

/// Arguments that mark task `id` done.
pub fn done_task_args(id: u32) -> (r: Vec<String>)
    ensures
        views_of(r@) == seq![decimal(id as int), "done"@],
{
    let mut r: Vec<String> = Vec::new();
    r.push(decimal_text(id as i128));
    r.push(String::from_str("done"));
    assert(views_of(r@) =~= seq![decimal(id as int), "done"@]);
    r
}

/// Arguments that delete task `id` without a confirmation prompt.
pub fn delete_task_args(id: u32) -> (r: Vec<String>)
    ensures
        views_of(r@) == seq![decimal(id as int), "delete"@, "rc.confirmation=no"@],
{
    let mut r: Vec<String> = Vec::new();
    r.push(decimal_text(id as i128));
    r.push(String::from_str("delete"));
    r.push(String::from_str("rc.confirmation=no"));
    assert(views_of(r@) =~= seq![decimal(id as int), "delete"@, "rc.confirmation=no"@]);
    r
}

pub open spec fn ascii_digit(c: char) -> bool {
    '0' <= c && c <= '9'
}

pub open spec fn all_digits(s: Seq<char>) -> bool {
    forall|i: int| 0 <= i < s.len() ==> ascii_digit(#[trigger] s[i])
}

/// Value of a run of decimal digits.
pub open spec fn number_value(s: Seq<char>) -> int
    decreases s.len(),
{
    if s.len() == 0 {
        0
    } else {
        number_value(s.drop_last()) * 10 + (s.last() as int - '0' as int)
    }
}

/// A run of digits read as a `u32`: none when empty or too large.
pub open spec fn as_u32(s: Seq<char>) -> Option<int> {
    if s.len() > 0 && all_digits(s) && number_value(s) <= u32::MAX {
        Some(number_value(s))
    } else {
        None
    }
}

/// A word like `42.`: digits followed by one full stop.
pub open spec fn numbered_sentence_end(w: Seq<char>) -> bool {
    w.len() > 0 && w.last() == '.' && all_digits(w.drop_last())
}

/// The id the `task add` command reports: from the first word that is
/// digits and a full stop, else from the first word that is all digits.
pub open spec fn reported_id(ws: Seq<Seq<char>>) -> Option<int> {
    if exists|i: int| 0 <= i < ws.len() && numbered_sentence_end(#[trigger] ws[i]) {
        let i = choose|i: int|
            0 <= i < ws.len() && numbered_sentence_end(#[trigger] ws[i]) && forall|j: int|
                0 <= j < i ==> !numbered_sentence_end(#[trigger] ws[j]);
        as_u32(ws[i].drop_last())
    } else if exists|i: int| 0 <= i < ws.len() && all_digits(#[trigger] ws[i]) {
        let i = choose|i: int|
            0 <= i < ws.len() && all_digits(#[trigger] ws[i]) && forall|j: int|
                0 <= j < i ==> !all_digits(#[trigger] ws[j]);
        as_u32(ws[i])
    } else {
        None
    }
}

proof fn lemma_number_bound(s: Seq<char>)
    requires
        all_digits(s),
    ensures
        0 <= number_value(s),
    decreases s.len(),
{
    if s.len() > 0 {
        lemma_number_bound(s.drop_last());
        assert(ascii_digit(s[s.len() - 1]));
    }
}

/// A run of characters read as a `u32` number.
pub fn read_u32(w: &Vec<char>, len: usize) -> (r: Option<u32>)
    requires
        len <= w@.len(),
    ensures
        match r {
            Some(v) => as_u32(w@.subrange(0, len as int)) == Some(v as int),
            None => as_u32(w@.subrange(0, len as int)) is None,
        },
{
    let ghost s = w@.subrange(0, len as int);
    if len == 0 {
        return None;
    }
    let mut v: u64 = 0;
    let mut i: usize = 0;
    while i < len
        invariant
            len <= w@.len(),
            s == w@.subrange(0, len as int),
            i <= len,
            all_digits(w@.subrange(0, i as int)),
            v as int == number_value(w@.subrange(0, i as int)),
            v <= u32::MAX,
        decreases len - i,
    {
        let c = w[i];
        let ghost pre = w@.subrange(0, i as int);
        let ghost next = w@.subrange(0, i as int + 1);
        assert(next.drop_last() =~= pre);
        if !('0' <= c && c <= '9') {
            assert(!ascii_digit(s[i as int]));
            return None;
        }
        let nv: u64 = v * 10 + (c as u64 - '0' as u64);
        assert(forall|k: int| 0 <= k < i + 1 ==> #[trigger] next[k] == if k < i { pre[k] } else { c });
        if nv > 0xFFFF_FFFF {
            proof {
                assert(s.subrange(0, i as int + 1) =~= next);
                assert(ascii_digit(c));
                assert(all_digits(next));
                assert(number_value(next) == nv);
                lemma_prefix_monotone(s, i as int + 1);
            }
            return None;
        }
        v = nv;
        i = i + 1;
    }
    assert(w@.subrange(0, i as int) =~= s);
    Some(v as u32)
}

proof fn lemma_prefix_monotone(s: Seq<char>, k: int)
    requires
        0 < k <= s.len(),
        all_digits(s.subrange(0, k)),
        number_value(s.subrange(0, k)) > u32::MAX,
    ensures
        as_u32(s) is None,
    decreases s.len() - k,
{
    if k < s.len() {
        if all_digits(s.subrange(0, k + 1)) {
            assert(s.subrange(0, k + 1).drop_last() =~= s.subrange(0, k));
            lemma_number_bound(s.subrange(0, k + 1));
            lemma_prefix_monotone(s, k + 1);
        } else {
            assert(!all_digits(s)) by {
                let j = choose|j: int| 0 <= j < k + 1 && !ascii_digit(#[trigger] s.subrange(0, k + 1)[j]);
                assert(s[j] == s.subrange(0, k + 1)[j]);
            }
        }
    } else {
        assert(s.subrange(0, k) =~= s);
    }
}

fn digits_only(w: &Vec<char>, len: usize) -> (r: bool)
    requires
        len <= w@.len(),
    ensures
        r == all_digits(w@.subrange(0, len as int)),
{
    let mut i: usize = 0;
    while i < len
        invariant
            len <= w@.len(),
            i <= len,
            forall|k: int| 0 <= k < i ==> ascii_digit(#[trigger] w@[k]),
        decreases len - i,
    {
        if !('0' <= w[i] && w[i] <= '9') {
            assert(!ascii_digit(w@.subrange(0, len as int)[i as int]));
            return false;
        }
        i = i + 1;
    }
    assert forall|k: int| 0 <= k < len implies ascii_digit(#[trigger] w@.subrange(0, len as int)[k]) by {
        assert(w@.subrange(0, len as int)[k] == w@[k]);
    }
    true
}

/// Reads the id of a newly added task from the words of the command's output.
pub fn id_from_words(ws: &Vec<String>) -> (r: Option<u32>)
    ensures
        match r {
            Some(v) => reported_id(views_of(ws@)) == Some(v as int),
            None => reported_id(views_of(ws@)) is None,
        },
{
    let ghost vs = views_of(ws@);
    let mut i: usize = 0;
    while i < ws.len()
        invariant
            vs == views_of(ws@),
            i <= ws@.len(),
            forall|j: int| 0 <= j < i ==> !numbered_sentence_end(#[trigger] vs[j]),
        decreases ws@.len() - i,
    {
        let w = chars_of(ws[i].as_str());
        assert(vs[i as int] == w@);
        let n = w.len();
        if n > 0 && w[n - 1] == '.' && digits_only(&w, n - 1) {
            assert(w@.drop_last() =~= w@.subrange(0, n as int - 1));
            assert(numbered_sentence_end(vs[i as int]));
            proof {
                let k = choose|k: int|
                    0 <= k < vs.len() && numbered_sentence_end(#[trigger] vs[k]) && forall|j: int|
                        0 <= j < k ==> !numbered_sentence_end(#[trigger] vs[j]);
                assert(!(k < i));
                assert(!(i < k));
            }
            return read_u32(&w, n - 1);
        }
        proof {
            if numbered_sentence_end(vs[i as int]) {
                assert(w@.drop_last() =~= w@.subrange(0, n as int - 1));
            }
        }
        i = i + 1;
    }
    let mut i: usize = 0;
    while i < ws.len()
        invariant
            vs == views_of(ws@),
            i <= ws@.len(),
            forall|j: int| 0 <= j < vs.len() ==> !numbered_sentence_end(#[trigger] vs[j]),
            forall|j: int| 0 <= j < i ==> !all_digits(#[trigger] vs[j]),
        decreases ws@.len() - i,
    {
        let w = chars_of(ws[i].as_str());
        assert(vs[i as int] == w@);
        let n = w.len();
        if digits_only(&w, n) {
            assert(w@.subrange(0, n as int) =~= w@);
            proof {
                let k = choose|k: int|
                    0 <= k < vs.len() && all_digits(#[trigger] vs[k]) && forall|j: int|
                        0 <= j < k ==> !all_digits(#[trigger] vs[j]);
                assert(!(k < i));
                assert(!(i < k));
            }
            return read_u32(&w, n);
        }
        assert(w@.subrange(0, n as int) =~= w@);
        i = i + 1;
    }
    None
}

/// Reads the id that `task add` reports in its output, such as "Created task 42.".
pub fn created_task_id(output: &str) -> (r: Option<u32>)
    ensures
        match r {
            Some(v) => reported_id(words(output@)) == Some(v as int),
            None => reported_id(words(output@)) is None,
        },
{
    let ws = split_words(output);
    id_from_words(&ws)
}

/// Keys bound to named actions; each name is bound at most once.
pub struct KeyBindings {
    pub bindings: Vec<(String, KeyPress)>,
}

/// The binding of `action` in `b`, if any.
pub open spec fn binding_of(b: Seq<(String, KeyPress)>, action: Seq<char>) -> Option<KeyPress> {
    if exists|i: int| 0 <= i < b.len() && (#[trigger] b[i]).0@ == action {
        let i = choose|i: int| 0 <= i < b.len() && (#[trigger] b[i]).0@ == action;
        Some(b[i].1)
    } else {
        None
    }
}

impl KeyBindings {
    pub open spec fn wf(&self) -> bool {
        forall|i: int, j: int|
            0 <= i < self.bindings@.len() && 0 <= j < self.bindings@.len() && (
            #[trigger] self.bindings@[i]).0@ == (#[trigger] self.bindings@[j]).0@ ==> i == j
    }

    /// The default bindings: `q` quits, F1 opens the help.
    pub fn new() -> (r: KeyBindings)
        ensures
            r.wf(),
            binding_of(r.bindings@, "quit"@) == Some(KeyPress { code: KeyCode::Char('q'), ctrl: false }),
            binding_of(r.bindings@, "help"@) == Some(KeyPress { code: KeyCode::F(1), ctrl: false }),
    {
        let mut bindings: Vec<(String, KeyPress)> = Vec::new();
        bindings.push((String::from_str("quit"), KeyPress { code: KeyCode::Char('q'), ctrl: false }));
        bindings.push((String::from_str("help"), KeyPress { code: KeyCode::F(1), ctrl: false }));
        proof {
            reveal_strlit("quit");
            reveal_strlit("help");
            assert("quit"@[0] == 'q');
            assert("help"@[0] == 'h');
            assert(bindings@[0].0@ != bindings@[1].0@);
            assert(bindings@[0].0@ == "quit"@);
            assert(bindings@[1].0@ == "help"@);
        }
        KeyBindings { bindings }
    }

    /// The key bound to `action`.
    pub fn get(&self, action: &str) -> (r: Option<&KeyPress>)
        requires
            self.wf(),
        ensures
            match binding_of(self.bindings@, action@) {
                Some(k) => r is Some && *r->0 == k,
                None => r is None,
            },
    {
        let mut i: usize = 0;
        while i < self.bindings.len()
            invariant
                self.wf(),
                i <= self.bindings@.len(),
                forall|k: int| 0 <= k < i ==> (#[trigger] self.bindings@[k]).0@ != action@,
            decreases self.bindings@.len() - i,
        {
            if same_text(self.bindings[i].0.as_str(), action) {
                proof {
                    let j = choose|j: int| 0 <= j < self.bindings@.len() && (#[trigger] self.bindings@[j]).0@ == action@;
                    assert(self.bindings@[j].0@ == self.bindings@[i as int].0@);
                    assert(j == i as int);
                }
                return Some(&self.bindings[i].1);
            }
            i = i + 1;
        }
        None
    }

    /// Whether `key` is the key bound to `action`.
    pub fn matches(&self, key: &KeyPress, action: &str) -> (r: bool)
        requires
            self.wf(),
        ensures
            r == (binding_of(self.bindings@, action@) == Some(*key)),
    {
        match self.get(action) {
            Some(b) => *b == *key,
            None => false,
        }
    }
}

} // verus!
