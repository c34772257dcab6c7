use vstd::prelude::*;

verus! {

/// Longest task description accepted, in bytes of UTF-8.
pub const MAX_DESCRIPTION: usize = 1000;

/// Why a user-entered name or description is refused.
#[derive(Debug, Clone, Copy, PartialEq, Eq, Structural)]
pub enum ValidationError {
    /// Empty, or only white space for a description.
    Empty,
    /// Longer than allowed.
    TooLong,
    /// Holds a space.
    HasSpace,
    /// Holds a character outside the allowed set.
    BadCharacter,
}

impl ValidationError {
    /// The message shown to the user.
    pub fn message(&self) -> (r: &'static str) {
        match self {
            ValidationError::Empty => "value cannot be empty",
            ValidationError::TooLong => "value is too long (max 1000 bytes)",
            ValidationError::HasSpace => "value cannot contain spaces",
            ValidationError::BadCharacter => "value holds a character that is not allowed",
        }
    }
}

/// Whether `char::is_whitespace` holds of a character.
pub uninterp spec fn white_space(c: char) -> bool;

/// Whether `char::is_alphanumeric` holds of a character.
pub uninterp spec fn alphanumeric(c: char) -> bool;

pub open spec fn ascii_alphanumeric(c: char) -> bool {
    ('0' <= c && c <= '9') || ('a' <= c && c <= 'z') || ('A' <= c && c <= 'Z')
}

/// Relies on `char::is_whitespace` (the Unicode White_Space property).
#[verifier::external_body]
pub(crate) fn is_white_space(c: char) -> (r: bool)
    ensures
        r == white_space(c),
{
    c.is_whitespace()
}

/// Relies on `char::is_alphanumeric` (alphabetic or numeric); among ASCII
/// characters those are the digits and the Latin letters.
#[verifier::external_body]
fn is_alphanumeric(c: char) -> (r: bool)
    ensures
        r == alphanumeric(c),
        (c as u32) < 128 ==> (r == ascii_alphanumeric(c)),
{
    c.is_alphanumeric()
}

/// `text` cut to `max_length` characters, ending in "..." when cut.
pub open spec fn truncated(text: Seq<char>, max_length: int) -> Seq<char> {
    if text.len() <= max_length {
        text
    } else {
        text.subrange(0, if max_length >= 3 {
            max_length - 3
        } else {
            0
        }) + "..."@
    }
}

/// Shortens text to at most `max_length` characters of content plus "...".
pub fn truncate_text(text: &str, max_length: usize) -> (r: String)
    ensures
        r@ == truncated(text@, max_length as int),
{
    let n = text.unicode_len();
    if n <= max_length {
        String::from_str(text)
    } else {
        let keep: usize = if max_length >= 3 {
            max_length - 3
        } else {
            0
        };
        String::from_str(text.substring_char(0, keep)).concat("...")
    }
}

/// The description is blank (white space only).
pub open spec fn is_blank(s: Seq<char>) -> bool {
    forall|i: int| 0 <= i < s.len() ==> white_space(#[trigger] s[i])
}

/// A character allowed in a project name.
pub open spec fn project_char(c: char) -> bool {
    alphanumeric(c) || c == '.' || c == '_' || c == '-'
}

/// A character allowed in a tag.
pub open spec fn tag_char(c: char) -> bool {
    alphanumeric(c) || c == '_' || c == '-'
}

pub open spec fn description_check(s: Seq<char>, bytes: nat) -> Result<(), ValidationError> {
    if is_blank(s) {
        Err(ValidationError::Empty)
    } else if bytes > MAX_DESCRIPTION {
        Err(ValidationError::TooLong)
    } else {
        Ok(())
    }
}

/// Every character of `s` satisfies `allowed`.
pub open spec fn all_allowed(s: Seq<char>, allowed: spec_fn(char) -> bool) -> bool {
    forall|i: int| 0 <= i < s.len() ==> allowed(#[trigger] s[i])
}

pub open spec fn name_check(s: Seq<char>, allowed: spec_fn(char) -> bool) -> Result<(), ValidationError> {
    if s.len() == 0 {
        Err(ValidationError::Empty)
    } else if s.contains(' ') {
        Err(ValidationError::HasSpace)
    } else if !all_allowed(s, allowed) {
        Err(ValidationError::BadCharacter)
    } else {
        Ok(())
    }
}

pub open spec fn project_chars() -> spec_fn(char) -> bool {
    |c: char| project_char(c)
}

pub open spec fn tag_chars() -> spec_fn(char) -> bool {
    |c: char| tag_char(c)
}

/// A task description must hold something other than white space and be at
/// most 1000 bytes long.
pub fn validate_task_description(description: &str) -> (r: Result<(), ValidationError>)
    ensures
        r == description_check(description@, description.len() as nat),
{
    let n = description.unicode_len();
    let mut i: usize = 0;
    while i < n
        invariant
            n == description@.len(),
            i <= n,
            forall|k: int| 0 <= k < i ==> white_space(#[trigger] description@[k]),
        decreases n - i,
    {
        if !is_white_space(description.get_char(i)) {
            if description.len() > MAX_DESCRIPTION {
                return Err(ValidationError::TooLong);
            }
            return Ok(());
        }
        i = i + 1;
    }
    Err(ValidationError::Empty)
}

fn has_space(s: &str) -> (r: bool)
    ensures
        r == s@.contains(' '),
{
    let n = s.unicode_len();
    let mut i: usize = 0;
    while i < n
        invariant
            n == s@.len(),
            i <= n,
            forall|k: int| 0 <= k < i ==> s@[k] != ' ',
        decreases n - i,
    {
        if s.get_char(i) == ' ' {
            assert(s@[i as int] == ' ');
            return true;
        }
        i = i + 1;
    }
    false
}

/// A project name is non-empty, has no space, and holds only letters,
/// digits, '.', '_' and '-'.
pub fn validate_project_name(project: &str) -> (r: Result<(), ValidationError>)
    ensures
        r == name_check(project@, project_chars()),
{
    let n = project.unicode_len();
    if n == 0 {
        return Err(ValidationError::Empty);
    }
    if has_space(project) {
        return Err(ValidationError::HasSpace);
    }
    let mut i: usize = 0;
    while i < n
        invariant
            n == project@.len(),
            i <= n,
            !project@.contains(' '),
            project@.len() > 0,
            forall|k: int| 0 <= k < i ==> project_chars()(#[trigger] project@[k]),
        decreases n - i,
    {
        let c = project.get_char(i);
        if !(is_alphanumeric(c) || c == '.' || c == '_' || c == '-') {
            assert(!project_chars()(project@[i as int]));
            assert(!all_allowed(project@, project_chars()));
            return Err(ValidationError::BadCharacter);
        }
        i = i + 1;
    }
    Ok(())
}

/// A tag is non-empty, has no space, and holds only letters, digits, '_' and '-'.
pub fn validate_tag_name(tag: &str) -> (r: Result<(), ValidationError>)
    ensures
        r == name_check(tag@, tag_chars()),
{
    let n = tag.unicode_len();
    if n == 0 {
        return Err(ValidationError::Empty);
    }
    if has_space(tag) {
        return Err(ValidationError::HasSpace);
    }
    let mut i: usize = 0;
    while i < n
        invariant
            n == tag@.len(),
            i <= n,
            !tag@.contains(' '),
            tag@.len() > 0,
            forall|k: int| 0 <= k < i ==> tag_chars()(#[trigger] tag@[k]),
        decreases n - i,
    {
        let c = tag.get_char(i);
        if !(is_alphanumeric(c) || c == '_' || c == '-') {
            assert(!tag_chars()(tag@[i as int]));
            assert(!all_allowed(tag@, tag_chars()));
            return Err(ValidationError::BadCharacter);
        }
        i = i + 1;
    }
    Ok(())
}

} // verus!
