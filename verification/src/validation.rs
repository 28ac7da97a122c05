//! Cross-field validation: a field counts as filled only when it holds
//! at least one non-whitespace character.

use vstd::prelude::*;

verus! {

/// The characters Unicode assigns the `White_Space` property, the same
/// set `str::trim` strips.
pub open spec fn is_space_char(c: char) -> bool {
    let v = c as u32;
    ||| v == 0x09
    ||| v == 0x0A
    ||| v == 0x0B
    ||| v == 0x0C
    ||| v == 0x0D
    ||| v == 0x20
    ||| v == 0x85
    ||| v == 0xA0
    ||| v == 0x1680
    ||| (0x2000 <= v <= 0x200A)
    ||| v == 0x2028
    ||| v == 0x2029
    ||| v == 0x202F
    ||| v == 0x205F
    ||| v == 0x3000
}

/// True when the text would trim to nothing: empty, or whitespace only.
pub open spec fn is_blank_text(s: Seq<char>) -> bool {
    forall|i: int| 0 <= i < s.len() ==> is_space_char(#[trigger] s[i])
}

/// The first problem validation finds, name checked before id.
#[derive(Debug, Clone, Copy, PartialEq, Eq, Structural)]
pub enum FieldIssue {
    MissingName,
    MissingUserId,
}

/// The validation rule: both fields must be non-blank; a blank name is
/// reported before a blank id; nothing is reported when both are
/// filled.
pub open spec fn validation_of(name: Seq<char>, userid: Seq<char>) -> Option<FieldIssue> {
    if is_blank_text(name) {
        Some(FieldIssue::MissingName)
    } else if is_blank_text(userid) {
        Some(FieldIssue::MissingUserId)
    } else {
        None
    }
}

fn is_space(c: char) -> (r: bool)
    ensures
        r == is_space_char(c),
{
    let v = c as u32;
    v == 0x09 || v == 0x0A || v == 0x0B || v == 0x0C || v == 0x0D || v == 0x20 || v == 0x85
        || v == 0xA0 || v == 0x1680 || (0x2000 <= v && v <= 0x200A) || v == 0x2028 || v == 0x2029
        || v == 0x202F || v == 0x205F || v == 0x3000
}

/// Whether the text trims to nothing.
pub fn is_blank(s: &str) -> (r: bool)
    ensures
        r == is_blank_text(s@),
{
    let n = s.unicode_len();
    let mut i: usize = 0;
    while i < n
        invariant
            n == s@.len(),
            i <= n,
            forall|j: int| 0 <= j < i ==> is_space_char(#[trigger] s@[j]),
        decreases n - i,
    {
        if !is_space(s.get_char(i)) {
            return false;
        }
        i = i + 1;
    }
    true
}

/// Applies the validation rule to the two field texts.
pub fn validate(name: &str, userid: &str) -> (r: Option<FieldIssue>)
    ensures
        r == validation_of(name@, userid@),
{
    if is_blank(name) {
        Some(FieldIssue::MissingName)
    } else if is_blank(userid) {
        Some(FieldIssue::MissingUserId)
    } else {
        None
    }
}

/// The human-readable message for a validation problem.
pub fn issue_message(issue: FieldIssue) -> (r: String)
    ensures
        issue == FieldIssue::MissingName ==> r@ == "Please enter name"@,
        issue == FieldIssue::MissingUserId ==> r@ == "Please enter userid"@,
{
    match issue {
        FieldIssue::MissingName => "Please enter name".to_owned(),
        FieldIssue::MissingUserId => "Please enter userid".to_owned(),
    }
}

/// The validation rule in full: a blank name is reported whatever the
/// id holds, a blank id is reported only when the name is filled, and
/// validation passes exactly when both fields are non-blank.
pub proof fn lemma_validation_rule(name: Seq<char>, userid: Seq<char>)
    ensures
        is_blank_text(name) ==> validation_of(name, userid) == Some(FieldIssue::MissingName),
        !is_blank_text(name) && is_blank_text(userid) ==> validation_of(name, userid) == Some(
            FieldIssue::MissingUserId,
        ),
        validation_of(name, userid) is None <==> (!is_blank_text(name) && !is_blank_text(userid)),
{
}

} // verus!
