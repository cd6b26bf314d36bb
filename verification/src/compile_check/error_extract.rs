//! What an error of the database says about a query, told by its SQLSTATE code.

use vstd::prelude::*;

use crate::error::{DriverError, DriverErrorKind};
use crate::text;

verus! {

/// What an error says about a query.
#[derive(Debug)]
pub enum ErrorClass {
    /// There is no such table.
    MissingTable(String),
    /// There is no such column.
    MissingColumn(String),
    /// The query is no SQL.
    SyntaxError(String),
    /// Anything else.
    Other(String),
}

/// The text between the first two `mark`s.
pub open spec fn between(s: Seq<char>, mark: char) -> Option<Seq<char>> {
    match text::first_at(s, seq![mark], 0) {
        Some(i) => match text::first_at(s, seq![mark], (i + 1) as nat) {
            Some(j) => Some(s.subrange(i + 1, j)),
            None => None,
        },
        None => None,
    }
}

/// The name that a message quotes: between double quotes, else between single ones,
/// else the whole message.
pub open spec fn quoted_identifier(message: Seq<char>) -> Seq<char> {
    match between(message, '"') {
        Some(name) => name,
        None => match between(message, '\'') {
            Some(name) => name,
            None => message,
        },
    }
}

fn extract_between(s: &[char], mark: char) -> (r: Option<String>)
    ensures
        text::opt_text(r) == between(s@, mark),
{
    let mut part: Vec<char> = Vec::new();
    part.push(mark);
    assert(part@ =~= seq![mark]);
    let n: usize = s.len();
    match text::find_first(s, part.as_slice(), 0) {
        Some(i) => match text::find_first(s, part.as_slice(), i + 1) {
            Some(j) => Some(text::cut(s, i + 1, j)),
            None => None,
        },
        None => None,
    }
}

/// The name that a message quotes, of whatever kind it is.
pub fn extract_quoted_identifier(message: &str, _kind: &str) -> (r: String)
    ensures
        r@ == quoted_identifier(message@),
{
    let chars = text::chars_of(message);
    match extract_between(chars.as_slice(), '"') {
        Some(name) => name,
        None => match extract_between(chars.as_slice(), '\'') {
            Some(name) => name,
            None => message.to_owned(),
        },
    }
}

/// The SQLSTATE code of an error, where it has one.
pub open spec fn state_of(kind: DriverErrorKind) -> Option<Seq<char>> {
    match kind {
        DriverErrorKind::Server { sqlstate } => text::opt_text(sqlstate),
        _ => None,
    }
}

/// Whether `class` is what an error says about a query.
pub open spec fn is_class_of(class: ErrorClass, e: DriverError) -> bool {
    let state = state_of(e.kind);
    if state == Some("42P01"@) {
        class matches ErrorClass::MissingTable(t) && t@ == quoted_identifier(e.message@)
    } else if state == Some("42703"@) {
        class matches ErrorClass::MissingColumn(c) && c@ == quoted_identifier(e.message@)
    } else if state == Some("42601"@) {
        class matches ErrorClass::SyntaxError(m) && m@ == e.message@
    } else {
        class matches ErrorClass::Other(m) && m@ == e.message@
    }
}

/// What an error says about a query.
pub fn classify(err: &DriverError) -> (r: ErrorClass)
    ensures
        is_class_of(r, *err),
{
    if let DriverErrorKind::Server { sqlstate: Some(state) } = &err.kind {
        let state = state.as_str();
        if text::same_text(state, "42P01") {
            return ErrorClass::MissingTable(
                extract_quoted_identifier(err.message.as_str(), "table"),
            );
        }
        if text::same_text(state, "42703") {
            proof {
                lemma_states_differ();
            }
            return ErrorClass::MissingColumn(
                extract_quoted_identifier(err.message.as_str(), "column"),
            );
        }
        if text::same_text(state, "42601") {
            proof {
                lemma_states_differ();
            }
            return ErrorClass::SyntaxError(err.message.clone());
        }
    }
    ErrorClass::Other(err.message.clone())
}

proof fn lemma_states_differ()
    ensures
        "42P01"@ != "42703"@,
        "42P01"@ != "42601"@,
        "42703"@ != "42601"@,
{
    reveal_strlit("42P01");
    reveal_strlit("42703");
    reveal_strlit("42601");
    assert("42P01"@[2] == 'P' && "42703"@[2] == '7' && "42601"@[2] == '6');
}

/// A name that is quoted in a message is found, whatever stands around it, as long as
/// it holds no quote itself.
pub proof fn law_quoted_name_is_found(head: Seq<char>, name: Seq<char>, rest: Seq<char>)
    requires
        forall|i: int| 0 <= i < head.len() ==> #[trigger] head[i] != '"',
        forall|i: int| 0 <= i < name.len() ==> #[trigger] name[i] != '"',
    ensures
        quoted_identifier(head + seq!['"'] + name + seq!['"'] + rest) == name,
{
    let s = head + seq!['"'] + name + seq!['"'] + rest;
    let part = seq!['"'];
    let i = head.len() as int;
    let j = i + 1 + name.len();
    assert(s[i] == '"' && s[j] == '"');
    lemma_first(s, '"', 0, i);
    lemma_first(s, '"', i + 1, j);
    assert(s.subrange(i + 1, j) =~= name);
}

proof fn lemma_first(s: Seq<char>, mark: char, from: int, at: int)
    requires
        0 <= from <= at < s.len(),
        s[at] == mark,
        forall|k: int| from <= k < at ==> #[trigger] s[k] != mark,
    ensures
        text::first_at(s, seq![mark], from as nat) == Some(at),
    decreases at - from,
{
    if from < at {
        assert(s.subrange(from, from + 1)[0] == s[from]);
        lemma_first(s, mark, from + 1, at);
    } else {
        assert(s.subrange(at, at + 1) =~= seq![mark]);
    }
}

/// A name in double quotes comes before one in single quotes, the first of each kind counts,
/// and a message without a quoted name stands for itself.
pub proof fn law_quoted_names_in_order(
    head: Seq<char>,
    name: Seq<char>,
    rest: Seq<char>,
    message: Seq<char>,
)
    ensures
        !(head + seq!['\''] + name + seq!['\''] + rest).contains('"') && !head.contains('\'')
            && !name.contains('\'') ==> quoted_identifier(
            head + seq!['\''] + name + seq!['\''] + rest,
        ) == name,
        !message.contains('"') && !message.contains('\'') ==> quoted_identifier(message) == message,
{
    let whole = head + seq!['\''] + name + seq!['\''] + rest;
    if !whole.contains('"') {
        lemma_no_mark(whole, '"');
    }
    if !message.contains('"') {
        lemma_no_mark(message, '"');
    }
    if !message.contains('\'') {
        lemma_no_mark(message, '\'');
    }
    if !head.contains('\'') && !name.contains('\'') {
        let mark = seq!['\''];
        let i = head.len() as int;
        let j = (head.len() + 1 + name.len()) as int;
        text::law_first_place(whole, mark, 0);
        text::law_first_place(whole, mark, (i + 1) as nat);
        assert forall|k: int| 0 <= k < i implies !#[trigger] text::part_at(whole, mark, k) by {
            assert(whole.subrange(k, k + 1)[0] == head[k]);
        }
        assert(whole.subrange(i, i + 1) =~= mark);
        assert(text::part_at(whole, mark, i));
        assert forall|k: int| i + 1 <= k < j implies !#[trigger] text::part_at(whole, mark, k) by {
            assert(whole.subrange(k, k + 1)[0] == name[k - i - 1]);
        }
        assert(whole.subrange(j, j + 1) =~= mark);
        assert(text::part_at(whole, mark, j));
        assert(whole.subrange(i + 1, j) =~= name);
    }
}

proof fn lemma_no_mark(s: Seq<char>, mark: char)
    requires
        !s.contains(mark),
    ensures
        between(s, mark) is None,
{
    text::law_first_place(s, seq![mark], 0);
    if let Some(i) = text::first_at(s, seq![mark], 0) {
        assert(s.subrange(i, i + 1)[0] == s[i]);
        assert(s.contains(mark));
    }
}

/// The SQLSTATE code of a refusal tells what kind of error it is; without one, or with any
/// other, the message is all that is known.
pub proof fn law_classes_of_errors(class: ErrorClass, e: DriverError)
    requires
        is_class_of(class, e),
    ensures
        e.kind matches DriverErrorKind::Server { sqlstate: Some(state) } ==> {
            &&& state@ == "42P01"@ ==> (class matches ErrorClass::MissingTable(t) && t@
                == quoted_identifier(e.message@))
            &&& state@ == "42703"@ ==> (class matches ErrorClass::MissingColumn(c) && c@
                == quoted_identifier(e.message@))
            &&& state@ == "42601"@ ==> (class matches ErrorClass::SyntaxError(m) && m@ == e.message@)
            &&& state@ != "42P01"@ && state@ != "42703"@ && state@ != "42601"@ ==> (
            class matches ErrorClass::Other(m) && m@ == e.message@)
        },
        !(e.kind matches DriverErrorKind::Server { sqlstate: Some(_) }) ==> (
        class matches ErrorClass::Other(m) && m@ == e.message@),
{
    reveal_strlit("42P01");
    reveal_strlit("42703");
    reveal_strlit("42601");
    assert("42P01"@[2] == 'P' && "42703"@[2] == '7' && "42601"@[2] == '6');
}

} // verus!
