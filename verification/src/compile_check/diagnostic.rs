//! What is wrong with a query, in words.

use vstd::prelude::*;

use crate::text;

verus! {

/// What is wrong with a query.
#[derive(Debug)]
pub enum ValidationError {
    /// The struct is not registered.
    StructNotRegistered {
        /// The name of the struct.
        struct_name: String,
    },
    /// Tables that the query names are not registered.
    TablesNotRegistered {
        /// The names of the tables.
        tables: Vec<String>,
    },
    /// The query lacks columns that the struct needs.
    MissingColumns {
        /// The name of the struct.
        struct_name: String,
        /// The names of the columns.
        missing: Vec<String>,
    },
    /// The query names a column that no table in it has.
    UnknownColumn {
        /// The name of the column.
        column: String,
    },
    /// The query is no SQL.
    SqlSyntaxError {
        /// What the database says.
        message: String,
    },
    /// The query could not be checked.
    HyperError {
        /// What the database says.
        message: String,
    },
}

/// A text as `{:?}` shows it.
pub uninterp spec fn debug_text(s: Seq<char>) -> Seq<char>;

/// Whether a text is made of letters, digits and underscores.
pub open spec fn is_plain(s: Seq<char>) -> bool {
    forall|i: int|
        0 <= i < s.len() ==> text::is_letter(#[trigger] s[i]) || text::is_digit(s[i]) || s[i] == '_'
}

/// A text between double quotes.
pub open spec fn quoted(s: Seq<char>) -> Seq<char> {
    "\""@ + s + "\""@
}

/// `Debug` for `str`: the text between double quotes, with what cannot be shown
/// escaped, which depends on the text alone. A text of letters, digits and underscores
/// is kept as it is.
#[verifier::external_body]
fn debug_string(s: &str) -> (r: String)
    ensures
        r@ == debug_text(s@),
        is_plain(s@) ==> r@ == quoted(s@),
{
    format!("{s:?}")
}

/// Texts in brackets, each as `{:?}` shows it.
pub open spec fn debug_list(texts: Seq<Seq<char>>) -> Seq<char> {
    "["@ + text::joined(texts.map_values(|t: Seq<char>| debug_text(t)), ", "@) + "]"@
}

/// Whether each text of letters, digits and underscores is shown between double quotes.
pub open spec fn plain_are_quoted(texts: Seq<Seq<char>>) -> bool {
    forall|i: int|
        0 <= i < texts.len() && is_plain(#[trigger] texts[i]) ==> debug_text(texts[i]) == quoted(
            texts[i],
        )
}

fn debug_strings(texts: &Vec<String>) -> (r: String)
    ensures
        r@ == debug_list(text::texts(texts@)),
        plain_are_quoted(text::texts(texts@)),
{
    let mut shown: Vec<String> = Vec::new();
    let mut i: usize = 0;
    while i < texts.len()
        invariant
            i <= texts@.len(),
            shown@.len() == i,
            forall|j: int| 0 <= j < i ==> #[trigger] shown@[j]@ == debug_text(texts@[j]@),
            forall|j: int|
                0 <= j < i && is_plain(#[trigger] texts@[j]@) ==> debug_text(texts@[j]@) == quoted(
                    texts@[j]@,
                ),
        decreases texts@.len() - i,
    {
        shown.push(debug_string(texts[i].as_str()));
        i = i + 1;
    }
    assert(text::texts(shown@) =~= text::texts(texts@).map_values(
        |t: Seq<char>| debug_text(t),
    ));
    assert(plain_are_quoted(text::texts(texts@))) by {
        assert forall|j: int|
            0 <= j < text::texts(texts@).len() && is_plain(
                #[trigger] text::texts(texts@)[j],
            ) implies debug_text(text::texts(texts@)[j]) == quoted(text::texts(texts@)[j]) by {
            assert(text::texts(texts@)[j] == texts@[j]@);
        }
    }
    let list = text::join(&shown, ", ");
    text::cat3("[", list.as_str(), "]")
}

/// The words for an error, where `one` shows the first name and `all` all of them.
pub open spec fn diagnostic_words(e: ValidationError, one: Seq<char>, all: Seq<char>) -> Seq<char> {
    match e {
        ValidationError::StructNotRegistered { struct_name } => "type `"@ + struct_name@
            + "` must `#[derive(Table)]` with `#[hyperdb(register)]` to be used with `query_as!`"@,
        ValidationError::TablesNotRegistered { tables } => if tables@.len() == 1 {
            "table "@ + one
                + " is not registered; did you forget `#[derive(Table)] #[hyperdb(register)]` on the struct that maps to it?"@
        } else {
            "tables "@ + all
                + " are not registered; add `#[derive(Table)] #[hyperdb(register)]` to the structs that map to them"@
        },
        ValidationError::MissingColumns { struct_name, missing } => if missing@.len() == 1 {
            "`"@ + struct_name@ + "` requires column "@ + one
                + " but the query does not project it; add it to the SELECT list or remove the field from `"@
                + struct_name@ + "`"@
        } else {
            "`"@ + struct_name@ + "` requires columns "@ + all
                + " but the query does not project them; add them to the SELECT list or remove the fields from `"@
                + struct_name@ + "`"@
        },
        ValidationError::UnknownColumn { .. } => "column "@ + one
            + " does not exist on any table in the query; check for a typo or a renamed/dropped column"@,
        ValidationError::SqlSyntaxError { message } => "SQL syntax error: "@ + message@,
        ValidationError::HyperError { message } => "Hyper validation error: "@ + message@,
    }
}

/// The names that an error is about.
pub open spec fn subjects(e: ValidationError) -> Seq<Seq<char>> {
    match e {
        ValidationError::TablesNotRegistered { tables } => text::texts(tables@),
        ValidationError::MissingColumns { missing, .. } => text::texts(missing@),
        ValidationError::UnknownColumn { column } => seq![column@],
        _ => Seq::empty(),
    }
}

/// The words for an error.
pub open spec fn diagnostic(e: ValidationError) -> Seq<char> {
    let names = subjects(e);
    diagnostic_words(
        e,
        if names.len() == 1 {
            debug_text(names[0])
        } else {
            Seq::empty()
        },
        debug_list(names),
    )
}

/// Texts in brackets, each between double quotes.
pub open spec fn quoted_list(texts: Seq<Seq<char>>) -> Seq<char> {
    "["@ + text::joined(texts.map_values(|t: Seq<char>| quoted(t)), ", "@) + "]"@
}

/// The words for an error, where each of the names that it is about is shown between double
/// quotes.
pub open spec fn plain_diagnostic(e: ValidationError) -> Seq<char> {
    let names = subjects(e);
    diagnostic_words(
        e,
        if names.len() == 1 {
            quoted(names[0])
        } else {
            Seq::empty()
        },
        quoted_list(names),
    )
}

/// Whether all names that an error is about are made of letters, digits and underscores.
pub open spec fn all_plain(e: ValidationError) -> bool {
    forall|i: int| 0 <= i < subjects(e).len() ==> is_plain(#[trigger] subjects(e)[i])
}

proof fn lemma_plain_words(e: ValidationError)
    requires
        plain_are_quoted(subjects(e)),
        all_plain(e),
    ensures
        diagnostic(e) == plain_diagnostic(e),
{
    let names = subjects(e);
    assert(names.map_values(|t: Seq<char>| debug_text(t)) =~= names.map_values(
        |t: Seq<char>| quoted(t),
    ));
}

proof fn lemma_part_within(a: Seq<char>, part: Seq<char>, b: Seq<char>)
    ensures
        text::has_part(a + part + b, part),
{
    let whole = a + part + b;
    assert(whole.subrange(a.len() as int, (a.len() + part.len()) as int) =~= part);
    assert(text::part_at(whole, part, a.len() as int));
}

proof fn lemma_part_of_part(a: Seq<char>, middle: Seq<char>, b: Seq<char>, part: Seq<char>)
    requires
        text::has_part(middle, part),
    ensures
        text::has_part(a + middle + b, part),
{
    let at = choose|at: int| text::part_at(middle, part, at);
    let whole = a + middle + b;
    assert(whole.subrange(a.len() + at, a.len() + at + part.len()) =~= middle.subrange(
        at,
        at + part.len(),
    ));
    assert(text::part_at(whole, part, a.len() + at));
}

proof fn lemma_joined_has(parts: Seq<Seq<char>>, sep: Seq<char>, i: int)
    requires
        0 <= i < parts.len(),
    ensures
        text::has_part(text::joined(parts, sep), parts[i]),
    decreases parts.len(),
{
    let none = Seq::<char>::empty();
    if parts.len() == 1 {
        assert(none + parts[0] + none =~= parts[0]);
        lemma_part_within(none, parts[0], none);
    } else if i == parts.len() - 1 {
        let head = text::joined(parts.drop_last(), sep) + sep;
        assert(head + parts[i] + none =~= text::joined(parts, sep));
        lemma_part_within(head, parts[i], none);
    } else {
        lemma_joined_has(parts.drop_last(), sep, i);
        let head = text::joined(parts.drop_last(), sep);
        assert(none + head + (sep + parts.last()) =~= text::joined(parts, sep));
        lemma_part_of_part(none, head, sep + parts.last(), parts[i]);
    }
}

proof fn lemma_name_is_shown(e: ValidationError, i: int)
    requires
        0 <= i < subjects(e).len(),
    ensures
        text::has_part(diagnostic(e), debug_text(subjects(e)[i])),
{
    let names = subjects(e);
    let shown = names.map_values(|t: Seq<char>| debug_text(t));
    let name = debug_text(names[i]);
    let none = Seq::<char>::empty();
    assert(shown[i] == name);
    lemma_joined_has(shown, ", "@, i);
    lemma_part_of_part("["@, text::joined(shown, ", "@), "]"@, name);
    let all = debug_list(names);
    assert(none + name + none =~= name);
    lemma_part_within(none, name, none);
    let one = if names.len() == 1 {
        name
    } else {
        all
    };
    let (head, tail) = match e {
        ValidationError::TablesNotRegistered { tables } => if tables@.len() == 1 {
            (
                "table "@,
                " is not registered; did you forget `#[derive(Table)] #[hyperdb(register)]` on the struct that maps to it?"@,
            )
        } else {
            (
                "tables "@,
                " are not registered; add `#[derive(Table)] #[hyperdb(register)]` to the structs that map to them"@,
            )
        },
        ValidationError::MissingColumns { struct_name, missing } => if missing@.len() == 1 {
            (
                "`"@ + struct_name@ + "` requires column "@,
                " but the query does not project it; add it to the SELECT list or remove the field from `"@
                    + struct_name@ + "`"@,
            )
        } else {
            (
                "`"@ + struct_name@ + "` requires columns "@,
                " but the query does not project them; add them to the SELECT list or remove the fields from `"@
                    + struct_name@ + "`"@,
            )
        },
        _ => (
            "column "@,
            " does not exist on any table in the query; check for a typo or a renamed/dropped column"@,
        ),
    };
    assert(head + one + tail =~= diagnostic(e));
    lemma_part_of_part(head, one, tail, name);
}

impl ValidationError {
    /// The words for an error whose first name is shown as `one`, and all of whose
    /// names are shown as `all`.
    pub fn to_diagnostic_with(&self, one: &str, all: &str) -> (r: String)
        ensures
            r@ == diagnostic_words(*self, one@, all@),
    {
        match self {
            ValidationError::StructNotRegistered { struct_name } => text::cat3(
                "type `",
                struct_name.as_str(),
                "` must `#[derive(Table)]` with `#[hyperdb(register)]` to be used with `query_as!`",
            ),
            ValidationError::TablesNotRegistered { tables } => {
                if tables.len() == 1 {
                    text::cat3(
                        "table ",
                        one,
                        " is not registered; did you forget `#[derive(Table)] #[hyperdb(register)]` on the struct that maps to it?",
                    )
                } else {
                    text::cat3(
                        "tables ",
                        all,
                        " are not registered; add `#[derive(Table)] #[hyperdb(register)]` to the structs that map to them",
                    )
                }
            },
            ValidationError::MissingColumns { struct_name, missing } => {
                if missing.len() == 1 {
                    text::cat7(
                        "`",
                        struct_name.as_str(),
                        "` requires column ",
                        one,
                        " but the query does not project it; add it to the SELECT list or remove the field from `",
                        struct_name.as_str(),
                        "`",
                    )
                } else {
                    text::cat7(
                        "`",
                        struct_name.as_str(),
                        "` requires columns ",
                        all,
                        " but the query does not project them; add them to the SELECT list or remove the fields from `",
                        struct_name.as_str(),
                        "`",
                    )
                }
            },
            ValidationError::UnknownColumn { .. } => text::cat3(
                "column ",
                one,
                " does not exist on any table in the query; check for a typo or a renamed/dropped column",
            ),
            ValidationError::SqlSyntaxError { message } => text::cat2(
                "SQL syntax error: ",
                message.as_str(),
            ),
            ValidationError::HyperError { message } => text::cat2(
                "Hyper validation error: ",
                message.as_str(),
            ),
        }
    }

    /// The words for this error. A name of letters, digits and underscores stands in them
    /// between double quotes.
    pub fn to_diagnostic(&self) -> (r: String)
        ensures
            r@ == diagnostic(*self),
            all_plain(*self) ==> r@ == plain_diagnostic(*self),
            forall|i: int|
                0 <= i < subjects(*self).len() && is_plain(#[trigger] subjects(*self)[i])
                    ==> text::has_part(r@, quoted(subjects(*self)[i])),
    {
        let mut names: Vec<String> = Vec::new();
        match self {
            ValidationError::TablesNotRegistered { tables } => {
                names = tables.clone();
                assert(text::texts(names@) =~= text::texts(tables@));
            },
            ValidationError::MissingColumns { missing, .. } => {
                names = missing.clone();
                assert(text::texts(names@) =~= text::texts(missing@));
            },
            ValidationError::UnknownColumn { column } => {
                names.push(column.clone());
                assert(text::texts(names@) =~= seq![column@]);
            },
            _ => {
                assert(text::texts(names@) =~= Seq::empty());
            },
        }
        let one = if names.len() == 1 {
            assert(text::texts(names@)[0] == names@[0]@);
            debug_string(names[0].as_str())
        } else {
            String::new()
        };
        assert(names@.len() != 1 ==> one@ =~= Seq::empty());
        let all = debug_strings(&names);
        proof {
            assert(plain_are_quoted(subjects(*self)));
            if all_plain(*self) {
                lemma_plain_words(*self);
            }
            assert forall|i: int|
                0 <= i < subjects(*self).len() && is_plain(
                    #[trigger] subjects(*self)[i],
                ) implies text::has_part(diagnostic(*self), quoted(subjects(*self)[i])) by {
                lemma_name_is_shown(*self, i);
            }
        }
        self.to_diagnostic_with(one.as_str(), all.as_str())
    }
}

/// What is said of each error: which type, tables, columns or statement it is about, and what
/// to do about it; of one table or column it is spoken in the singular.
pub proof fn law_words_of_errors(e: ValidationError, one: Seq<char>, all: Seq<char>)
    ensures
        e matches ValidationError::StructNotRegistered { struct_name } ==> diagnostic_words(
            e,
            one,
            all,
        ) == "type `"@ + struct_name@
            + "` must `#[derive(Table)]` with `#[hyperdb(register)]` to be used with `query_as!`"@,
        e matches ValidationError::TablesNotRegistered { tables } ==> {
            &&& tables@.len() == 1 ==> diagnostic_words(e, one, all) == "table "@ + one
                + " is not registered; did you forget `#[derive(Table)] #[hyperdb(register)]` on the struct that maps to it?"@
            &&& tables@.len() != 1 ==> diagnostic_words(e, one, all) == "tables "@ + all
                + " are not registered; add `#[derive(Table)] #[hyperdb(register)]` to the structs that map to them"@
        },
        e matches ValidationError::MissingColumns { struct_name, missing } ==> {
            &&& missing@.len() == 1 ==> diagnostic_words(e, one, all) == "`"@ + struct_name@
                + "` requires column "@ + one
                + " but the query does not project it; add it to the SELECT list or remove the field from `"@
                + struct_name@ + "`"@
            &&& missing@.len() != 1 ==> diagnostic_words(e, one, all) == "`"@ + struct_name@
                + "` requires columns "@ + all
                + " but the query does not project them; add them to the SELECT list or remove the fields from `"@
                + struct_name@ + "`"@
        },
        e is UnknownColumn ==> diagnostic_words(e, one, all) == "column "@ + one
            + " does not exist on any table in the query; check for a typo or a renamed/dropped column"@,
        e matches ValidationError::SqlSyntaxError { message } ==> diagnostic_words(e, one, all)
            == "SQL syntax error: "@ + message@,
        e matches ValidationError::HyperError { message } ==> diagnostic_words(e, one, all)
            == "Hyper validation error: "@ + message@,
{
}

/// What an error names are its tables or columns, in order; they are shown as a program
/// would write them, in brackets and parted by commas where there are several.
pub proof fn law_subjects_are_shown(e: ValidationError)
    ensures
        e matches ValidationError::TablesNotRegistered { tables } ==> subjects(e) == text::texts(
            tables@,
        ),
        e matches ValidationError::MissingColumns { missing, .. } ==> subjects(e) == text::texts(
            missing@,
        ),
        e matches ValidationError::UnknownColumn { column } ==> subjects(e) == seq![column@],
        e is StructNotRegistered || e is SqlSyntaxError || e is HyperError ==> subjects(e).len()
            == 0,
        subjects(e).len() == 1 ==> diagnostic(e) == diagnostic_words(
            e,
            debug_text(subjects(e)[0]),
            debug_list(subjects(e)),
        ) && plain_diagnostic(e) == diagnostic_words(
            e,
            "\""@ + subjects(e)[0] + "\""@,
            quoted_list(subjects(e)),
        ),
        subjects(e).len() != 1 ==> diagnostic(e) == diagnostic_words(
            e,
            Seq::empty(),
            "["@ + text::joined(subjects(e).map_values(|t: Seq<char>| debug_text(t)), ", "@) + "]"@,
        ) && plain_diagnostic(e) == diagnostic_words(
            e,
            Seq::empty(),
            "["@ + text::joined(subjects(e).map_values(|t: Seq<char>| quoted(t)), ", "@) + "]"@,
        ),
{
}

} // verus!
