//! Telling from the words of a failure whether a table is not there.

use vstd::prelude::*;

use crate::text;

verus! {

/// What is left of `s` behind the first `q`; nothing where there is none.
pub open spec fn past_quote(s: Seq<char>, q: char) -> Option<Seq<char>>
    decreases s.len(),
{
    if s.len() == 0 {
        None
    } else if s[0] == q {
        Some(s.skip(1))
    } else {
        past_quote(s.skip(1), q)
    }
}

proof fn lemma_past_quote_shorter(s: Seq<char>, q: char)
    ensures
        past_quote(s, q) matches Some(r) ==> r.len() < s.len(),
    decreases s.len(),
{
    if s.len() > 0 && s[0] != q {
        lemma_past_quote_shorter(s.skip(1), q);
    }
}

/// Whether `c` begins and ends a quoted name.
pub open spec fn is_quote(c: char) -> bool {
    c == '"' || c == '\''
}

/// What is left of `s` behind the name at its beginning, which ends at the first white
/// space that is not quoted; nothing where a quote does not end.
pub open spec fn past_name(s: Seq<char>) -> Option<Seq<char>>
    decreases s.len(),
    via past_name_decreases
{
    if s.len() == 0 || text::is_white_space(s[0]) {
        Some(s)
    } else if is_quote(s[0]) {
        match past_quote(s.skip(1), s[0]) {
            Some(rest) => past_name(rest),
            None => None,
        }
    } else {
        past_name(s.skip(1))
    }
}

#[via_fn]
proof fn past_name_decreases(s: Seq<char>) {
    if s.len() > 0 {
        lemma_past_quote_shorter(s.skip(1), s[0]);
    }
}

/// Whether `s`, which stands behind the word for a thing, says that the thing, by its
/// name or without one, does not exist.
pub open spec fn says_absent(s: Seq<char>) -> bool {
    ||| text::has_head(s, " does not exist"@)
    ||| s.len() > 0 && s[0] == ' ' && match past_name(s.skip(1)) {
        Some(rest) => text::has_head(rest, " does not exist"@),
        None => false,
    }
}

/// Whether a word may begin behind `before`.
pub open spec fn ends_a_word(before: Seq<char>) -> bool {
    before.len() == 0 || text::is_white_space(before.last()) || before.last() == ':'
        || before.last() == '('
}

/// Whether what follows `before` only says where something else belongs, as the table
/// does in `column "c" of relation "t" does not exist`.
pub open spec fn ends_in_preposition(before: Seq<char>) -> bool {
    ||| text::has_tail(before, " of "@)
    ||| text::has_tail(before, " for "@)
    ||| text::has_tail(before, " on "@)
    ||| text::has_tail(before, " in "@)
    ||| text::has_tail(before, " from "@)
    ||| text::has_tail(before, " of the "@)
    ||| text::has_tail(before, " for the "@)
    ||| text::has_tail(before, " on the "@)
    ||| text::has_tail(before, " in the "@)
    ||| text::has_tail(before, " from the "@)
}

/// Whether `s` says, from position `at` on, that the thing called `word` does not exist.
pub open spec fn says_absent_at(s: Seq<char>, word: Seq<char>, at: int) -> bool {
    &&& text::part_at(s, word, at)
    &&& ends_a_word(s.take(at))
    &&& !ends_in_preposition(s.take(at))
    &&& says_absent(s.skip(at + word.len()))
}

/// Whether `s` says somewhere that the thing called `word` does not exist.
pub open spec fn says_missing(s: Seq<char>, word: Seq<char>) -> bool {
    exists|at: int| says_absent_at(s, word, at)
}

/// Whether a message, given as it is and in lower case, says that a table is not there: by
/// its SQLSTATE code, as an undefined table, or as a relation or table that does not exist.
pub open spec fn says_table_missing(msg: Seq<char>, lower: Seq<char>) -> bool {
    ||| text::has_part(msg, "42P01"@)
    ||| text::has_part(lower, "undefined table"@)
    ||| says_missing(lower, "relation"@)
    ||| says_missing(lower, "table"@)
}

fn quote_end(s: &[char], from: usize, q: char) -> (r: Option<usize>)
    requires
        from <= s@.len(),
    ensures
        match r {
            Some(k) => from < k <= s@.len() && past_quote(s@.skip(from as int), q) == Some(
                s@.skip(k as int),
            ),
            None => past_quote(s@.skip(from as int), q) is None,
        },
{
    let mut i: usize = from;
    while i < s.len()
        invariant
            from <= i <= s@.len(),
            past_quote(s@.skip(from as int), q) == past_quote(s@.skip(i as int), q),
        decreases s@.len() - i,
    {
        assert(s@.skip(i as int).skip(1) =~= s@.skip(i + 1));
        if s[i] == q {
            return Some(i + 1);
        }
        i = i + 1;
    }
    None
}

fn name_end(s: &[char], from: usize) -> (r: Option<usize>)
    requires
        from <= s@.len(),
    ensures
        match r {
            Some(k) => from <= k <= s@.len() && past_name(s@.skip(from as int)) == Some(
                s@.skip(k as int),
            ),
            None => past_name(s@.skip(from as int)) is None,
        },
{
    let mut i: usize = from;
    while i < s.len()
        invariant
            from <= i <= s@.len(),
            past_name(s@.skip(from as int)) == past_name(s@.skip(i as int)),
        decreases s@.len() - i,
    {
        let c = s[i];
        assert(s@.skip(i as int).skip(1) =~= s@.skip(i + 1));
        if text::white_space(c) {
            return Some(i);
        }
        if c == '"' || c == '\'' {
            match quote_end(s, i + 1, c) {
                Some(k) => {
                    i = k;
                },
                None => {
                    return None;
                },
            }
        } else {
            i = i + 1;
        }
    }
    Some(i)
}

fn absent_behind(s: &[char], from: usize) -> (r: bool)
    requires
        from <= s@.len(),
    ensures
        r == says_absent(s@.skip(from as int)),
{
    let words = text::chars_of(" does not exist");
    if stands_behind(s, words.as_slice(), from) {
        return true;
    }
    if from < s.len() && s[from] == ' ' {
        assert(s@.skip(from as int).skip(1) =~= s@.skip(from + 1));
        match name_end(s, from + 1) {
            Some(k) => stands_behind(s, words.as_slice(), k),
            None => false,
        }
    } else {
        false
    }
}

fn stands_behind(s: &[char], part: &[char], from: usize) -> (r: bool)
    requires
        from <= s@.len(),
    ensures
        r == text::has_head(s@.skip(from as int), part@),
{
    let r = text::stands_at(s, part, from);
    proof {
        let t = s@.skip(from as int);
        if from + part@.len() <= s@.len() {
            assert(t.subrange(0, part@.len() as int) =~= s@.subrange(
                from as int,
                from + part@.len(),
            ));
        }
    }
    r
}

fn word_begins(s: &[char], at: usize) -> (r: bool)
    requires
        at <= s@.len(),
    ensures
        r == ends_a_word(s@.take(at as int)),
{
    if at == 0 {
        return true;
    }
    let c = s[at - 1];
    assert(s@.take(at as int).last() == c);
    text::white_space(c) || c == ':' || c == '('
}

fn behind_preposition(s: &[char], at: usize) -> (r: bool)
    requires
        at <= s@.len(),
    ensures
        r == ends_in_preposition(s@.take(at as int)),
{
    let before = text::cut(s, 0, at);
    assert(before@ =~= s@.take(at as int));
    let t = before.as_str();
    text::ends_with(t, " of ") || text::ends_with(t, " for ") || text::ends_with(t, " on ")
        || text::ends_with(t, " in ") || text::ends_with(t, " from ") || text::ends_with(
        t,
        " of the ",
    ) || text::ends_with(t, " for the ") || text::ends_with(t, " on the ") || text::ends_with(
        t,
        " in the ",
    ) || text::ends_with(t, " from the ")
}

fn missing_in(s: &[char], word: &str) -> (r: bool)
    ensures
        r == says_missing(s@, word@),
{
    let part = text::chars_of(word);
    let mut at: usize = 0;
    while at < s.len()
        invariant
            at <= s@.len(),
            part@ == word@,
            forall|k: int| 0 <= k < at ==> !says_absent_at(s@, word@, k),
        decreases s@.len() - at,
    {
        if text::stands_at(s, part.as_slice(), at) && word_begins(s, at) && !behind_preposition(
            s,
            at,
        ) {
            let n: usize = part.len();
            assert(at + n <= s@.len());
            if absent_behind(s, at + n) {
                assert(says_absent_at(s@, word@, at as int));
                return true;
            }
        }
        at = at + 1;
    }
    proof {
        assert forall|k: int| !says_absent_at(s@, word@, k) by {
            if k >= s@.len() && says_absent_at(s@, word@, k) {
                let rest = s@.skip(k + word@.len());
                assert(rest.len() == 0);
                reveal_strlit(" does not exist");
            }
        }
    }
    false
}

/// Whether a message, given as it is and in lower case, says that a table is not there.
pub fn tells_missing_table(msg: &str, lower: &str) -> (r: bool)
    ensures
        r == says_table_missing(msg@, lower@),
{
    if text::contains(msg, "42P01") || text::contains(lower, "undefined table") {
        return true;
    }
    let chars = text::chars_of(lower);
    missing_in(chars.as_slice(), "relation") || missing_in(chars.as_slice(), "table")
}

proof fn lemma_past_quote_at(name: Seq<char>, q: char, rest: Seq<char>)
    requires
        !name.contains(q),
    ensures
        past_quote(name + (seq![q] + rest), q) == Some(rest),
    decreases name.len(),
{
    let whole = name + (seq![q] + rest);
    if name.len() == 0 {
        assert(whole.skip(1) =~= rest);
    } else {
        assert(name.contains(name[0]));
        assert(whole.skip(1) =~= name.skip(1) + (seq![q] + rest));
        assert(!name.skip(1).contains(q)) by {
            if name.skip(1).contains(q) {
                let i = choose|i: int| 0 <= i < name.skip(1).len() && name.skip(1)[i] == q;
                assert(name[i + 1] == q);
            }
        }
        lemma_past_quote_at(name.skip(1), q, rest);
    }
}

/// Whatever a relation or a table is called, saying that it does not exist says that a
/// table is missing.
pub proof fn law_missing_table_is_told(msg: Seq<char>, word: Seq<char>, name: Seq<char>, rest: Seq<char>)
    requires
        word == "relation"@ || word == "table"@,
        !name.contains('"'),
    ensures
        says_table_missing(msg, word + " \""@ + name + "\" does not exist"@ + rest),
{
    reveal_strlit(" \"");
    reveal_strlit("\" does not exist");
    reveal_strlit(" does not exist");
    let s = word + " \""@ + name + "\" does not exist"@ + rest;
    let tail = " does not exist"@ + rest;
    let behind = s.skip(word.len() as int);
    assert(behind =~= seq![' ', '"'] + name + "\" does not exist"@ + rest);
    assert("\" does not exist"@ =~= seq!['"'] + " does not exist"@);
    let named = behind.skip(1);
    assert(named.skip(1) =~= name + (seq!['"'] + tail));
    lemma_past_quote_at(name, '"', tail);
    assert(tail[0] == ' ');
    assert(past_name(tail) == Some(tail));
    assert(past_name(named) == Some(tail));
    assert(tail.subrange(0, " does not exist"@.len() as int) =~= " does not exist"@);
    assert(says_absent(behind));
    assert(s.subrange(0, word.len() as int) =~= word);
    assert(s.take(0) =~= Seq::empty());
    reveal_strlit(" of ");
    reveal_strlit(" for ");
    reveal_strlit(" on ");
    reveal_strlit(" in ");
    reveal_strlit(" from ");
    reveal_strlit(" of the ");
    reveal_strlit(" for the ");
    reveal_strlit(" on the ");
    reveal_strlit(" in the ");
    reveal_strlit(" from the ");
    assert(!ends_in_preposition(s.take(0)));
    assert(says_absent_at(s, word, 0));
}

/// A text that says of nothing that it does not exist, and neither holds the code nor
/// speaks of an undefined table, does not tell of a missing table, whatever relations and
/// tables it names.
pub proof fn law_naming_a_table_is_not_enough(msg: Seq<char>, lower: Seq<char>)
    requires
        !text::has_part(msg, "42P01"@),
        !text::has_part(lower, "undefined table"@),
        !text::has_part(lower, " does not exist"@),
    ensures
        !says_table_missing(msg, lower),
{
    assert forall|word: Seq<char>, at: int| !#[trigger] says_absent_at(lower, word, at) by {
        if says_absent_at(lower, word, at) {
            let words = " does not exist"@;
            let behind = lower.skip(at + word.len());
            if text::has_head(behind, words) {
                assert(lower.subrange(at + word.len(), at + word.len() + words.len())
                    =~= behind.subrange(0, words.len() as int));
                assert(text::part_at(lower, words, at + word.len()));
            } else {
                let named = behind.skip(1);
                lemma_past_name_is_tail(named);
                let rest = past_name(named)->0;
                let k = lower.len() - rest.len();
                assert(lower.skip(k) =~= rest);
                assert(lower.subrange(k, k + words.len()) =~= rest.subrange(
                    0,
                    words.len() as int,
                ));
                assert(text::part_at(lower, words, k));
            }
        }
    }
}

/// A text that speaks of neither a relation nor a table, such as one of a missing column,
/// does not tell of a missing table, unless it holds the code.
pub proof fn law_other_things_are_no_tables(msg: Seq<char>, lower: Seq<char>)
    requires
        !text::has_part(msg, "42P01"@),
        !text::has_part(lower, "relation"@),
        !text::has_part(lower, "table"@),
    ensures
        !says_table_missing(msg, lower),
{
    if text::has_part(lower, "undefined table"@) {
        reveal_strlit("undefined table");
        reveal_strlit("table");
        let at = choose|at: int| text::part_at(lower, "undefined table"@, at);
        let whole = "undefined table"@;
        assert(whole.subrange(10, 15) =~= "table"@);
        assert(lower.subrange(at + 10, at + 15) =~= lower.subrange(at, at + 15).subrange(10, 15));
        assert(text::part_at(lower, "table"@, at + 10));
    }
    assert forall|at: int| !says_absent_at(lower, "relation"@, at) by {
        assert(!text::part_at(lower, "relation"@, at));
    }
    assert forall|at: int| !says_absent_at(lower, "table"@, at) by {
        assert(!text::part_at(lower, "table"@, at));
    }
}

proof fn lemma_past_quote_is_tail(s: Seq<char>, q: char)
    ensures
        past_quote(s, q) matches Some(r) ==> r.len() <= s.len() && r == s.skip(s.len() - r.len()),
    decreases s.len(),
{
    if s.len() > 0 && s[0] != q {
        lemma_past_quote_is_tail(s.skip(1), q);
        if let Some(r) = past_quote(s, q) {
            assert(s.skip(1).skip(s.skip(1).len() - r.len()) =~= s.skip(s.len() - r.len()));
        }
    }
}

proof fn lemma_past_name_is_tail(s: Seq<char>)
    ensures
        past_name(s) matches Some(r) ==> r.len() <= s.len() && r == s.skip(s.len() - r.len()),
    decreases s.len(),
{
    if s.len() == 0 || text::is_white_space(s[0]) {
        assert(s.skip(0) =~= s);
    } else if is_quote(s[0]) {
        lemma_past_quote_is_tail(s.skip(1), s[0]);
        lemma_past_quote_shorter(s.skip(1), s[0]);
        if let Some(rest) = past_quote(s.skip(1), s[0]) {
            lemma_past_name_is_tail(rest);
            if let Some(r) = past_name(rest) {
                assert(rest.skip(rest.len() - r.len()) =~= s.skip(s.len() - r.len()));
            }
        }
    } else {
        lemma_past_name_is_tail(s.skip(1));
        if let Some(r) = past_name(s) {
            assert(s.skip(1).skip(s.skip(1).len() - r.len()) =~= s.skip(s.len() - r.len()));
        }
    }
}

/// What is named behind a preposition is not what is missing: a column of a table may be
/// missing, or a function in a table. Only these words are taken for prepositions.
pub proof fn law_prepositions(s: Seq<char>, word: Seq<char>, at: int, before: Seq<char>)
    ensures
        text::has_tail(s.take(at), " of "@) ==> !says_absent_at(s, word, at),
        text::has_tail(s.take(at), " for "@) ==> !says_absent_at(s, word, at),
        text::has_tail(s.take(at), " on "@) ==> !says_absent_at(s, word, at),
        text::has_tail(s.take(at), " in "@) ==> !says_absent_at(s, word, at),
        text::has_tail(s.take(at), " from "@) ==> !says_absent_at(s, word, at),
        text::has_tail(s.take(at), " of the "@) ==> !says_absent_at(s, word, at),
        text::has_tail(s.take(at), " for the "@) ==> !says_absent_at(s, word, at),
        text::has_tail(s.take(at), " on the "@) ==> !says_absent_at(s, word, at),
        text::has_tail(s.take(at), " in the "@) ==> !says_absent_at(s, word, at),
        text::has_tail(s.take(at), " from the "@) ==> !says_absent_at(s, word, at),
        ends_in_preposition(before) ==> text::has_tail(before, " of "@) || text::has_tail(before, " for "@) || text::has_tail(before, " on "@) || text::has_tail(before, " in "@) || text::has_tail(before, " from "@) || text::has_tail(before, " of the "@) || text::has_tail(before, " for the "@) || text::has_tail(before, " on the "@) || text::has_tail(before, " in the "@) || text::has_tail(before, " from the "@),
{
}

/// A table is named where a word begins: at the beginning, or behind white space, a colon or
/// an opening bracket.
pub proof fn law_words_begin(s: Seq<char>, word: Seq<char>, at: int)
    requires
        says_absent_at(s, word, at),
    ensures
        text::part_at(s, word, at),
        at == 0 || text::is_white_space(s[at - 1]) || s[at - 1] == ':' || s[at - 1] == '(',
        says_absent(s.skip(at + word.len())),
{
    if at > 0 {
        assert(s.take(at).last() == s[at - 1]);
    }
}

proof fn lemma_past_plain_name(name: Seq<char>, rest: Seq<char>)
    requires
        forall|i: int|
            0 <= i < name.len() ==> !text::is_white_space(#[trigger] name[i]) && name[i] != '"'
                && name[i] != '\'',
        rest.len() == 0 || text::is_white_space(rest[0]),
    ensures
        past_name(name + rest) == Some(rest),
    decreases name.len(),
{
    let whole = name + rest;
    if name.len() == 0 {
        assert(whole =~= rest);
    } else {
        assert(whole[0] == name[0]);
        assert(whole.skip(1) =~= name.skip(1) + rest);
        assert forall|i: int| 0 <= i < name.skip(1).len() implies !text::is_white_space(
            #[trigger] name.skip(1)[i],
        ) && name.skip(1)[i] != '"' && name.skip(1)[i] != '\'' by {
            assert(name.skip(1)[i] == name[i + 1]);
        }
        lemma_past_plain_name(name.skip(1), rest);
    }
}

/// A name without quotes goes as far as the next white space, and what is absent is told
/// right behind it, or right behind the word.
pub proof fn law_plain_names_may_be_absent(name: Seq<char>, rest: Seq<char>)
    requires
        forall|i: int|
            0 <= i < name.len() ==> !text::is_white_space(#[trigger] name[i]) && name[i] != '"'
                && name[i] != '\'',
    ensures
        says_absent(" does not exist"@ + rest),
        says_absent(seq![' '] + name + " does not exist"@ + rest),
{
    reveal_strlit(" does not exist");
    let tail = " does not exist"@ + rest;
    text::law_parts_of_texts(Seq::empty(), " does not exist"@, rest, tail);
    lemma_past_plain_name(name, tail);
    let s = seq![' '] + name + " does not exist"@ + rest;
    assert(s.skip(1) =~= name + tail);
}

/// A message tells of a missing table by its code, by saying that it is undefined, or by
/// naming a relation or a table that does not exist; in no other way.
pub proof fn law_signs_of_a_missing_table(msg: Seq<char>, lower: Seq<char>, at: int)
    ensures
        text::has_part(msg, "42P01"@) ==> says_table_missing(msg, lower),
        text::has_part(lower, "undefined table"@) ==> says_table_missing(msg, lower),
        says_absent_at(lower, "relation"@, at) ==> says_table_missing(msg, lower),
        says_absent_at(lower, "table"@, at) ==> says_table_missing(msg, lower),
        says_table_missing(msg, lower) ==> text::has_part(msg, "42P01"@) || text::has_part(
            lower,
            "undefined table"@,
        ) || (exists|i: int| says_absent_at(lower, "relation"@, i)) || (exists|i: int|
            says_absent_at(lower, "table"@, i)),
{
}

/// Wherever a word may begin, a table that is named there and told to be absent is missing,
/// unless a preposition comes before it.
pub proof fn law_tables_that_are_absent(before: Seq<char>, word: Seq<char>, rest: Seq<char>)
    ensures
        (before.len() == 0 || text::is_white_space(before.last()) || before.last() == ':'
            || before.last() == '(') && !ends_in_preposition(before) && says_absent(rest)
            ==> says_absent_at(before + word + rest, word, before.len() as int),
        says_absent(rest) <==> text::has_head(rest, " does not exist"@) || (rest.len() > 0
            && rest[0] == ' ' && past_name(rest.skip(1)) is Some && text::has_head(
            past_name(rest.skip(1))->0,
            " does not exist"@,
        )),
{
    let s = before + word + rest;
    let at = before.len() as int;
    assert(s.take(at) =~= before);
    assert(s.skip(at + word.len()) =~= rest);
    assert(s.subrange(at, at + word.len()) =~= word);
}

/// A name in quotes of either kind may hold white space and goes as far as its closing quote;
/// where that is missing there is no name.
pub proof fn law_quoted_names_may_hold_spaces(q: char, name: Seq<char>, rest: Seq<char>)
    requires
        q == '"' || q == '\'',
        !name.contains(q),
    ensures
        past_name(seq![q] + name + seq![q] + rest) == past_name(rest),
        past_name(seq![q] + name) is None,
        past_name(Seq::empty()) == Some(Seq::<char>::empty()),
{
    let whole = seq![q] + name + seq![q] + rest;
    assert(whole.skip(1) =~= name + seq![q] + rest);
    lemma_past_the_quote(q, name, rest);
    assert((seq![q] + name).skip(1) =~= name);
    assert(whole[0] == q && (seq![q] + name)[0] == q);
}

proof fn lemma_past_the_quote(q: char, name: Seq<char>, rest: Seq<char>)
    requires
        !name.contains(q),
    ensures
        past_quote(name + seq![q] + rest, q) == Some(rest),
        past_quote(name, q) is None,
    decreases name.len(),
{
    let whole = name + seq![q] + rest;
    if name.len() == 0 {
        assert(whole[0] == q);
        assert(whole.skip(1) =~= rest);
    } else {
        let t = name.skip(1);
        assert(name.contains(name[0]));
        assert(whole[0] == name[0]);
        assert(whole.skip(1) =~= t + seq![q] + rest);
        assert(!t.contains(q)) by {
            if t.contains(q) {
                let k = choose|k: int| 0 <= k < t.len() && t[k] == q;
                assert(name[k + 1] == q);
            }
        }
        lemma_past_the_quote(q, t, rest);
    }
}

} // verus!
