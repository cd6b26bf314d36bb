//! Looking at SQL text without parsing it: which statement it begins with.

use vstd::prelude::*;

use crate::text;

verus! {

/// What is left of `s` behind the end of its first line; nothing where the line
/// does not end. A line ends with LF, CR or both.
pub open spec fn after_line(s: Seq<char>) -> Option<Seq<char>>
    decreases s.len(),
{
    if s.len() == 0 {
        None
    } else if s[0] == '\n' {
        Some(s.skip(1))
    } else if s[0] == '\r' {
        if s.len() > 1 && s[1] == '\n' {
            Some(s.skip(2))
        } else {
            Some(s.skip(1))
        }
    } else {
        after_line(s.skip(1))
    }
}

/// Whether `s` begins with the two characters `a` and `b`.
pub open spec fn begins(s: Seq<char>, a: char, b: char) -> bool {
    s.len() > 1 && s[0] == a && s[1] == b
}

/// What is left of `s` behind the end of the block comments in which it stands,
/// `depth` of which are open; nothing where they do not end.
pub open spec fn after_block(s: Seq<char>, depth: nat) -> Option<Seq<char>>
    decreases s.len(),
{
    if s.len() == 0 {
        None
    } else if begins(s, '/', '*') {
        after_block(s.skip(2), depth + 1)
    } else if begins(s, '*', '/') {
        if depth <= 1 {
            Some(s.skip(2))
        } else {
            after_block(s.skip(2), (depth - 1) as nat)
        }
    } else {
        after_block(s.skip(1), depth)
    }
}

proof fn lemma_after_line_shorter(s: Seq<char>)
    ensures
        after_line(s) matches Some(r) ==> r.len() < s.len(),
    decreases s.len(),
{
    if s.len() > 0 && s[0] != '\n' && s[0] != '\r' {
        lemma_after_line_shorter(s.skip(1));
    }
}

proof fn lemma_after_block_shorter(s: Seq<char>, depth: nat)
    ensures
        after_block(s, depth) matches Some(r) ==> r.len() < s.len(),
    decreases s.len(),
{
    if s.len() > 0 {
        if begins(s, '/', '*') {
            lemma_after_block_shorter(s.skip(2), depth + 1);
        } else if begins(s, '*', '/') {
            if depth > 1 {
                lemma_after_block_shorter(s.skip(2), (depth - 1) as nat);
            }
        } else {
            lemma_after_block_shorter(s.skip(1), depth);
        }
    }
}

/// `sql` without the white space and the comments at its beginning; nothing where a
/// comment does not end.
pub open spec fn stripped(sql: Seq<char>) -> Seq<char>
    decreases sql.len(),
    via stripped_decreases
{
    let s = text::trim_head(sql);
    if begins(s, '-', '-') {
        match after_line(s) {
            Some(rest) => stripped(rest),
            None => Seq::empty(),
        }
    } else if begins(s, '/', '*') {
        match after_block(s, 0) {
            Some(rest) => stripped(rest),
            None => Seq::empty(),
        }
    } else {
        s
    }
}

#[via_fn]
proof fn stripped_decreases(sql: Seq<char>) {
    let s = text::trim_head(sql);
    text::lemma_trim_head(sql);
    lemma_after_line_shorter(s);
    lemma_after_block_shorter(s, 0);
}

fn line_end(s: &[char], from: usize) -> (r: Option<usize>)
    requires
        from <= s@.len(),
    ensures
        match r {
            Some(k) => from < k <= s@.len() && after_line(s@.skip(from as int)) == Some(
                s@.skip(k as int),
            ),
            None => after_line(s@.skip(from as int)) is None,
        },
{
    let mut i: usize = from;
    let n: usize = s.len();
    while i < n
        invariant
            n == s@.len(),
            from <= i <= n,
            after_line(s@.skip(from as int)) == after_line(s@.skip(i as int)),
        decreases n - i,
    {
        let c = s[i];
        assert(s@.skip(i as int).skip(1) =~= s@.skip(i + 1));
        if c == '\n' {
            return Some(i + 1);
        }
        if c == '\r' {
            if n - i > 1 && s[i + 1] == '\n' {
                assert(s@.skip(i as int).skip(2) =~= s@.skip(i + 2));
                return Some(i + 2);
            }
            return Some(i + 1);
        }
        i = i + 1;
    }
    None
}

fn block_end(s: &[char], from: usize) -> (r: Option<usize>)
    requires
        from <= s@.len(),
    ensures
        match r {
            Some(k) => from < k <= s@.len() && after_block(s@.skip(from as int), 0) == Some(
                s@.skip(k as int),
            ),
            None => after_block(s@.skip(from as int), 0) is None,
        },
{
    let mut i: usize = from;
    let mut depth: usize = 0;
    let n: usize = s.len();
    while i < n
        invariant
            n == s@.len(),
            from <= i <= n,
            depth <= i - from,
            after_block(s@.skip(from as int), 0) == after_block(s@.skip(i as int), depth as nat),
        decreases n - i,
    {
        let c = s[i];
        assert(s@.skip(i as int).skip(1) =~= s@.skip(i + 1));
        if n - i > 1 && c == '/' && s[i + 1] == '*' {
            assert(s@.skip(i as int).skip(2) =~= s@.skip(i + 2));
            depth = depth + 1;
            i = i + 2;
        } else if n - i > 1 && c == '*' && s[i + 1] == '/' {
            assert(s@.skip(i as int).skip(2) =~= s@.skip(i + 2));
            if depth <= 1 {
                return Some(i + 2);
            }
            depth = depth - 1;
            i = i + 2;
        } else {
            i = i + 1;
        }
    }
    None
}

/// Where `sql` begins behind white space and comments; its end where a comment does
/// not end.
fn statement_start(s: &[char]) -> (r: Option<usize>)
    ensures
        match r {
            Some(k) => k <= s@.len() && s@.skip(k as int) == stripped(s@),
            None => stripped(s@) == Seq::<char>::empty(),
        },
{
    let mut at: usize = 0;
    assert(s@.skip(0) =~= s@);
    loop
        invariant
            at <= s@.len(),
            stripped(s@) == stripped(s@.skip(at as int)),
        decreases s@.len() - at,
    {
        let start: usize = text::head_end(s, at);
        let n: usize = s.len();
        let ghost t = s@.skip(start as int);
        if n - start > 1 && s[start] == '-' && s[start + 1] == '-' {
            match line_end(s, start) {
                Some(k) => {
                    at = k;
                },
                None => {
                    return None;
                },
            }
        } else if n - start > 1 && s[start] == '/' && s[start + 1] == '*' {
            match block_end(s, start) {
                Some(k) => {
                    at = k;
                },
                None => {
                    return None;
                },
            }
        } else {
            return Some(start);
        }
    }
}

/// Whether Unicode counts `c` among the letters, as `char::is_alphabetic` tells.
pub uninterp spec fn alphabetic(c: char) -> bool;

/// The upper-case form of `c` by Unicode's case mapping, as `char::to_uppercase`
/// computes it.
pub uninterp spec fn uppercase(c: char) -> Seq<char>;

/// `char::is_alphabetic` depends on the character alone; among the ASCII characters
/// it is true of the letters.
pub assume_specification[ char::is_alphabetic ](c: char) -> (r: bool)
    ensures
        r == alphabetic(c),
        c as int <= 0x7f ==> r == text::is_letter(c),
;

/// `char::to_uppercase` depends on the character alone; it raises the ASCII
/// lower-case letters and keeps the other ASCII characters.
#[verifier::external_body]
pub(crate) fn uppercase_of(c: char) -> (r: Vec<char>)
    ensures
        r@ == uppercase(c),
        c as int <= 0x7f ==> r@ == seq![
            if text::is_lower(c) {
                (c as int - 32) as char
            } else {
                c
            },
        ],
{
    c.to_uppercase().collect()
}

/// The first word of `s` in upper case.
pub open spec fn first_keyword(s: Seq<char>) -> Seq<char>
    decreases s.len(),
{
    if s.len() == 0 || !alphabetic(s[0]) {
        Seq::empty()
    } else {
        uppercase(s[0]) + first_keyword(s.skip(1))
    }
}

/// Whether a statement that begins with the word `keyword` only reads.
pub open spec fn is_reading_keyword(keyword: Seq<char>) -> bool {
    ||| keyword == "SELECT"@
    ||| keyword == "WITH"@
    ||| keyword == "EXPLAIN"@
    ||| keyword == "SHOW"@
    ||| keyword == "VALUES"@
}

/// Whether the statement `sql` only reads, as its first word tells.
pub open spec fn reads_only(sql: Seq<char>) -> bool {
    is_reading_keyword(first_keyword(stripped(sql)))
}

/// Whether a statement that begins with the word `keyword` only reads.
pub fn reading_keyword(keyword: &str) -> (r: bool)
    ensures
        r == is_reading_keyword(keyword@),
        r <==> keyword@ == "SELECT"@ || keyword@ == "WITH"@ || keyword@ == "EXPLAIN"@ || keyword@
            == "SHOW"@ || keyword@ == "VALUES"@,
{
    text::same_text(keyword, "SELECT") || text::same_text(keyword, "WITH") || text::same_text(
        keyword,
        "EXPLAIN",
    ) || text::same_text(keyword, "SHOW") || text::same_text(keyword, "VALUES")
}

/// `sql` without the white space and the comments at its beginning. What is left is the end
/// of `sql` and begins with neither; only white space and whole comments are cut, and, where
/// nothing is left, perhaps a comment that does not end.
pub fn strip_leading_sql_comments(sql: &str) -> (r: String)
    ensures
        r@ == stripped(sql@),
        is_cut(sql@, r@),
        stripped(r@) == r@,
        !begins_aside(sql@) ==> r@ == sql@,
{
    let chars = text::chars_of(sql);
    proof {
        law_only_asides_are_cut(sql@);
        law_stripped_once(sql@);
    }
    match statement_start(chars.as_slice()) {
        Some(k) => {
            let r = text::cut(chars.as_slice(), k, chars.len());
            assert(r@ =~= sql@.skip(k as int));
            r
        },
        None => String::new(),
    }
}

/// A word of ASCII letters, all of them raised to upper case.
pub open spec fn raised(word: Seq<char>) -> Seq<char> {
    word.map_values(
        |c: char|
            if 'a' <= c && c <= 'z' {
                (c as int - 32) as char
            } else {
                c
            },
    )
}

/// Whether `sql` is a run of white space and comments, then `word`, which is made of ASCII
/// letters, and then `rest`, which is nothing or goes on with an ASCII character that is
/// no letter.
pub open spec fn opens_with(
    sql: Seq<char>,
    aside: Seq<char>,
    word: Seq<char>,
    rest: Seq<char>,
) -> bool {
    &&& sql == aside + word + rest
    &&& is_aside(aside)
    &&& word.len() > 0
    &&& forall|i: int| 0 <= i < word.len() ==> text::is_letter(#[trigger] word[i])
    &&& rest.len() > 0 ==> rest[0] as int <= 0x7f && !text::is_letter(rest[0])
}

/// Whether `n` is how far the letters go with which `s` begins.
spec fn letters_end(s: Seq<char>, n: int) -> bool {
    &&& 0 <= n <= s.len()
    &&& forall|j: int|
        0 <= j < n ==> alphabetic(#[trigger] s[j]) && (s[j] as int <= 0x7f ==> text::is_letter(
            s[j],
        ))
    &&& n < s.len() ==> !alphabetic(s[n]) && (s[n] as int <= 0x7f ==> !text::is_letter(s[n]))
}

/// The first word of `chars` in upper case, and where it ends.
fn first_word(chars: &[char]) -> (r: (String, usize))
    ensures
        r.0@ == first_keyword(chars@),
        letters_end(chars@, r.1 as int),
        (forall|j: int| 0 <= j < r.1 ==> text::is_letter(#[trigger] chars@[j])) ==> r.0@ == raised(
            chars@.take(r.1 as int),
        ),
{
    let mut keyword = String::new();
    let mut i: usize = 0;
    let n: usize = chars.len();
    assert(chars@.skip(0) =~= chars@);
    assert(keyword@ + first_keyword(chars@) =~= first_keyword(chars@));
    assert(keyword@ =~= raised(chars@.take(0)));
    while i < n
        invariant
            n == chars@.len(),
            i <= n,
            keyword@ + first_keyword(chars@.skip(i as int)) == first_keyword(chars@),
            forall|j: int|
                0 <= j < i ==> alphabetic(#[trigger] chars@[j]) && (chars@[j] as int <= 0x7f
                    ==> text::is_letter(chars@[j])),
            (forall|j: int| 0 <= j < i ==> text::is_letter(#[trigger] chars@[j])) ==> keyword@
                == raised(chars@.take(i as int)),
        decreases n - i,
    {
        let c = chars[i];
        if !c.is_alphabetic() {
            assert(keyword@ + Seq::<char>::empty() =~= keyword@);
            return (keyword, i);
        }
        let up = uppercase_of(c);
        let shown = text::string_of(up.as_slice());
        let ghost before = keyword@;
        keyword.append(shown.as_str());
        proof {
            let t = chars@.skip(i as int);
            assert(t.skip(1) =~= chars@.skip(i + 1));
            assert(before + (uppercase(t[0]) + first_keyword(t.skip(1))) =~= keyword@
                + first_keyword(t.skip(1)));
            assert(raised(chars@.take(i + 1)) =~= raised(chars@.take(i as int)) + raised(seq![c]));
            if forall|j: int| 0 <= j < i + 1 ==> text::is_letter(#[trigger] chars@[j]) {
                assert(text::is_letter(chars@[i as int]));
                assert(uppercase(c) =~= raised(seq![c]));
            }
        }
        i = i + 1;
    }
    assert(keyword@ + Seq::<char>::empty() =~= keyword@);
    (keyword, i)
}

proof fn lemma_opening(
    sql: Seq<char>,
    n: int,
    aside: Seq<char>,
    word: Seq<char>,
    rest: Seq<char>,
)
    requires
        opens_with(sql, aside, word, rest),
        letters_end(stripped(sql), n),
    ensures
        stripped(sql) == word + rest,
        n == word.len(),
        stripped(sql).take(n) == word,
{
    let left = word + rest;
    assert(sql =~= aside + left);
    law_asides_are_skipped(aside, left);
    assert(left[0] == word[0]);
    law_only_asides_are_cut(left);
    assert(stripped(sql) == left);
    if n < word.len() {
        assert(left[n] == word[n]);
    }
    if n > word.len() {
        assert(left[word.len() as int] == rest[0]);
    }
    assert(left.take(n) =~= word);
}

/// Whether the statement `sql` only reads: whether its first word, behind white
/// space and comments, is `SELECT`, `WITH`, `EXPLAIN`, `SHOW` or `VALUES`, in any case of
/// its letters. A statement that begins with any other word is not taken for one.
pub fn is_read_only_sql(sql: &str) -> (r: bool)
    ensures
        r == reads_only(sql@),
        r <==> first_keyword(stripped(sql@)) == "SELECT"@ || first_keyword(stripped(sql@))
            == "WITH"@ || first_keyword(stripped(sql@)) == "EXPLAIN"@ || first_keyword(
            stripped(sql@),
        ) == "SHOW"@ || first_keyword(stripped(sql@)) == "VALUES"@,
        forall|aside: Seq<char>, word: Seq<char>, rest: Seq<char>| #[trigger]
            opens_with(sql@, aside, word, rest) ==> (r <==> raised(word) == "SELECT"@ || raised(
                word,
            ) == "WITH"@ || raised(word) == "EXPLAIN"@ || raised(word) == "SHOW"@ || raised(word)
                == "VALUES"@),
        text::has_head(sql@, "INSERT "@) || text::has_head(sql@, "UPDATE "@) || text::has_head(
            sql@,
            "DELETE "@,
        ) || text::has_head(sql@, "CREATE "@) || text::has_head(sql@, "DROP "@) || text::has_head(
            sql@,
            "ALTER "@,
        ) || text::has_head(sql@, "COPY "@) ==> !r,
        text::has_head(sql@, "SELECT "@) || text::has_head(sql@, "WITH "@) || text::has_head(
            sql@,
            "EXPLAIN "@,
        ) || text::has_head(sql@, "SHOW "@) || text::has_head(sql@, "VALUES "@) ==> r,
{
    let rest = strip_leading_sql_comments(sql);
    let chars = text::chars_of(rest.as_str());
    let (keyword, n) = first_word(chars.as_slice());
    let r = reading_keyword(keyword.as_str());
    proof {
        assert forall|aside: Seq<char>, word: Seq<char>, rest: Seq<char>| #[trigger]
            opens_with(sql@, aside, word, rest) implies keyword@ == raised(word) by {
            lemma_opening(sql@, n as int, aside, word, rest);
            assert forall|j: int| 0 <= j < n implies text::is_letter(#[trigger] chars@[j]) by {
                assert(chars@[j] == word[j]);
            }
        }
        lemma_verbs(sql@);
        lemma_writing_words();
    }
    r
}

/// What is known of a statement that begins with `verb` and a space.
spec fn verb_opens(sql: Seq<char>, verb: Seq<char>) -> bool {
    opens_with(sql, Seq::empty(), verb, sql.skip(verb.len() as int)) && raised(verb) == verb
}

proof fn lemma_verb(sql: Seq<char>, verb: Seq<char>, spaced: Seq<char>)
    requires
        spaced == verb + seq![' '],
        verb.len() > 0,
        forall|i: int| 0 <= i < verb.len() ==> text::is_upper(#[trigger] verb[i]),
    ensures
        text::has_head(sql, spaced) ==> verb_opens(sql, verb),
{
    if text::has_head(sql, spaced) {
        let rest = sql.skip(verb.len() as int);
        assert forall|i: int| 0 <= i < spaced.len() implies sql[i] == spaced[i] by {
            assert(sql.subrange(0, spaced.len() as int)[i] == sql[i]);
        }
        assert(sql =~= Seq::<char>::empty() + verb + rest);
        assert(is_aside(Seq::empty()));
        assert(rest[0] == spaced[verb.len() as int]);
        assert(raised(verb) =~= verb);
    }
}

proof fn lemma_verbs(sql: Seq<char>)
    ensures
        text::has_head(sql, "INSERT "@) ==> verb_opens(sql, "INSERT"@),
        text::has_head(sql, "UPDATE "@) ==> verb_opens(sql, "UPDATE"@),
        text::has_head(sql, "DELETE "@) ==> verb_opens(sql, "DELETE"@),
        text::has_head(sql, "CREATE "@) ==> verb_opens(sql, "CREATE"@),
        text::has_head(sql, "DROP "@) ==> verb_opens(sql, "DROP"@),
        text::has_head(sql, "ALTER "@) ==> verb_opens(sql, "ALTER"@),
        text::has_head(sql, "COPY "@) ==> verb_opens(sql, "COPY"@),
        text::has_head(sql, "SELECT "@) ==> verb_opens(sql, "SELECT"@),
        text::has_head(sql, "WITH "@) ==> verb_opens(sql, "WITH"@),
        text::has_head(sql, "EXPLAIN "@) ==> verb_opens(sql, "EXPLAIN"@),
        text::has_head(sql, "SHOW "@) ==> verb_opens(sql, "SHOW"@),
        text::has_head(sql, "VALUES "@) ==> verb_opens(sql, "VALUES"@),
{
    reveal_strlit("INSERT");
    reveal_strlit("INSERT ");
    assert("INSERT "@ =~= "INSERT"@ + seq![' ']);
    lemma_verb(sql, "INSERT"@, "INSERT "@);
    reveal_strlit("UPDATE");
    reveal_strlit("UPDATE ");
    assert("UPDATE "@ =~= "UPDATE"@ + seq![' ']);
    lemma_verb(sql, "UPDATE"@, "UPDATE "@);
    reveal_strlit("DELETE");
    reveal_strlit("DELETE ");
    assert("DELETE "@ =~= "DELETE"@ + seq![' ']);
    lemma_verb(sql, "DELETE"@, "DELETE "@);
    reveal_strlit("CREATE");
    reveal_strlit("CREATE ");
    assert("CREATE "@ =~= "CREATE"@ + seq![' ']);
    lemma_verb(sql, "CREATE"@, "CREATE "@);
    reveal_strlit("DROP");
    reveal_strlit("DROP ");
    assert("DROP "@ =~= "DROP"@ + seq![' ']);
    lemma_verb(sql, "DROP"@, "DROP "@);
    reveal_strlit("ALTER");
    reveal_strlit("ALTER ");
    assert("ALTER "@ =~= "ALTER"@ + seq![' ']);
    lemma_verb(sql, "ALTER"@, "ALTER "@);
    reveal_strlit("COPY");
    reveal_strlit("COPY ");
    assert("COPY "@ =~= "COPY"@ + seq![' ']);
    lemma_verb(sql, "COPY"@, "COPY "@);
    reveal_strlit("SELECT");
    reveal_strlit("SELECT ");
    assert("SELECT "@ =~= "SELECT"@ + seq![' ']);
    lemma_verb(sql, "SELECT"@, "SELECT "@);
    reveal_strlit("WITH");
    reveal_strlit("WITH ");
    assert("WITH "@ =~= "WITH"@ + seq![' ']);
    lemma_verb(sql, "WITH"@, "WITH "@);
    reveal_strlit("EXPLAIN");
    reveal_strlit("EXPLAIN ");
    assert("EXPLAIN "@ =~= "EXPLAIN"@ + seq![' ']);
    lemma_verb(sql, "EXPLAIN"@, "EXPLAIN "@);
    reveal_strlit("SHOW");
    reveal_strlit("SHOW ");
    assert("SHOW "@ =~= "SHOW"@ + seq![' ']);
    lemma_verb(sql, "SHOW"@, "SHOW "@);
    reveal_strlit("VALUES");
    reveal_strlit("VALUES ");
    assert("VALUES "@ =~= "VALUES"@ + seq![' ']);
    lemma_verb(sql, "VALUES"@, "VALUES "@);
}

proof fn lemma_writing_words()
    ensures
        !is_reading_keyword("INSERT"@),
        !is_reading_keyword("UPDATE"@),
        !is_reading_keyword("DELETE"@),
        !is_reading_keyword("CREATE"@),
        !is_reading_keyword("DROP"@),
        !is_reading_keyword("ALTER"@),
        !is_reading_keyword("COPY"@),
{
    reveal_strlit("INSERT");
    reveal_strlit("UPDATE");
    reveal_strlit("DELETE");
    reveal_strlit("CREATE");
    reveal_strlit("DROP");
    reveal_strlit("ALTER");
    reveal_strlit("COPY");
    reveal_strlit("SELECT");
    reveal_strlit("WITH");
    reveal_strlit("EXPLAIN");
    reveal_strlit("SHOW");
    reveal_strlit("VALUES");
    assert("INSERT"@.len() == 6 && "INSERT"@[0] == 'I' && "INSERT"@[1] == 'N');
    assert("UPDATE"@.len() == 6 && "UPDATE"@[0] == 'U' && "UPDATE"@[1] == 'P');
    assert("DELETE"@.len() == 6 && "DELETE"@[0] == 'D' && "DELETE"@[1] == 'E');
    assert("CREATE"@.len() == 6 && "CREATE"@[0] == 'C' && "CREATE"@[1] == 'R');
    assert("DROP"@.len() == 4 && "DROP"@[0] == 'D' && "DROP"@[1] == 'R');
    assert("ALTER"@.len() == 5 && "ALTER"@[0] == 'A' && "ALTER"@[1] == 'L');
    assert("COPY"@.len() == 4 && "COPY"@[0] == 'C' && "COPY"@[1] == 'O');
    assert("SELECT"@.len() == 6 && "SELECT"@[0] == 'S' && "SELECT"@[1] == 'E');
    assert("WITH"@.len() == 4 && "WITH"@[0] == 'W' && "WITH"@[1] == 'I');
    assert("EXPLAIN"@.len() == 7 && "EXPLAIN"@[0] == 'E' && "EXPLAIN"@[1] == 'X');
    assert("SHOW"@.len() == 4 && "SHOW"@[0] == 'S' && "SHOW"@[1] == 'H');
    assert("VALUES"@.len() == 6 && "VALUES"@[0] == 'V' && "VALUES"@[1] == 'A');
}

proof fn lemma_after_block_append(x: Seq<char>, s: Seq<char>, depth: nat)
    requires
        after_block(x, depth) is Some,
    ensures
        after_block(x + s, depth) == Some(after_block(x, depth)->0 + s),
    decreases x.len(),
{
    let whole = x + s;
    assert(x.len() > 0);
    if begins(x, '/', '*') {
        assert(begins(whole, '/', '*'));
        assert(whole.skip(2) =~= x.skip(2) + s);
        lemma_after_block_append(x.skip(2), s, depth + 1);
    } else if begins(x, '*', '/') {
        assert(begins(whole, '*', '/'));
        assert(whole.skip(2) =~= x.skip(2) + s);
        if depth > 1 {
            lemma_after_block_append(x.skip(2), s, (depth - 1) as nat);
        }
    } else {
        if x.len() == 1 {
            assert(after_block(x.skip(1), depth) is None);
        }
        assert(whole[0] == x[0] && whole[1] == x[1]);
        assert(whole.skip(1) =~= x.skip(1) + s);
        lemma_after_block_append(x.skip(1), s, depth);
    }
}

proof fn lemma_after_line_append(x: Seq<char>, s: Seq<char>)
    requires
        after_line(x) is Some,
    ensures
        after_line(x + s) == Some(after_line(x)->0 + s) || (after_line(x)->0.len() == 0 && s.len()
            > 0 && s[0] == '\n' && after_line(x + s) == Some(s.skip(1))),
    decreases x.len(),
{
    let whole = x + s;
    assert(whole[0] == x[0]);
    assert(whole.skip(1) =~= x.skip(1) + s);
    if x[0] == '\r' {
        if x.len() > 1 {
            assert(whole[1] == x[1]);
            assert(whole.skip(2) =~= x.skip(2) + s);
        } else if s.len() > 0 {
            assert(whole[1] == s[0]);
            assert(whole.skip(2) =~= s.skip(1));
        }
    } else if x[0] != '\n' {
        lemma_after_line_append(x.skip(1), s);
    }
}

proof fn lemma_after_line_take(s: Seq<char>, n: int)
    requires
        after_line(s) is Some,
        s.len() - after_line(s)->0.len() <= n <= s.len(),
    ensures
        after_line(s)->0.len() < s.len(),
        after_line(s)->0 == s.skip(s.len() - after_line(s)->0.len()),
        after_line(s.take(n)) == Some(s.take(n).skip(s.len() - after_line(s)->0.len())),
    decreases s.len(),
{
    let rest = after_line(s)->0;
    let m = s.len() - rest.len();
    lemma_after_line_shorter(s);
    assert(s.take(n)[0] == s[0]);
    assert(s.take(n).skip(1) =~= s.skip(1).take(n - 1));
    if s[0] != '\n' && s[0] != '\r' {
        lemma_after_line_shorter(s.skip(1));
        lemma_after_line_take(s.skip(1), n - 1);
        assert(s.skip(1).skip(m - 1) =~= s.skip(m));
        assert(s.skip(1).take(n - 1).skip(m - 1) =~= s.take(n).skip(m));
    }
}

proof fn lemma_after_block_take(s: Seq<char>, depth: nat, n: int)
    requires
        after_block(s, depth) is Some,
        s.len() - after_block(s, depth)->0.len() <= n <= s.len(),
    ensures
        after_block(s, depth)->0.len() < s.len(),
        after_block(s, depth)->0 == s.skip(s.len() - after_block(s, depth)->0.len()),
        after_block(s.take(n), depth) == Some(
            s.take(n).skip(s.len() - after_block(s, depth)->0.len()),
        ),
    decreases s.len(),
{
    let rest = after_block(s, depth)->0;
    let m = s.len() - rest.len();
    lemma_after_block_shorter(s, depth);
    let t = s.take(n);
    assert(t[0] == s[0]);
    if begins(s, '/', '*') || begins(s, '*', '/') {
        if begins(s, '/', '*') {
            lemma_after_block_shorter(s.skip(2), depth + 1);
        } else if depth > 1 {
            lemma_after_block_shorter(s.skip(2), (depth - 1) as nat);
        }
        assert(n >= 2);
        assert(t[1] == s[1]);
        assert(t.skip(2) =~= s.skip(2).take(n - 2));
        if begins(s, '/', '*') {
            lemma_after_block_take(s.skip(2), depth + 1, n - 2);
        } else if depth > 1 {
            lemma_after_block_take(s.skip(2), (depth - 1) as nat, n - 2);
        }
        if m > 2 {
            assert(s.skip(2).skip(m - 2) =~= s.skip(m));
            assert(s.skip(2).take(n - 2).skip(m - 2) =~= t.skip(m));
        }
    } else {
        lemma_after_block_shorter(s.skip(1), depth);
        if n > 1 {
            assert(t[1] == s[1]);
        }
        assert(t.skip(1) =~= s.skip(1).take(n - 1));
        lemma_after_block_take(s.skip(1), depth, n - 1);
        assert(s.skip(1).skip(m - 1) =~= s.skip(m));
        assert(s.skip(1).take(n - 1).skip(m - 1) =~= t.skip(m));
    }
}

/// Whether `s` begins with white space or a comment.
pub open spec fn begins_aside(s: Seq<char>) -> bool {
    ||| s.len() > 0 && text::is_white_space(s[0])
    ||| begins(s, '-', '-')
    ||| begins(s, '/', '*')
}

/// Whether `s` is one comment that does not end.
pub open spec fn is_open_comment(s: Seq<char>) -> bool {
    ||| begins(s, '-', '-') && after_line(s) is None
    ||| begins(s, '/', '*') && after_block(s, 0) is None
}

/// Whether `s` is nothing but white space and whole comments, nested ones in them and
/// all.
pub open spec fn is_aside(s: Seq<char>) -> bool
    decreases s.len(),
    via is_aside_decreases
{
    if s.len() == 0 {
        true
    } else if text::is_white_space(s[0]) {
        is_aside(s.skip(1))
    } else if begins(s, '-', '-') {
        match after_line(s) {
            Some(rest) => is_aside(rest),
            None => false,
        }
    } else if begins(s, '/', '*') {
        match after_block(s, 0) {
            Some(rest) => is_aside(rest),
            None => false,
        }
    } else {
        false
    }
}

#[via_fn]
proof fn is_aside_decreases(s: Seq<char>) {
    lemma_after_line_shorter(s);
    lemma_after_block_shorter(s, 0);
}

/// Whether `r` is the end of `sql` that is left when white space and comments are cut from
/// its beginning: it begins with neither, and what was cut is nothing but white space and
/// whole comments; where nothing is left, a comment that does not end may come last.
pub open spec fn is_cut(sql: Seq<char>, r: Seq<char>) -> bool {
    &&& r.len() <= sql.len()
    &&& r == sql.skip(sql.len() - r.len())
    &&& !begins_aside(r)
    &&& is_aside(sql.take(sql.len() - r.len())) || (r.len() == 0 && exists|at: int|
        0 <= at <= sql.len() && is_aside(sql.take(at)) && is_open_comment(#[trigger] sql.skip(at)))
}

/// Any run of white space and comments before a statement, whatever line ends the
/// comments have, does not change what the statement is.
pub proof fn law_asides_are_skipped(run: Seq<char>, sql: Seq<char>)
    requires
        is_aside(run),
    ensures
        stripped(run + sql) == stripped(sql),
        reads_only(run + sql) == reads_only(sql),
    decreases run.len(),
{
    let whole = run + sql;
    if run.len() == 0 {
        assert(whole =~= sql);
    } else if text::is_white_space(run[0]) {
        assert(whole.drop_first() =~= run.skip(1) + sql);
        law_asides_are_skipped(run.skip(1), sql);
    } else {
        assert(whole[0] == run[0] && whole[1] == run[1]);
        assert(text::trim_head(whole) == whole);
        if begins(run, '-', '-') {
            lemma_after_line_shorter(run);
            lemma_after_line_append(run, sql);
            let rest = after_line(run)->0;
            law_asides_are_skipped(rest, sql);
            if after_line(whole) != Some(rest + sql) {
                assert(sql.drop_first() =~= sql.skip(1));
                assert(text::trim_head(sql) == text::trim_head(sql.skip(1)));
                assert(stripped(sql) == stripped(sql.skip(1)));
                assert(stripped(whole) == stripped(sql.skip(1)));
            }
        } else {
            lemma_after_block_shorter(run, 0);
            lemma_after_block_append(run, sql, 0);
            law_asides_are_skipped(after_block(run, 0)->0, sql);
        }
    }
}

/// A line comment may end with LF, CR or both: any of them makes it a comment that is
/// passed over.
pub proof fn law_line_comment_is_skipped(comment: Seq<char>, end: Seq<char>, sql: Seq<char>)
    requires
        begins(comment, '-', '-'),
        forall|i: int| 0 <= i < comment.len() ==> #[trigger] comment[i] != '\n' && comment[i]
            != '\r',
        end == seq!['\n'] || end == seq!['\r'] || end == seq!['\r', '\n'],
    ensures
        stripped(comment + end + sql) == stripped(sql),
        reads_only(comment + end + sql) == reads_only(sql),
{
    lemma_line_ends(comment, end);
    let run = comment + end;
    assert(run[0] == comment[0] && run[1] == comment[1]);
    assert(is_aside(Seq::empty()));
    law_asides_are_skipped(run, sql);
}

proof fn lemma_line_ends(line: Seq<char>, end: Seq<char>)
    requires
        forall|i: int| 0 <= i < line.len() ==> #[trigger] line[i] != '\n' && line[i] != '\r',
        end == seq!['\n'] || end == seq!['\r'] || end == seq!['\r', '\n'],
    ensures
        after_line(line + end) == Some(Seq::<char>::empty()),
    decreases line.len(),
{
    let whole = line + end;
    if line.len() == 0 {
        assert(whole =~= end);
        assert(end.skip(end.len() as int) =~= Seq::<char>::empty());
    } else {
        assert(whole[0] == line[0]);
        assert(whole.skip(1) =~= line.skip(1) + end);
        assert forall|i: int| 0 <= i < line.skip(1).len() implies #[trigger] line.skip(1)[i] != '\n'
            && line.skip(1)[i] != '\r' by {
            assert(line.skip(1)[i] == line[i + 1]);
        }
        lemma_line_ends(line.skip(1), end);
    }
}

/// A block comment before a statement, nested ones in it and all, does not change
/// what the statement is.
pub proof fn law_block_comment_is_skipped(comment: Seq<char>, sql: Seq<char>)
    requires
        begins(comment, '/', '*'),
        after_block(comment, 0) == Some(Seq::<char>::empty()),
    ensures
        stripped(comment + sql) == stripped(sql),
        reads_only(comment + sql) == reads_only(sql),
{
    assert(is_aside(Seq::empty()));
    law_asides_are_skipped(comment, sql);
}

/// What is stripped of a statement is the end of it, and begins with neither white space
/// nor a comment. Only white space and whole comments were cut; where nothing is left, a
/// comment that does not end may have been cut too. A statement that begins with neither
/// is left whole.
pub proof fn law_only_asides_are_cut(sql: Seq<char>)
    ensures
        is_cut(sql, stripped(sql)),
        !begins_aside(sql) ==> stripped(sql) == sql,
    decreases sql.len(),
{
    let r = stripped(sql);
    if sql.len() > 0 && text::is_white_space(sql[0]) {
        assert(sql.drop_first() =~= sql.skip(1));
        lemma_cut_behind(sql, 1);
    } else if begins(sql, '-', '-') {
        match after_line(sql) {
            Some(rest) => {
                let m = sql.len() - rest.len();
                lemma_after_line_shorter(sql);
                lemma_after_line_take(sql, sql.len() as int);
                assert(rest == sql.skip(m));
                lemma_cut_behind(sql, m);
            },
            None => {
                assert(r =~= sql.skip(sql.len() as int));
                assert(sql.skip(0) =~= sql);
                assert(is_aside(sql.take(0)));
                assert(is_open_comment(sql.skip(0)));
            },
        }
    } else if begins(sql, '/', '*') {
        match after_block(sql, 0) {
            Some(rest) => {
                let m = sql.len() - rest.len();
                lemma_after_block_shorter(sql, 0);
                lemma_after_block_take(sql, 0, sql.len() as int);
                assert(rest == sql.skip(m));
                lemma_cut_behind(sql, m);
            },
            None => {
                assert(r =~= sql.skip(sql.len() as int));
                assert(sql.skip(0) =~= sql);
                assert(is_aside(sql.take(0)));
                assert(is_open_comment(sql.skip(0)));
            },
        }
    } else {
        assert(r == sql);
        assert(sql.skip(0) =~= sql);
        assert(is_aside(sql.take(0)));
    }
}

proof fn lemma_cut_behind(sql: Seq<char>, m: int)
    requires
        0 < m <= sql.len(),
        begins_aside(sql),
        stripped(sql) == stripped(sql.skip(m)),
        text::is_white_space(sql[0]) ==> m == 1,
        !text::is_white_space(sql[0]) && begins(sql, '-', '-') ==> after_line(sql) == Some(
            sql.skip(m),
        ),
        !text::is_white_space(sql[0]) && begins(sql, '/', '*') ==> after_block(sql, 0) == Some(
            sql.skip(m),
        ),
    ensures
        is_cut(sql, stripped(sql)),
    decreases sql.len(), 0int,
{
    let rest = sql.skip(m);
    let r = stripped(sql);
    law_only_asides_are_cut(rest);
    let k = rest.len() - r.len();
    assert(rest.skip(k) =~= sql.skip(m + k));
    if is_aside(rest.take(k)) {
        lemma_aside_behind(sql, m, k);
    } else {
        let at = choose|at: int|
            0 <= at <= rest.len() && is_aside(rest.take(at)) && is_open_comment(
                #[trigger] rest.skip(at),
            );
        lemma_aside_behind(sql, m, at);
        assert(rest.skip(at) =~= sql.skip(m + at));
        assert(is_open_comment(sql.skip(m + at)));
    }
}

proof fn lemma_aside_behind(sql: Seq<char>, m: int, k: int)
    requires
        0 < m <= sql.len(),
        0 <= k <= sql.len() - m,
        begins_aside(sql),
        is_aside(sql.skip(m).take(k)),
        text::is_white_space(sql[0]) ==> m == 1,
        !text::is_white_space(sql[0]) && begins(sql, '-', '-') ==> after_line(sql) == Some(
            sql.skip(m),
        ),
        !text::is_white_space(sql[0]) && begins(sql, '/', '*') ==> after_block(sql, 0) == Some(
            sql.skip(m),
        ),
    ensures
        is_aside(sql.take(m + k)),
{
    let t = sql.take(m + k);
    assert(t[0] == sql[0]);
    assert(t.skip(m) =~= sql.skip(m).take(k));
    if !text::is_white_space(sql[0]) {
        if begins(sql, '-', '-') {
            lemma_after_line_take(sql, m + k);
            assert(m > 1) by {
                assert(sql.skip(1)[0] == '-');
                lemma_after_line_shorter(sql.skip(1));
            }
            assert(t[1] == sql[1]);
        } else {
            lemma_after_block_take(sql, 0, m + k);
            assert(m > 1) by {
                lemma_after_block_shorter(sql.skip(2), 1);
            }
            assert(t[1] == sql[1]);
        }
    }
}

/// A statement only reads if and only if its first word is `SELECT`, `WITH`, `EXPLAIN`,
/// `SHOW` or `VALUES`; the first word goes as far as the letters go.
pub proof fn law_reading_words(sql: Seq<char>, word: Seq<char>, rest: Seq<char>)
    ensures
        reads_only(sql) <==> first_keyword(stripped(sql)) == "SELECT"@ || first_keyword(
            stripped(sql),
        ) == "WITH"@ || first_keyword(stripped(sql)) == "EXPLAIN"@ || first_keyword(stripped(sql))
            == "SHOW"@ || first_keyword(stripped(sql)) == "VALUES"@,
        stripped(sql) == word + rest && (forall|i: int|
            0 <= i < word.len() ==> alphabetic(#[trigger] word[i]) && uppercase(word[i])
                == seq![word[i]]) && (rest.len() == 0 || !alphabetic(rest[0])) ==> (reads_only(sql)
            <==> word == "SELECT"@ || word == "WITH"@ || word == "EXPLAIN"@ || word == "SHOW"@
            || word == "VALUES"@),
{
    if stripped(sql) == word + rest && (forall|i: int|
        0 <= i < word.len() ==> alphabetic(#[trigger] word[i]) && uppercase(word[i])
            == seq![word[i]]) && (rest.len() == 0 || !alphabetic(rest[0])) {
        lemma_first_keyword(word, rest);
    }
}

proof fn lemma_first_keyword(word: Seq<char>, rest: Seq<char>)
    requires
        forall|i: int|
            0 <= i < word.len() ==> alphabetic(#[trigger] word[i]) && uppercase(word[i])
                == seq![word[i]],
        rest.len() == 0 || !alphabetic(rest[0]),
    ensures
        first_keyword(word + rest) == word,
    decreases word.len(),
{
    let whole = word + rest;
    if word.len() == 0 {
        assert(whole =~= rest);
    } else {
        assert(whole[0] == word[0]);
        assert(whole.skip(1) =~= word.skip(1) + rest);
        assert forall|i: int| 0 <= i < word.skip(1).len() implies alphabetic(
            #[trigger] word.skip(1)[i],
        ) && uppercase(word.skip(1)[i]) == seq![word.skip(1)[i]] by {
            assert(word.skip(1)[i] == word[i + 1]);
        }
        lemma_first_keyword(word.skip(1), rest);
        assert(first_keyword(whole) =~= word);
    }
}

/// Whether no comment begins or ends in `s`.
pub open spec fn is_plain_text(s: Seq<char>) -> bool {
    forall|i: int| 0 <= i < s.len() ==> #[trigger] s[i] != '*' && s[i] != '/'
}

proof fn lemma_plain_block(inside: Seq<char>, rest: Seq<char>, depth: nat)
    requires
        is_plain_text(inside),
        rest.len() == 0 || rest[0] == '*' || rest[0] == '/',
    ensures
        after_block(inside + rest, depth) == after_block(rest, depth),
    decreases inside.len(),
{
    let whole = inside + rest;
    if inside.len() == 0 {
        assert(whole =~= rest);
    } else {
        assert(whole[0] == inside[0]);
        assert(whole.skip(1) =~= inside.skip(1) + rest);
        assert forall|i: int| 0 <= i < inside.skip(1).len() implies #[trigger] inside.skip(1)[i]
            != '*' && inside.skip(1)[i] != '/' by {
            assert(inside.skip(1)[i] == inside[i + 1]);
        }
        lemma_plain_block(inside.skip(1), rest, depth);
    }
}

/// A block comment goes from its `/*` to its `*/`; one inside it has to end before it
/// does, and where the outer one does not end nothing is left of the statement.
pub proof fn law_block_comments_nest(
    a: Seq<char>,
    b: Seq<char>,
    c: Seq<char>,
    sql: Seq<char>,
)
    requires
        is_plain_text(a),
        is_plain_text(b),
        is_plain_text(c),
    ensures
        stripped(seq!['/', '*'] + a + seq!['*', '/'] + sql) == stripped(sql),
        stripped(
            seq!['/', '*'] + a + seq!['/', '*'] + b + seq!['*', '/'] + c + seq!['*', '/'] + sql,
        ) == stripped(sql),
        stripped(seq!['/', '*'] + a + seq!['/', '*'] + b + seq!['*', '/'] + c) == Seq::<
            char,
        >::empty(),
        stripped(seq!['/', '*'] + a) == Seq::<char>::empty(),
{
    let open = seq!['/', '*'];
    let close = seq!['*', '/'];
    let none = Seq::<char>::empty();
    // One comment.
    let t1 = close + sql;
    let w1 = open + a + close + sql;
    assert(w1.skip(2) =~= a + t1);
    lemma_plain_block(a, t1, 1);
    assert(begins(t1, '*', '/'));
    assert(t1.skip(2) =~= sql);
    assert(begins(w1, '/', '*'));
    assert(after_block(w1, 0) == Some(sql));
    assert(text::trim_head(w1) == w1);
    // One comment in another.
    let t4 = close + sql;
    let t3 = close + (c + t4);
    let t2 = open + (b + t3);
    let w2 = open + a + open + b + close + c + close + sql;
    assert(w2.skip(2) =~= a + t2);
    lemma_plain_block(a, t2, 1);
    assert(t2.skip(2) =~= b + t3);
    lemma_plain_block(b, t3, 2);
    assert(t3.skip(2) =~= c + t4);
    lemma_plain_block(c, t4, 1);
    assert(begins(w2, '/', '*') && begins(t2, '/', '*') && begins(t3, '*', '/'));
    assert(after_block(w2, 0) == Some(sql));
    assert(text::trim_head(w2) == w2);
    // The outer one does not end.
    let u3 = close + c;
    let u2 = open + (b + u3);
    let w3 = open + a + open + b + close + c;
    assert(w3.skip(2) =~= a + u2);
    lemma_plain_block(a, u2, 1);
    assert(u2.skip(2) =~= b + u3);
    lemma_plain_block(b, u3, 2);
    assert(u3.skip(2) =~= c + none);
    lemma_plain_block(c, none, 1);
    assert(begins(w3, '/', '*') && begins(u2, '/', '*') && begins(u3, '*', '/'));
    assert(after_block(w3, 0) is None);
    assert(text::trim_head(w3) == w3);
    // Nor does a single one.
    let w4 = open + a;
    assert(w4.skip(2) =~= a + none);
    lemma_plain_block(a, none, 1);
    assert(begins(w4, '/', '*'));
    assert(after_block(w4, 0) is None);
    assert(text::trim_head(w4) == w4);
}

/// Nothing is left of a statement that is a line comment without an end.
pub proof fn law_open_line_comment(comment: Seq<char>)
    requires
        begins(comment, '-', '-'),
        forall|i: int| 0 <= i < comment.len() ==> #[trigger] comment[i] != '\n' && comment[i]
            != '\r',
    ensures
        stripped(comment) == Seq::<char>::empty(),
{
    lemma_no_line_end(comment);
    assert(text::trim_head(comment) == comment);
}

proof fn lemma_no_line_end(s: Seq<char>)
    requires
        forall|i: int| 0 <= i < s.len() ==> #[trigger] s[i] != '\n' && s[i] != '\r',
    ensures
        after_line(s) is None,
    decreases s.len(),
{
    if s.len() > 0 {
        assert forall|i: int| 0 <= i < s.skip(1).len() implies #[trigger] s.skip(1)[i] != '\n'
            && s.skip(1)[i] != '\r' by {
            assert(s.skip(1)[i] == s[i + 1]);
        }
        lemma_no_line_end(s.skip(1));
    }
}

/// A statement that is nothing but a comment that does not end, or nothing at all,
/// is not taken for one that only reads.
pub proof fn law_nothing_is_not_reading(sql: Seq<char>)
    requires
        stripped(sql) == Seq::<char>::empty(),
    ensures
        !reads_only(sql),
{
    reveal_strlit("SELECT");
    reveal_strlit("WITH");
    reveal_strlit("EXPLAIN");
    reveal_strlit("SHOW");
    reveal_strlit("VALUES");
    assert(first_keyword(stripped(sql)).len() == 0);
    assert("SELECT"@.len() == 6 && "WITH"@.len() == 4 && "EXPLAIN"@.len() == 7);
    assert("SHOW"@.len() == 4 && "VALUES"@.len() == 6);
}

/// What was stripped has no comment and no white space left at its beginning:
/// stripping again changes nothing.
pub proof fn law_stripped_once(sql: Seq<char>)
    ensures
        stripped(stripped(sql)) == stripped(sql),
    decreases sql.len(),
{
    let s = text::trim_head(sql);
    text::lemma_trim_head(sql);
    lemma_after_line_shorter(s);
    lemma_after_block_shorter(s, 0);
    if begins(s, '-', '-') {
        match after_line(s) {
            Some(rest) => law_stripped_once(rest),
            None => {},
        }
    } else if begins(s, '/', '*') {
        match after_block(s, 0) {
            Some(rest) => law_stripped_once(rest),
            None => {},
        }
    } else {
        assert(text::trim_head(s) == s);
    }
}

} // verus!
