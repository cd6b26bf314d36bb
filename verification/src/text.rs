//! Strings as sequences of characters: the small vocabulary in which the rest
//! of the library states what its texts are.

use vstd::prelude::*;

verus! {

/// `String::push` appends one character.
pub assume_specification[ String::push ](s: &mut String, c: char)
    ensures
        final(s)@ == old(s)@.push(c),
;

/// The characters of `s`, in order.
pub fn chars_of(s: &str) -> (r: Vec<char>)
    ensures
        r@ == s@,
{
    let mut out: Vec<char> = Vec::new();
    for c in it: s.chars()
        invariant
            it.seq() == s@,
            out@ == s@.take(it.index() as int),
    {
        out.push(c);
        assert(s@.take(it.index() as int).push(c) =~= s@.take(it.index() + 1));
    }
    assert(s@.take(s@.len() as int) =~= s@);
    out
}

/// The string made of `chars`.
pub fn string_of(chars: &[char]) -> (r: String)
    ensures
        r@ == chars@,
{
    let mut out = String::new();
    let mut i: usize = 0;
    while i < chars.len()
        invariant
            i <= chars@.len(),
            out@ == chars@.take(i as int),
        decreases chars@.len() - i,
    {
        out.push(chars[i]);
        proof {
            assert(chars@.take(i as int).push(chars@[i as int]) =~= chars@.take(i + 1));
        }
        i = i + 1;
    }
    assert(chars@.take(chars@.len() as int) =~= chars@);
    out
}

/// Whether two texts are the same sequence of characters.
pub fn same_text(a: &str, b: &str) -> (r: bool)
    ensures
        r == (a@ == b@),
{
    let x = chars_of(a);
    let y = chars_of(b);
    if x.len() != y.len() {
        return false;
    }
    let mut i: usize = 0;
    while i < x.len()
        invariant
            i <= x@.len(),
            x@.len() == y@.len(),
            x@ == a@,
            y@ == b@,
            forall|j: int| 0 <= j < i ==> x@[j] == y@[j],
        decreases x@.len() - i,
    {
        if x[i] != y[i] {
            return false;
        }
        i = i + 1;
    }
    assert(a@ =~= b@);
    true
}

/// The two texts one after the other.
pub fn cat2(a: &str, b: &str) -> (r: String)
    ensures
        r@ == a@ + b@,
{
    let mut r = a.to_owned();
    r.append(b);
    r
}

/// The three texts one after the other.
pub fn cat3(a: &str, b: &str, c: &str) -> (r: String)
    ensures
        r@ == a@ + b@ + c@,
{
    let mut r = a.to_owned();
    r.append(b);
    r.append(c);
    r
}

/// The four texts one after the other.
pub fn cat4(a: &str, b: &str, c: &str, d: &str) -> (r: String)
    ensures
        r@ == a@ + b@ + c@ + d@,
{
    let mut r = a.to_owned();
    r.append(b);
    r.append(c);
    r.append(d);
    r
}

/// The five texts one after the other.
pub fn cat5(
    a: &str,
    b: &str,
    c: &str,
    d: &str,
    e: &str,
) -> (r: String)
    ensures
        r@ == a@ + b@ + c@ + d@ + e@,
{
    let mut r = a.to_owned();
    r.append(b);
    r.append(c);
    r.append(d);
    r.append(e);
    r
}

/// The seven texts one after the other.
pub fn cat7(
    a: &str,
    b: &str,
    c: &str,
    d: &str,
    e: &str,
    f: &str,
    g: &str,
) -> (r: String)
    ensures
        r@ == a@ + b@ + c@ + d@ + e@ + f@ + g@,
{
    let mut r = a.to_owned();
    r.append(b);
    r.append(c);
    r.append(d);
    r.append(e);
    r.append(f);
    r.append(g);
    r
}

/// The eight texts one after the other.
pub fn cat8(
    a: &str,
    b: &str,
    c: &str,
    d: &str,
    e: &str,
    f: &str,
    g: &str,
    h: &str,
) -> (r: String)
    ensures
        r@ == a@ + b@ + c@ + d@ + e@ + f@ + g@ + h@,
{
    let mut r = a.to_owned();
    r.append(b);
    r.append(c);
    r.append(d);
    r.append(e);
    r.append(f);
    r.append(g);
    r.append(h);
    r
}

/// What `true` and `false` are called in text.
pub open spec fn bool_word(b: bool) -> Seq<char> {
    if b {
        "true"@
    } else {
        "false"@
    }
}

/// The word for `b`.
pub fn bool_text(b: bool) -> (r: &'static str)
    ensures
        r@ == bool_word(b),
{
    if b {
        "true"
    } else {
        "false"
    }
}

/// The character of the decimal or hexadecimal digit `d`, for `d < 16`.
pub open spec fn digit_char(d: int) -> char {
    if d < 10 {
        ('0' as int + d) as char
    } else {
        ('a' as int + (d - 10)) as char
    }
}

/// `n` written in the number system `base`, most significant digit first and
/// without leading zeros.
pub open spec fn digits(n: nat, base: nat) -> Seq<char>
    decreases n,
{
    if base < 2 || n < base {
        seq![digit_char(n as int)]
    } else {
        proof {
            assert(n / base < n) by (nonlinear_arith)
                requires
                    n >= base,
                    base >= 2,
            ;
        }
        digits(n / base, base).push(digit_char((n % base) as int))
    }
}

/// `n` in decimal.
pub open spec fn decimal(n: nat) -> Seq<char> {
    digits(n, 10)
}

/// `n` in lower-case hexadecimal.
pub open spec fn hexadecimal(n: nat) -> Seq<char> {
    digits(n, 16)
}

fn digit_of(d: u64) -> (c: char)
    requires
        d < 16,
    ensures
        c == digit_char(d as int),
{
    if d < 10 {
        (48 + d as u8) as char
    } else {
        (97 + (d as u8 - 10)) as char
    }
}

/// `n` written in the number system `base`.
fn digits_text(n: u64, base: u64) -> (r: String)
    requires
        2 <= base <= 16,
    ensures
        r@ == digits(n as nat, base as nat),
    decreases n,
{
    if n < base {
        let mut r = String::new();
        r.push(digit_of(n));
        assert(r@ =~= digits(n as nat, base as nat));
        r
    } else {
        assert(n / base < n) by (nonlinear_arith)
            requires
                n >= base,
                base >= 2,
        ;
        let mut r = digits_text(n / base, base);
        r.push(digit_of(n % base));
        r
    }
}

/// `n` in decimal.
pub fn decimal_text(n: u64) -> (r: String)
    ensures
        r@ == decimal(n as nat),
{
    digits_text(n, 10)
}

/// `n` in lower-case hexadecimal.
pub fn hexadecimal_text(n: u64) -> (r: String)
    ensures
        r@ == hexadecimal(n as nat),
{
    digits_text(n, 16)
}

/// How many bytes the UTF-8 form of `c` takes.
pub open spec fn char_bytes(c: char) -> nat {
    let n = c as int;
    if n < 0x80 {
        1
    } else if n < 0x800 {
        2
    } else if n < 0x10000 {
        3
    } else {
        4
    }
}

/// How many bytes the UTF-8 form of `s` takes.
pub open spec fn byte_len(s: Seq<char>) -> nat
    decreases s.len(),
{
    if s.len() == 0 {
        0
    } else {
        byte_len(s.drop_last()) + char_bytes(s.last())
    }
}

/// The longest beginning of `s` whose UTF-8 form takes at most `max` bytes.
pub open spec fn truncated(s: Seq<char>, max: nat) -> Seq<char>
    decreases s.len(),
{
    if byte_len(s) <= max {
        s
    } else {
        truncated(s.drop_last(), max)
    }
}

proof fn lemma_byte_len_push(s: Seq<char>, c: char)
    ensures
        byte_len(s.push(c)) == byte_len(s) + char_bytes(c),
{
    assert(s.push(c).drop_last() =~= s);
}

/// A longer beginning never takes fewer bytes.
pub proof fn lemma_byte_len_prefix(s: Seq<char>, i: int)
    requires
        0 <= i <= s.len(),
    ensures
        byte_len(s.take(i)) <= byte_len(s),
    decreases s.len(),
{
    if i < s.len() {
        assert(s.drop_last().take(i) =~= s.take(i));
        lemma_byte_len_prefix(s.drop_last(), i);
    } else {
        assert(s.take(i) =~= s);
    }
}

/// The bytes of a concatenation are the bytes of its parts.
pub proof fn lemma_byte_len_concat(a: Seq<char>, b: Seq<char>)
    ensures
        byte_len(a + b) == byte_len(a) + byte_len(b),
    decreases b.len(),
{
    if b.len() == 0 {
        assert(a + b =~= a);
    } else {
        lemma_byte_len_concat(a, b.drop_last());
        assert((a + b).drop_last() =~= a + b.drop_last());
    }
}

/// The byte count agrees with the UTF-8 encoding.
pub proof fn lemma_byte_len_is_utf8(s: Seq<char>)
    ensures
        vstd::utf8::encode_utf8(s).len() == byte_len(s),
    decreases s.len(),
{
    if s.len() > 0 {
        lemma_byte_len_is_utf8(s.drop_first());
        lemma_byte_len_concat(seq![s[0]], s.drop_first());
        assert(seq![s[0]] + s.drop_first() =~= s);
        assert(seq![s[0]].drop_last() =~= Seq::<char>::empty());
        assert(byte_len(seq![s[0]]) == char_bytes(s[0])) by {
            reveal_with_fuel(byte_len, 2);
        }
        vstd::utf8::char_is_scalar(s[0]);
        vstd::utf8::char_u32_cast(s[0], s[0] as u32);
    }
}

/// What is kept is a beginning of the text, fits, and could not be longer.
pub proof fn lemma_truncated(s: Seq<char>, max: nat)
    ensures
        truncated(s, max).len() <= s.len(),
        truncated(s, max) == s.take(truncated(s, max).len() as int),
        byte_len(truncated(s, max)) <= max,
        truncated(s, max).len() < s.len() ==> byte_len(
            s.take(truncated(s, max).len() as int + 1),
        ) > max,
        byte_len(s) <= max ==> truncated(s, max) == s,
    decreases s.len(),
{
    if byte_len(s) <= max {
        assert(s.take(s.len() as int) =~= s);
    } else {
        let t = s.drop_last();
        lemma_truncated(t, max);
        let k = truncated(t, max).len() as int;
        assert(s.take(k) =~= t.take(k));
        if k < t.len() {
            assert(s.take(k + 1) =~= t.take(k + 1));
        } else {
            assert(s.take(k + 1) =~= s);
        }
    }
}

/// The beginning found by scanning is the truncation.
proof fn lemma_truncated_is(s: Seq<char>, max: nat, k: int)
    requires
        0 <= k <= s.len(),
        byte_len(s.take(k)) <= max,
        k < s.len() ==> byte_len(s.take(k + 1)) > max,
    ensures
        truncated(s, max) == s.take(k),
    decreases s.len(),
{
    if k == s.len() {
        assert(s.take(k) =~= s);
    } else {
        lemma_byte_len_prefix(s, k + 1);
        let t = s.drop_last();
        assert(t.take(k) =~= s.take(k));
        if k < t.len() {
            assert(t.take(k + 1) =~= s.take(k + 1));
        }
        lemma_truncated_is(t, max, k);
    }
}

/// The number of a character.
pub fn code_point(c: char) -> (n: u32)
    ensures
        n == c as int,
{
    c as u32
}

fn char_byte_count(c: char) -> (n: usize)
    ensures
        n == char_bytes(c),
{
    let n: u32 = c as u32;
    if n < 0x80 {
        1
    } else if n < 0x800 {
        2
    } else if n < 0x10000 {
        3
    } else {
        4
    }
}

/// How many bytes the UTF-8 form of `s` takes.
pub fn byte_count(s: &str) -> (n: usize)
    ensures
        n == byte_len(s@),
{
    proof {
        lemma_byte_len_is_utf8(s@);
    }
    s.as_bytes().len()
}

/// The longest beginning of `value` that takes at most `max_bytes` bytes.
pub fn truncate_utf8(value: &str, max_bytes: usize) -> (r: String)
    ensures
        r@ == truncated(value@, max_bytes as nat),
{
    let chars = chars_of(value);
    let mut out = String::new();
    let mut used: usize = 0;
    let mut i: usize = 0;
    while i < chars.len()
        invariant
            chars@ == value@,
            i <= chars@.len(),
            out@ == value@.take(i as int),
            used == byte_len(out@),
            used <= max_bytes,
        decreases chars@.len() - i,
    {
        let c = chars[i];
        let n: usize = char_byte_count(c);
        proof {
            lemma_byte_len_push(out@, c);
            assert(value@.take(i as int).push(c) =~= value@.take(i + 1));
        }
        if n > max_bytes - used {
            proof {
                lemma_truncated_is(value@, max_bytes as nat, i as int);
            }
            return out;
        }
        out.push(c);
        used = used + n;
        i = i + 1;
    }
    proof {
        lemma_truncated_is(value@, max_bytes as nat, i as int);
    }
    out
}

/// Whether `c` is an ASCII upper-case letter.
pub open spec fn is_upper(c: char) -> bool {
    'A' <= c && c <= 'Z'
}

/// Whether `c` is an ASCII lower-case letter.
pub open spec fn is_lower(c: char) -> bool {
    'a' <= c && c <= 'z'
}

/// Whether `c` is an ASCII digit.
pub open spec fn is_digit(c: char) -> bool {
    '0' <= c && c <= '9'
}

/// Whether `c` is an ASCII letter.
pub open spec fn is_letter(c: char) -> bool {
    is_upper(c) || is_lower(c)
}

/// The lower-case form of an ASCII upper-case letter; any other character.
pub open spec fn lower_char(c: char) -> char {
    if is_upper(c) {
        (c as int + 32) as char
    } else {
        c
    }
}

/// `s` with its ASCII upper-case letters in lower case.
pub open spec fn lower(s: Seq<char>) -> Seq<char> {
    s.map_values(|c: char| lower_char(c))
}

/// Lowering twice changes nothing more.
pub proof fn lemma_lower_idempotent(s: Seq<char>)
    ensures
        lower(lower(s)) == lower(s),
{
    assert forall|i: int| 0 <= i < s.len() implies lower(lower(s))[i] == lower(s)[i] by {
        assert(lower_char(lower_char(s[i])) == lower_char(s[i]));
    }
    assert(lower(lower(s)) =~= lower(s));
}

fn lower_of(c: char) -> (r: char)
    ensures
        r == lower_char(c),
{
    if 'A' <= c && c <= 'Z' {
        (c as u8 + 32) as char
    } else {
        c
    }
}

/// `s` with its ASCII upper-case letters in lower case.
pub fn to_lower(s: &str) -> (r: String)
    ensures
        r@ == lower(s@),
{
    let chars = chars_of(s);
    let mut out = String::new();
    let mut i: usize = 0;
    while i < chars.len()
        invariant
            chars@ == s@,
            i <= chars@.len(),
            out@ == lower(s@.take(i as int)),
        decreases chars@.len() - i,
    {
        out.push(lower_of(chars[i]));
        proof {
            assert(lower(s@.take(i as int)).push(lower_char(s@[i as int])) =~= lower(
                s@.take(i + 1),
            ));
        }
        i = i + 1;
    }
    assert(s@.take(s@.len() as int) =~= s@);
    out
}

/// Whether `a` and `b` differ at most in the case of ASCII letters.
pub open spec fn same_ignoring_case(a: Seq<char>, b: Seq<char>) -> bool {
    lower(a) == lower(b)
}

/// Whether `a` and `b` differ at most in the case of ASCII letters.
pub fn same_text_ignoring_case(a: &str, b: &str) -> (r: bool)
    ensures
        r == same_ignoring_case(a@, b@),
{
    let x = to_lower(a);
    let y = to_lower(b);
    same_text(x.as_str(), y.as_str())
}

/// Whether `part` stands in `s` from position `at` on.
pub open spec fn part_at(s: Seq<char>, part: Seq<char>, at: int) -> bool {
    0 <= at && at + part.len() <= s.len() && s.subrange(at, at + part.len()) == part
}

/// Whether `part` stands somewhere in `s`.
pub open spec fn has_part(s: Seq<char>, part: Seq<char>) -> bool {
    exists|at: int| part_at(s, part, at)
}

/// Whether `s` begins with `head`.
pub open spec fn has_head(s: Seq<char>, head: Seq<char>) -> bool {
    part_at(s, head, 0)
}

/// Whether `s` ends with `tail`.
pub open spec fn has_tail(s: Seq<char>, tail: Seq<char>) -> bool {
    part_at(s, tail, s.len() - tail.len())
}

/// Whether `part` stands in `s` from position `at` on.
pub fn stands_at(s: &[char], part: &[char], at: usize) -> (r: bool)
    ensures
        r == part_at(s@, part@, at as int),
{
    let n: usize = s.len();
    if at > n || part.len() > n - at {
        return false;
    }
    let mut i: usize = 0;
    while i < part.len()
        invariant
            i <= part@.len(),
            n == s@.len(),
            at + part@.len() <= s@.len(),
            forall|j: int| 0 <= j < i ==> s@[at + j] == part@[j],
        decreases part@.len() - i,
    {
        if s[at + i] != part[i] {
            proof {
                assert(s@.subrange(at as int, at + part@.len())[i as int] != part@[i as int]);
            }
            return false;
        }
        i = i + 1;
    }
    assert(s@.subrange(at as int, at + part@.len()) =~= part@);
    true
}

/// Whether `part` stands somewhere in `s`.
pub fn contains(s: &str, part: &str) -> (r: bool)
    ensures
        r == has_part(s@, part@),
{
    let x = chars_of(s);
    let y = chars_of(part);
    if y.len() > x.len() {
        assert forall|k: int| !part_at(s@, part@, k) by {}
        return false;
    }
    let last: usize = x.len() - y.len();
    let mut at: usize = 0;
    while at < last
        invariant
            x@ == s@,
            y@ == part@,
            at <= last,
            last == x@.len() - y@.len(),
            forall|k: int| 0 <= k < at ==> !part_at(s@, part@, k),
        decreases last - at,
    {
        if stands_at(x.as_slice(), y.as_slice(), at) {
            return true;
        }
        at = at + 1;
    }
    let found = stands_at(x.as_slice(), y.as_slice(), last);
    assert(!found ==> forall|k: int| !part_at(s@, part@, k));
    found
}

/// Whether `s` begins with `head`.
pub fn starts_with(s: &str, head: &str) -> (r: bool)
    ensures
        r == has_head(s@, head@),
{
    let x = chars_of(s);
    let y = chars_of(head);
    stands_at(x.as_slice(), y.as_slice(), 0)
}

/// Whether `s` ends with `tail`.
pub fn ends_with(s: &str, tail: &str) -> (r: bool)
    ensures
        r == has_tail(s@, tail@),
{
    let x = chars_of(s);
    let y = chars_of(tail);
    if y.len() > x.len() {
        return false;
    }
    stands_at(x.as_slice(), y.as_slice(), x.len() - y.len())
}

/// Whether `c` has the Unicode property White_Space.
pub open spec fn is_white_space(c: char) -> bool {
    let n = c as int;
    ||| 0x9 <= n <= 0xd
    ||| n == 0x20
    ||| n == 0x85
    ||| n == 0xa0
    ||| n == 0x1680
    ||| 0x2000 <= n <= 0x200a
    ||| n == 0x2028
    ||| n == 0x2029
    ||| n == 0x202f
    ||| n == 0x205f
    ||| n == 0x3000
}

/// Whether `c` has the Unicode property White_Space.
pub fn white_space(c: char) -> (r: bool)
    ensures
        r == is_white_space(c),
{
    let n: u32 = c as u32;
    (0x9 <= n && n <= 0xd) || n == 0x20 || n == 0x85 || n == 0xa0 || n == 0x1680 || (0x2000 <= n
        && n <= 0x200a) || n == 0x2028 || n == 0x2029 || n == 0x202f || n == 0x205f || n == 0x3000
}

/// `s` without the white space at its beginning.
pub open spec fn trim_head(s: Seq<char>) -> Seq<char>
    decreases s.len(),
{
    if s.len() > 0 && is_white_space(s[0]) {
        trim_head(s.drop_first())
    } else {
        s
    }
}

/// `s` without the white space at its end.
pub open spec fn trim_tail(s: Seq<char>) -> Seq<char>
    decreases s.len(),
{
    if s.len() > 0 && is_white_space(s.last()) {
        trim_tail(s.drop_last())
    } else {
        s
    }
}

/// `s` without the white space around it.
pub open spec fn trimmed(s: Seq<char>) -> Seq<char> {
    trim_tail(trim_head(s))
}

/// Where the text without its leading white space begins.
pub fn head_end(s: &[char], from: usize) -> (k: usize)
    requires
        from <= s@.len(),
    ensures
        from <= k <= s@.len(),
        s@.skip(k as int) == trim_head(s@.skip(from as int)),
        forall|i: int| from <= i < k ==> is_white_space(s@[i]),
        k < s@.len() ==> !is_white_space(s@[k as int]),
{
    let mut k: usize = from;
    while k < s.len() && white_space(s[k])
        invariant
            from <= k <= s@.len(),
            trim_head(s@.skip(k as int)) == trim_head(s@.skip(from as int)),
            forall|i: int| from <= i < k ==> is_white_space(s@[i]),
        decreases s@.len() - k,
    {
        assert(s@.skip(k as int).drop_first() =~= s@.skip(k + 1));
        k = k + 1;
    }
    k
}

/// `s` without the white space around it.
pub fn trim(s: &str) -> (r: String)
    ensures
        r@ == trimmed(s@),
{
    let chars = chars_of(s);
    let from: usize = head_end(chars.as_slice(), 0);
    let mut to: usize = chars.len();
    assert(chars@.skip(0) =~= chars@);
    assert(chars@.subrange(from as int, to as int) =~= chars@.skip(from as int));
    while from < to && white_space(chars[to - 1])
        invariant
            from <= to <= chars@.len(),
            trim_tail(chars@.subrange(from as int, to as int)) == trimmed(chars@),
        decreases to - from,
    {
        assert(chars@.subrange(from as int, to as int).drop_last() =~= chars@.subrange(
            from as int,
            to - 1,
        ));
        to = to - 1;
    }
    cut(chars.as_slice(), from, to)
}

/// `s` with every `q` written twice.
pub open spec fn doubled(s: Seq<char>, q: char) -> Seq<char>
    decreases s.len(),
{
    if s.len() == 0 {
        Seq::empty()
    } else if s.last() == q {
        doubled(s.drop_last(), q).push(q).push(q)
    } else {
        doubled(s.drop_last(), q).push(s.last())
    }
}

/// What a reader makes of `s` behind an opening mark `q`: the text up to the closing
/// mark, in which two marks stand for one, and what follows the closing mark.
pub open spec fn read_quoted(s: Seq<char>, q: char) -> Option<(Seq<char>, Seq<char>)>
    decreases s.len(),
{
    if s.len() == 0 {
        None
    } else if s[0] == q && !(s.len() > 1 && s[1] == q) {
        Some((Seq::empty(), s.skip(1)))
    } else {
        let used: int = if s[0] == q {
            2
        } else {
            1
        };
        match read_quoted(s.skip(used), q) {
            Some((content, rest)) => Some((seq![s[0]] + content, rest)),
            None => None,
        }
    }
}

proof fn lemma_doubled_front(c: char, t: Seq<char>, q: char)
    ensures
        doubled(seq![c] + t, q) == (if c == q {
            seq![q, q]
        } else {
            seq![c]
        }) + doubled(t, q),
    decreases t.len(),
{
    let s = seq![c] + t;
    if t.len() == 0 {
        assert(s.drop_last() =~= Seq::<char>::empty());
        reveal_with_fuel(doubled, 2);
        assert(doubled(s, q) =~= (if c == q {
            seq![q, q]
        } else {
            seq![c]
        }) + doubled(t, q));
    } else {
        assert(s.drop_last() =~= seq![c] + t.drop_last());
        lemma_doubled_front(c, t.drop_last(), q);
        assert(doubled(s, q) =~= (if c == q {
            seq![q, q]
        } else {
            seq![c]
        }) + doubled(t, q));
    }
}

/// A text that was doubled and closed reads back as it was, whatever it holds, and
/// the reader goes on right behind it.
pub proof fn lemma_doubled_reads_back(s: Seq<char>, q: char, rest: Seq<char>)
    requires
        rest.len() > 0 ==> rest[0] != q,
    ensures
        read_quoted(doubled(s, q) + (seq![q] + rest), q) == Some((s, rest)),
    decreases s.len(),
{
    let tail = seq![q] + rest;
    let whole = doubled(s, q) + tail;
    if s.len() == 0 {
        assert(whole =~= tail);
        assert(tail.skip(1) =~= rest);
    } else {
        let c = s[0];
        let t = s.drop_first();
        assert(seq![c] + t =~= s);
        lemma_doubled_front(c, t, q);
        lemma_doubled_reads_back(t, q, rest);
        if c == q {
            assert(whole.skip(2) =~= doubled(t, q) + tail);
        } else {
            assert(whole.skip(1) =~= doubled(t, q) + tail);
        }
    }
}

/// `s` with every `q` written twice.
pub fn double(s: &str, q: char) -> (r: String)
    ensures
        r@ == doubled(s@, q),
{
    let chars = chars_of(s);
    let mut out = String::new();
    let mut i: usize = 0;
    while i < chars.len()
        invariant
            chars@ == s@,
            i <= chars@.len(),
            out@ == doubled(s@.take(i as int), q),
        decreases chars@.len() - i,
    {
        let c = chars[i];
        proof {
            assert(s@.take(i + 1).drop_last() =~= s@.take(i as int));
        }
        out.push(c);
        if c == q {
            out.push(c);
        }
        i = i + 1;
    }
    assert(s@.take(s@.len() as int) =~= s@);
    out
}

/// The number that the decimal digits of `s` write.
pub open spec fn digits_value(s: Seq<char>) -> nat
    decreases s.len(),
{
    if s.len() == 0 {
        0
    } else {
        digits_value(s.drop_last()) * 10 + (s.last() as int - '0' as int) as nat
    }
}

/// Whether `s` is one or more decimal digits.
pub open spec fn all_digits(s: Seq<char>) -> bool {
    s.len() > 0 && forall|i: int| 0 <= i < s.len() ==> is_digit(#[trigger] s[i])
}

/// The number that `s` writes: decimal digits, with a plus sign before them or
/// without.
pub open spec fn unsigned_value(s: Seq<char>) -> Option<nat> {
    let t = if s.len() > 0 && s[0] == '+' {
        s.drop_first()
    } else {
        s
    };
    if all_digits(t) {
        Some(digits_value(t))
    } else {
        None
    }
}

/// The number that `s` writes, where it is at most `max`.
pub open spec fn bounded_value(s: Seq<char>, max: nat) -> Option<nat> {
    match unsigned_value(s) {
        Some(n) if n <= max => Some(n),
        _ => None,
    }
}

/// A number that is written in decimal reads as the same number.
pub proof fn law_decimal_reads_back(n: nat)
    ensures
        all_digits(decimal(n)),
        digits_value(decimal(n)) == n,
        unsigned_value(decimal(n)) == Some(n),
    decreases n,
{
    if n < 10 {
        let d = decimal(n);
        assert(d =~= seq![digit_char(n as int)]);
        assert(d.drop_last() =~= Seq::empty());
        assert(digits_value(Seq::<char>::empty()) == 0);
        assert(d.last() as int - '0' as int == n);
        assert(digits_value(d) == n);
    } else {
        let rest = decimal(n / 10);
        let d = decimal(n);
        law_decimal_reads_back(n / 10);
        assert(d =~= rest.push(digit_char((n % 10) as int)));
        assert(d.drop_last() =~= rest);
        assert(d.last() as int - '0' as int == n % 10);
        assert forall|i: int| 0 <= i < d.len() implies is_digit(#[trigger] d[i]) by {
            if i < rest.len() {
                assert(d[i] == rest[i]);
            }
        }
    }
    assert(is_digit(decimal(n)[0]));
}

/// Digits end where something else begins: what is written behind them is told apart.
pub proof fn lemma_digits_part(a: Seq<char>, x: Seq<char>, b: Seq<char>, y: Seq<char>)
    requires
        all_digits(a),
        all_digits(b),
        x.len() > 0 && !is_digit(x[0]),
        y.len() > 0 && !is_digit(y[0]),
        a + x == b + y,
    ensures
        a == b,
        x == y,
{
    let s = a + x;
    if a.len() < b.len() {
        assert(s[a.len() as int] == x[0]);
        assert((b + y)[a.len() as int] == b[a.len() as int]);
    }
    if b.len() < a.len() {
        assert((b + y)[b.len() as int] == y[0]);
        assert(s[b.len() as int] == a[b.len() as int]);
    }
    assert(s.take(a.len() as int) =~= a);
    assert((b + y).take(b.len() as int) =~= b);
    assert(s.skip(a.len() as int) =~= x);
    assert((b + y).skip(b.len() as int) =~= y);
}

proof fn lemma_digits_value_grows(s: Seq<char>, i: int)
    requires
        0 <= i <= s.len(),
        forall|k: int| 0 <= k < s.len() ==> is_digit(#[trigger] s[k]),
    ensures
        digits_value(s.take(i)) <= digits_value(s),
    decreases s.len(),
{
    if i == s.len() {
        assert(s.take(i) =~= s);
    } else {
        assert(s.drop_last().take(i) =~= s.take(i));
        lemma_digits_value_grows(s.drop_last(), i);
    }
}

/// The number that `s` writes, where it is at most `max`.
pub fn parse_unsigned(s: &str, max: u64) -> (r: Option<u64>)
    ensures
        match r {
            Some(n) => bounded_value(s@, max as nat) == Some(n as nat),
            None => bounded_value(s@, max as nat) is None,
        },
{
    let chars = chars_of(s);
    let from: usize = if chars.len() > 0 && chars[0] == '+' {
        1
    } else {
        0
    };
    let ghost t = if s@.len() > 0 && s@[0] == '+' {
        s@.drop_first()
    } else {
        s@
    };
    assert(t =~= chars@.skip(from as int));
    if chars.len() == from {
        return None;
    }
    let mut value: u64 = 0;
    let mut i: usize = from;
    while i < chars.len()
        invariant
            from <= i <= chars@.len(),
            chars@ == s@,
            t == chars@.skip(from as int),
            unsigned_value(s@) == (if all_digits(t) {
                Some(digits_value(t))
            } else {
                None
            }),
            forall|k: int| 0 <= k < i - from ==> is_digit(#[trigger] t[k]),
            value == digits_value(t.take(i - from)),
            value <= max,
        decreases chars@.len() - i,
    {
        let c = chars[i];
        assert(t[i - from] == c);
        if !('0' <= c && c <= '9') {
            return None;
        }
        let d: u64 = c as u64 - 48;
        proof {
            assert(t.take(i - from + 1).drop_last() =~= t.take(i - from));
            assert(digits_value(t.take(i - from + 1)) == value * 10 + d);
            if all_digits(t) {
                lemma_digits_value_grows(t, i - from + 1);
            }
        }
        if value > max / 10 || d > max - value * 10 {
            return None;
        }
        value = value * 10 + d;
        i = i + 1;
    }
    assert(t.take(t.len() as int) =~= t);
    Some(value)
}

/// The lower-case form of `s` by Unicode's case mapping, as `str::to_lowercase`
/// computes it.
pub uninterp spec fn unicode_lowercase(s: Seq<char>) -> Seq<char>;

/// `str::to_lowercase` depends on its text alone; of a text of ASCII characters
/// it lowers the ASCII letters and keeps the rest.
pub assume_specification[ str::to_lowercase ](s: &str) -> (r: String)
    ensures
        r@ == unicode_lowercase(s@),
        vstd::utf8::is_ascii_chars(s@) ==> r@ == lower(s@),
;

/// The text of an optional string.
pub open spec fn opt_text(s: Option<String>) -> Option<Seq<char>> {
    match s {
        Some(t) => Some(t@),
        None => None,
    }
}

/// The texts of a sequence of strings.
pub open spec fn texts(s: Seq<String>) -> Seq<Seq<char>> {
    s.map_values(|t: String| t@)
}

/// The last position before `below` at which `part` stands in `s`.
pub open spec fn last_at(s: Seq<char>, part: Seq<char>, below: nat) -> Option<int>
    decreases below,
{
    if below == 0 {
        None
    } else if part_at(s, part, below - 1) {
        Some(below - 1)
    } else {
        last_at(s, part, (below - 1) as nat)
    }
}

/// The first position from `from` on at which `part` stands in `s`.
pub open spec fn first_at(s: Seq<char>, part: Seq<char>, from: nat) -> Option<int>
    decreases s.len() + 1 - from,
{
    if from > s.len() {
        None
    } else if part_at(s, part, from as int) {
        Some(from as int)
    } else {
        first_at(s, part, from + 1)
    }
}

/// The last position at which the non-empty `part` stands in `s`.
pub fn find_last(s: &[char], part: &[char]) -> (r: Option<usize>)
    requires
        part@.len() > 0,
    ensures
        match r {
            Some(i) => last_at(s@, part@, s@.len()) == Some(i as int),
            None => last_at(s@, part@, s@.len()) is None,
        },
        r matches Some(i) ==> part_at(s@, part@, i as int),
{
    let mut below: usize = s.len();
    while below > 0
        invariant
            below <= s@.len(),
            last_at(s@, part@, s@.len()) == last_at(s@, part@, below as nat),
        decreases below,
    {
        if stands_at(s, part, below - 1) {
            return Some(below - 1);
        }
        below = below - 1;
    }
    None
}

/// The first position from `from` on at which the non-empty `part` stands in `s`.
pub fn find_first(s: &[char], part: &[char], from: usize) -> (r: Option<usize>)
    requires
        part@.len() > 0,
    ensures
        match r {
            Some(i) => first_at(s@, part@, from as nat) == Some(i as int),
            None => first_at(s@, part@, from as nat) is None,
        },
        r matches Some(i) ==> from <= i && part_at(s@, part@, i as int),
{
    let mut at: usize = from;
    while at < s.len()
        invariant
            from <= at,
            at <= s@.len() || at == from,
            part@.len() > 0,
            first_at(s@, part@, from as nat) == first_at(s@, part@, at as nat),
        decreases s@.len() - at,
    {
        if stands_at(s, part, at) {
            return Some(at);
        }
        at = at + 1;
    }
    proof {
        reveal_with_fuel(first_at, 2);
    }
    None
}

/// A text cut out of another.
pub fn cut(s: &[char], from: usize, to: usize) -> (r: String)
    requires
        from <= to <= s@.len(),
    ensures
        r@ == s@.subrange(from as int, to as int),
{
    let mut out = String::new();
    let mut i: usize = from;
    while i < to
        invariant
            from <= i <= to <= s@.len(),
            out@ == s@.subrange(from as int, i as int),
        decreases to - i,
    {
        out.push(s[i]);
        proof {
            assert(s@.subrange(from as int, i as int).push(s@[i as int]) =~= s@.subrange(
                from as int,
                i + 1,
            ));
        }
        i = i + 1;
    }
    out
}

/// How many characters stand in `s` before the first white space.
pub open spec fn word_len(s: Seq<char>) -> nat
    decreases s.len(),
{
    if s.len() == 0 || is_white_space(s[0]) {
        0
    } else {
        1 + word_len(s.drop_first())
    }
}

proof fn lemma_word_len(s: Seq<char>)
    ensures
        word_len(s) <= s.len(),
    decreases s.len(),
{
    if s.len() > 0 && !is_white_space(s[0]) {
        lemma_word_len(s.drop_first());
    }
}

/// What is left has no white space at its beginning.
pub proof fn lemma_trim_head(s: Seq<char>)
    ensures
        trim_head(s).len() <= s.len(),
        trim_head(s).len() > 0 ==> !is_white_space(trim_head(s)[0]),
    decreases s.len(),
{
    if s.len() > 0 && is_white_space(s[0]) {
        lemma_trim_head(s.drop_first());
    }
}

/// The words of `s`: what stands between white space.
pub open spec fn words(s: Seq<char>) -> Seq<Seq<char>>
    decreases s.len(),
    via words_decreases
{
    let t = trim_head(s);
    if t.len() == 0 {
        Seq::empty()
    } else {
        seq![t.take(word_len(t) as int)] + words(t.skip(word_len(t) as int))
    }
}

#[via_fn]
proof fn words_decreases(s: Seq<char>) {
    lemma_trim_head(s);
    lemma_word_len(trim_head(s));
}

/// White space before the rest of a text is no part of its words.
pub proof fn lemma_words_skip(c: char, rest: Seq<char>)
    requires
        is_white_space(c),
    ensures
        words(seq![c] + rest) == words(rest),
{
    let s = seq![c] + rest;
    assert(s.drop_first() =~= rest);
    assert(trim_head(s) == trim_head(rest));
    lemma_trim_head_twice(rest);
}

proof fn lemma_trim_head_twice(s: Seq<char>)
    ensures
        trim_head(trim_head(s)) == trim_head(s),
    decreases s.len(),
{
    lemma_trim_head(s);
}

proof fn lemma_word_len_is(word: Seq<char>, rest: Seq<char>)
    requires
        forall|i: int| 0 <= i < word.len() ==> !is_white_space(#[trigger] word[i]),
        rest.len() > 0 ==> is_white_space(rest[0]),
    ensures
        word_len(word + rest) == word.len(),
    decreases word.len(),
{
    let s = word + rest;
    if word.len() == 0 {
        assert(s =~= rest);
    } else {
        assert(s[0] == word[0]);
        assert(s.drop_first() =~= word.drop_first() + rest);
        assert forall|i: int| 0 <= i < word.drop_first().len() implies !is_white_space(
            #[trigger] word.drop_first()[i],
        ) by {
            assert(word.drop_first()[i] == word[i + 1]);
        }
        lemma_word_len_is(word.drop_first(), rest);
    }
}

/// A word before white space is the first word of the text.
pub proof fn lemma_words_step(word: Seq<char>, rest: Seq<char>)
    requires
        word.len() > 0,
        forall|i: int| 0 <= i < word.len() ==> !is_white_space(#[trigger] word[i]),
        rest.len() > 0 ==> is_white_space(rest[0]),
    ensures
        words(word + rest) == seq![word] + words(rest),
{
    let s = word + rest;
    assert(s[0] == word[0]);
    assert(trim_head(s) == s);
    lemma_word_len_is(word, rest);
    assert(s.take(word.len() as int) =~= word);
    assert(s.skip(word.len() as int) =~= rest);
}

fn word_end(s: &[char], from: usize) -> (k: usize)
    requires
        from <= s@.len(),
    ensures
        from <= k <= s@.len(),
        k == from + word_len(s@.skip(from as int)),
{
    let mut k: usize = from;
    while k < s.len() && !white_space(s[k])
        invariant
            from <= k <= s@.len(),
            k + word_len(s@.skip(k as int)) == from + word_len(s@.skip(from as int)),
        decreases s@.len() - k,
    {
        assert(s@.skip(k as int).drop_first() =~= s@.skip(k + 1));
        k = k + 1;
    }
    k
}

/// The words of `s`: what stands between white space.
pub fn split_words(s: &str) -> (r: Vec<String>)
    ensures
        texts(r@) == words(s@),
{
    let chars = chars_of(s);
    let mut out: Vec<String> = Vec::new();
    let mut at: usize = 0;
    let mut done = false;
    assert(chars@.skip(0) =~= chars@);
    assert(texts(out@) + words(chars@) =~= words(s@));
    while !done
        invariant
            at <= chars@.len(),
            chars@ == s@,
            !done ==> texts(out@) + words(chars@.skip(at as int)) == words(s@),
            done ==> texts(out@) == words(s@),
        decreases (if done {
            0int
        } else {
            1 + chars@.len() - at
        }),
    {
        let start: usize = head_end(chars.as_slice(), at);
        if start == chars.len() {
            assert(texts(out@) + Seq::<Seq<char>>::empty() =~= texts(out@));
            done = true;
        } else {
            let stop: usize = word_end(chars.as_slice(), start);
            let ghost t = chars@.skip(start as int);
            let ghost before = texts(out@);
            proof {
                lemma_trim_head(chars@.skip(at as int));
                lemma_word_len(t);
                assert(t.skip(word_len(t) as int) =~= chars@.skip(stop as int));
                assert(t.take(word_len(t) as int) =~= chars@.subrange(start as int, stop as int));
                reveal_with_fuel(word_len, 2);
            }
            let word = cut(chars.as_slice(), start, stop);
            out.push(word);
            assert(texts(out@) =~= before.push(word@));
            assert(before.push(word@) + words(chars@.skip(stop as int)) =~= before + (seq![word@]
                + words(chars@.skip(stop as int))));
            at = stop;
        }
    }
    out
}

/// The words in which `String::from_utf8` says what is wrong with bytes that are
/// no UTF-8.
pub uninterp spec fn utf8_complaint(bytes: Seq<u8>) -> Seq<char>;

/// `String::from_utf8`: the text that the bytes encode where they are valid UTF-8,
/// else its complaint, in words, which depends on the bytes alone.
#[verifier::external_body]
pub(crate) fn utf8_text(bytes: Vec<u8>) -> (r: Result<String, String>)
    ensures
        match r {
            Ok(s) => vstd::utf8::valid_utf8(bytes@) && s@ == vstd::utf8::decode_utf8(bytes@),
            Err(e) => !vstd::utf8::valid_utf8(bytes@) && e@ == utf8_complaint(bytes@),
        },
{
    String::from_utf8(bytes).map_err(|e| e.to_string())
}

/// The parts one after the other, with `sep` between them.
pub open spec fn joined(parts: Seq<Seq<char>>, sep: Seq<char>) -> Seq<char>
    decreases parts.len(),
{
    if parts.len() == 0 {
        Seq::empty()
    } else if parts.len() == 1 {
        parts[0]
    } else {
        joined(parts.drop_last(), sep) + sep + parts.last()
    }
}

/// The parts one after the other, with `sep` between them.
pub fn join(parts: &Vec<String>, sep: &str) -> (r: String)
    ensures
        r@ == joined(texts(parts@), sep@),
{
    let mut out = String::new();
    let mut i: usize = 0;
    assert(texts(parts@).take(0) =~= Seq::<Seq<char>>::empty());
    while i < parts.len()
        invariant
            i <= parts@.len(),
            out@ == joined(texts(parts@).take(i as int), sep@),
        decreases parts@.len() - i,
    {
        let ghost all = texts(parts@);
        proof {
            assert(all.take(i + 1).drop_last() =~= all.take(i as int));
            assert(all.take(i + 1).last() == parts@[i as int]@);
        }
        if i > 0 {
            out.append(sep);
            out.append(parts[i].as_str());
        } else {
            assert(out@ + parts@[0]@ =~= parts@[0]@);
            out.append(parts[i].as_str());
            assert(all.take(1)[0] == parts@[0]@);
        }
        i = i + 1;
    }
    assert(texts(parts@).take(parts@.len() as int) =~= texts(parts@));
    out
}

/// Doubling keeps every other character, and puts two quotes for each: what holds no quote
/// is kept, and texts can be doubled part by part.
pub proof fn law_doubling(a: Seq<char>, b: Seq<char>, q: char)
    ensures
        !a.contains(q) ==> doubled(a, q) == a,
        doubled(a + seq![q] + b, q) == doubled(a, q) + seq![q, q] + doubled(b, q),
        doubled(a + b, q) == doubled(a, q) + doubled(b, q),
{
    lemma_doubled_plain(a, q);
    lemma_doubled_append(a, b, q);
    lemma_doubled_append(a + seq![q], b, q);
    assert((a + seq![q]).drop_last() =~= a);
    assert(doubled(a + seq![q], q) =~= doubled(a, q) + seq![q, q]);
}

proof fn lemma_doubled_plain(s: Seq<char>, q: char)
    ensures
        !s.contains(q) ==> doubled(s, q) == s,
    decreases s.len(),
{
    if s.len() > 0 && !s.contains(q) {
        let t = s.drop_last();
        assert(!t.contains(q)) by {
            if t.contains(q) {
                let i = choose|i: int| 0 <= i < t.len() && t[i] == q;
                assert(s[i] == q);
            }
        }
        lemma_doubled_plain(t, q);
        assert(s.contains(s.last()));
        assert(t.push(s.last()) =~= s);
    } else if s.len() == 0 {
        assert(doubled(s, q) =~= s);
    }
}

proof fn lemma_doubled_append(a: Seq<char>, b: Seq<char>, q: char)
    ensures
        doubled(a + b, q) == doubled(a, q) + doubled(b, q),
    decreases b.len(),
{
    if b.len() == 0 {
        assert(a + b =~= a);
        assert(doubled(a, q) + doubled(b, q) =~= doubled(a, q));
    } else {
        assert((a + b).drop_last() =~= a + b.drop_last());
        lemma_doubled_append(a, b.drop_last(), q);
        assert(doubled(a + b, q) =~= doubled(a, q) + doubled(b, q));
    }
}

/// Lowering a text changes the ASCII capitals in it to their small letters, and nothing else.
pub proof fn law_lowering(s: Seq<char>, i: int)
    requires
        0 <= i < s.len(),
    ensures
        lower(s).len() == s.len(),
        'A' <= s[i] && s[i] <= 'Z' ==> lower(s)[i] as int == s[i] as int + 32,
        !('A' <= s[i] && s[i] <= 'Z') ==> lower(s)[i] == s[i],
{
}

/// Two texts are the same whatever the case if and only if they are as long as each other,
/// and each two characters in the same place are the same or a letter in two cases.
pub proof fn law_same_whatever_the_case(a: Seq<char>, b: Seq<char>)
    ensures
        same_ignoring_case(a, b) <==> a.len() == b.len() && forall|i: int|
            0 <= i < a.len() ==> #[trigger] a[i] == b[i] || ('A' <= a[i] && a[i] <= 'Z' && b[i] as int
                == a[i] as int + 32) || ('A' <= b[i] && b[i] <= 'Z' && a[i] as int == b[i] as int
                + 32),
{
    if same_ignoring_case(a, b) {
        assert(lower(a).len() == a.len() && lower(b).len() == b.len());
        assert forall|i: int| 0 <= i < a.len() implies #[trigger] a[i] == b[i] || ('A' <= a[i]
            && a[i] <= 'Z' && b[i] as int == a[i] as int + 32) || ('A' <= b[i] && b[i] <= 'Z'
            && a[i] as int == b[i] as int + 32) by {
            assert(lower(a)[i] == lower_char(a[i]));
            assert(lower(b)[i] == lower_char(b[i]));
        }
    }
    if a.len() == b.len() && forall|i: int|
        0 <= i < a.len() ==> #[trigger] a[i] == b[i] || ('A' <= a[i] && a[i] <= 'Z' && b[i] as int
            == a[i] as int + 32) || ('A' <= b[i] && b[i] <= 'Z' && a[i] as int == b[i] as int + 32) {
        assert forall|i: int| 0 <= i < a.len() implies lower(a)[i] == lower(b)[i] by {
            assert(a[i] == a[i]);
        }
        assert(lower(a) =~= lower(b));
    }
}

/// The classes of ASCII characters: capitals, small letters, digits and letters.
pub proof fn law_classes_of_characters(c: char)
    ensures
        is_upper(c) <==> 65 <= c as int <= 90,
        is_lower(c) <==> 97 <= c as int <= 122,
        is_digit(c) <==> 48 <= c as int <= 57,
        is_letter(c) <==> 65 <= c as int <= 90 || 97 <= c as int <= 122,
{
}

/// White space is the space, the tabulator and the line ends of ASCII, and beyond it what
/// Unicode counts as white space.
pub proof fn law_white_space(c: char)
    ensures
        c as int <= 127 ==> (is_white_space(c) <==> c == ' ' || 9 <= c as int <= 13),
        c as int > 127 ==> (is_white_space(c) <==> c as int == 133 || c as int == 160 || c as int
            == 5760 || 8192 <= c as int <= 8202 || c as int == 8232 || c as int == 8233 || c as int
            == 8239 || c as int == 8287 || c as int == 12288),
{
}

/// Whether `s` is nothing but white space.
pub open spec fn is_blank(s: Seq<char>) -> bool {
    forall|i: int| 0 <= i < s.len() ==> is_white_space(#[trigger] s[i])
}

proof fn lemma_trim_head_blank(a: Seq<char>, b: Seq<char>)
    requires
        is_blank(a),
    ensures
        trim_head(a + b) == trim_head(b),
    decreases a.len(),
{
    if a.len() == 0 {
        assert(a + b =~= b);
    } else {
        assert((a + b)[0] == a[0]);
        assert((a + b).drop_first() =~= a.drop_first() + b);
        assert forall|i: int| 0 <= i < a.drop_first().len() implies is_white_space(
            #[trigger] a.drop_first()[i],
        ) by {
            assert(a.drop_first()[i] == a[i + 1]);
        }
        lemma_trim_head_blank(a.drop_first(), b);
    }
}

proof fn lemma_trim_tail_blank(a: Seq<char>, b: Seq<char>)
    requires
        is_blank(b),
    ensures
        trim_tail(a + b) == trim_tail(a),
    decreases b.len(),
{
    if b.len() == 0 {
        assert(a + b =~= a);
    } else {
        assert((a + b).last() == b[b.len() - 1]);
        assert((a + b).drop_last() =~= a + b.drop_last());
        assert forall|i: int| 0 <= i < b.drop_last().len() implies is_white_space(
            #[trigger] b.drop_last()[i],
        ) by {
            assert(b.drop_last()[i] == b[i]);
        }
        lemma_trim_tail_blank(a, b.drop_last());
    }
}

/// Trimming takes the white space around a text away, and nothing else.
pub proof fn law_trimming(a: Seq<char>, core: Seq<char>, b: Seq<char>)
    requires
        is_blank(a),
        is_blank(b),
        core.len() > 0 ==> !is_white_space(core[0]) && !is_white_space(core.last()),
    ensures
        trimmed(a + core + b) == core,
        trim_head(a + core) == core,
{
    assert(a + core + b =~= a + (core + b));
    lemma_trim_head_blank(a, core + b);
    lemma_trim_head_blank(a, core);
    if core.len() == 0 {
        assert(core + b =~= b + core);
        lemma_trim_head_blank(b, core);
        assert(trim_head(core) =~= core);
        assert(trim_tail(core) =~= core);
    } else {
        assert((core + b)[0] == core[0]);
        lemma_trim_tail_blank(core, b);
    }
}

/// The words of a text are the runs between its white space, in order.
pub proof fn law_words(blank: Seq<char>, word: Seq<char>, rest: Seq<char>)
    requires
        is_blank(blank),
        word.len() > 0,
        forall|i: int| 0 <= i < word.len() ==> !is_white_space(#[trigger] word[i]),
        rest.len() == 0 || is_white_space(rest[0]),
    ensures
        words(blank) == Seq::<Seq<char>>::empty(),
        words(blank + word + rest) == seq![word] + words(rest),
{
    assert(blank + Seq::<char>::empty() =~= blank);
    lemma_trim_head_blank(blank, Seq::empty());
    assert(trim_head(Seq::<char>::empty()) =~= Seq::<char>::empty());
    let t = word + rest;
    assert(blank + word + rest =~= blank + t);
    lemma_trim_head_blank(blank, t);
    assert(t[0] == word[0]);
    assert(trim_head(t) == t);
    lemma_word_len_is(word, rest);
    assert(t.take(word.len() as int) =~= word);
    assert(t.skip(word.len() as int) =~= rest);
}

/// Parts are joined in order, with the separator between each two of them.
pub proof fn law_joining(parts: Seq<Seq<char>>, part: Seq<char>, sep: Seq<char>)
    ensures
        joined(Seq::empty(), sep) == Seq::<char>::empty(),
        joined(seq![part], sep) == part,
        parts.len() > 0 ==> joined(parts.push(part), sep) == joined(parts, sep) + sep + part,
{
    assert(parts.push(part).drop_last() =~= parts);
}

/// A number is written digit by digit, the most significant first: ten digits in decimal,
/// sixteen in hexadecimal, those above nine as small letters.
pub proof fn law_digits(q: nat, d: nat)
    ensures
        d < 10 ==> decimal(d) == seq![(48 + d) as char],
        d < 10 && q > 0 ==> decimal(10 * q + d) == decimal(q).push((48 + d) as char),
        d < 10 ==> hexadecimal(d) == seq![(48 + d) as char],
        10 <= d < 16 ==> hexadecimal(d) == seq![(87 + d) as char],
        d < 10 && q > 0 ==> hexadecimal(16 * q + d) == hexadecimal(q).push((48 + d) as char),
        10 <= d < 16 && q > 0 ==> hexadecimal(16 * q + d) == hexadecimal(q).push(
            (87 + d) as char,
        ),
{
    if d < 10 && q > 0 {
        assert((10 * q + d) / 10 == q && (10 * q + d) % 10 == d);
    }
    if d < 16 && q > 0 {
        assert((16 * q + d) / 16 == q && (16 * q + d) % 16 == d);
    }
}

/// A text of digits is read as a number digit by digit; a plus sign before them does not
/// change it, and any other character, or nothing at all, is no number.
pub proof fn law_reading_numbers(s: Seq<char>, c: char, max: nat)
    ensures
        unsigned_value(Seq::empty()) is None,
        '0' <= c && c <= '9' ==> unsigned_value(seq![c]) == Some((c as int - 48) as nat),
        all_digits(s) ==> unsigned_value(s) is Some && unsigned_value(seq!['+'] + s)
            == unsigned_value(s),
        all_digits(s) && '0' <= c && c <= '9' ==> unsigned_value(s.push(c)) == Some(
            unsigned_value(s)->0 * 10 + (c as int - 48) as nat,
        ),
        unsigned_value(s) is Some ==> forall|i: int|
            0 <= i < s.len() ==> '0' <= #[trigger] s[i] && s[i] <= '9' || (i == 0 && s[i] == '+'
                && s.len() > 1),
        bounded_value(s, max) == (if unsigned_value(s) is Some && unsigned_value(s)->0 <= max {
            unsigned_value(s)
        } else {
            None
        }),
{
    let one = seq![c];
    assert(one.drop_last() =~= Seq::<char>::empty());
    if '0' <= c && c <= '9' {
        assert(one[0] == c);
        assert(all_digits(one));
        assert(digits_value(one) == digits_value(Seq::<char>::empty()) * 10 + (c as int
            - 48) as nat);
    }
    if all_digits(s) {
        assert(is_digit(s[0]));
        assert((seq!['+'] + s).drop_first() =~= s);
        let more = s.push(c);
        assert(more.drop_last() =~= s);
        assert(more[0] == s[0]);
        if '0' <= c && c <= '9' {
            assert forall|i: int| 0 <= i < more.len() implies is_digit(#[trigger] more[i]) by {
                if i < s.len() {
                    assert(more[i] == s[i]);
                }
            }
        }
    }
    if unsigned_value(s) is Some {
        assert forall|i: int| 0 <= i < s.len() implies '0' <= #[trigger] s[i] && s[i] <= '9' || (i
            == 0 && s[i] == '+' && s.len() > 1) by {
            if s[0] == '+' {
                let t = s.drop_first();
                if i > 0 {
                    assert(t[i - 1] == s[i]);
                }
            }
        }
    }
}

/// A part stands in a text if and only if the text is something, the part, and something
/// else; at its beginning, if nothing comes before it; at its end, if nothing comes after.
pub proof fn law_parts_of_texts(a: Seq<char>, part: Seq<char>, b: Seq<char>, s: Seq<char>)
    ensures
        has_part(a + part + b, part),
        has_head(part + b, part),
        has_tail(a + part, part),
        has_part(s, part) ==> exists|at: int|
            0 <= at <= s.len() - part.len() && s == #[trigger] s.take(at) + part + s.skip(
                at + part.len(),
            ),
        has_head(s, part) ==> s == part + s.skip(part.len() as int),
        has_tail(s, part) ==> s == s.take(s.len() - part.len()) + part,
{
    assert((a + part + b).subrange(a.len() as int, (a.len() + part.len()) as int) =~= part);
    assert(part_at(a + part + b, part, a.len() as int));
    assert((part + b).subrange(0, part.len() as int) =~= part);
    assert((a + part).subrange(a.len() as int, (a.len() + part.len()) as int) =~= part);
    if has_part(s, part) {
        let at = choose|at: int| part_at(s, part, at);
        assert(s =~= s.take(at) + part + s.skip(at + part.len()));
    }
    if has_head(s, part) {
        assert(s =~= part + s.skip(part.len() as int));
    }
    if has_tail(s, part) {
        assert(s =~= s.take(s.len() - part.len()) + part);
    }
}

/// The first place of a part is where it stands with none before.
pub proof fn law_first_place(s: Seq<char>, part: Seq<char>, from: nat)
    ensures
        match first_at(s, part, from) {
            Some(i) => from <= i <= s.len() && part_at(s, part, i) && forall|j: int|
                from <= j < i ==> !#[trigger] part_at(s, part, j),
            None => forall|j: int| from <= j <= s.len() ==> !#[trigger] part_at(s, part, j),
        },
    decreases s.len() + 1 - from,
{
    if from <= s.len() && !part_at(s, part, from as int) {
        law_first_place(s, part, from + 1);
    }
}

/// The last place of a part is where it stands with none behind.
pub proof fn law_last_place(s: Seq<char>, part: Seq<char>, below: nat)
    ensures
        match last_at(s, part, below) {
            Some(i) => 0 <= i < below && part_at(s, part, i) && forall|j: int|
                i < j < below ==> !#[trigger] part_at(s, part, j),
            None => forall|j: int| 0 <= j < below ==> !#[trigger] part_at(s, part, j),
        },
    decreases below,
{
    if below > 0 && !part_at(s, part, below - 1) {
        law_last_place(s, part, (below - 1) as nat);
    }
}

/// A part that stands somewhere and nowhere behind stands there last.
pub proof fn lemma_last_is(s: Seq<char>, part: Seq<char>, at: int)
    requires
        0 <= at < s.len(),
        part_at(s, part, at),
        forall|j: int| at < j ==> !#[trigger] part_at(s, part, j),
    ensures
        last_at(s, part, s.len()) == Some(at),
{
    law_last_place(s, part, s.len());
}

/// A character stands last where it stands with none behind, and nowhere where there is none.
pub proof fn law_last_character(a: Seq<char>, c: char, b: Seq<char>, s: Seq<char>)
    requires
        !b.contains(c),
    ensures
        last_at(a + seq![c] + b, seq![c], (a + seq![c] + b).len()) == Some(a.len() as int),
        !s.contains(c) ==> last_at(s, seq![c], s.len()) is None,
{
    let whole = a + seq![c] + b;
    let mark = seq![c];
    let at = a.len() as int;
    assert(whole.subrange(at, at + 1) =~= mark);
    assert forall|j: int| at < j implies !#[trigger] part_at(whole, mark, j) by {
        if part_at(whole, mark, j) {
            assert(whole.subrange(j, j + 1)[0] == whole[j]);
            assert(whole[j] == b[j - at - 1]);
            assert(b.contains(c));
        }
    }
    lemma_last_is(whole, mark, at);
    law_last_place(s, mark, s.len());
    if let Some(i) = last_at(s, mark, s.len()) {
        assert(s.subrange(i, i + 1)[0] == s[i]);
        assert(s.contains(c));
    }
}

/// A truncated text is the longest beginning of the text that fits, cut between characters.
pub proof fn law_truncation(s: Seq<char>, max: nat, k: int)
    requires
        0 <= k <= s.len(),
    ensures
        exists|n: int|
            0 <= n <= s.len() && truncated(s, max) == #[trigger] s.take(n) && byte_len(s.take(n))
                <= max,
        byte_len(s.take(k)) <= max ==> k <= truncated(s, max).len(),
        byte_len(s) <= max ==> truncated(s, max) == s,
    decreases s.len(),
{
    if byte_len(s) <= max {
        assert(s.take(s.len() as int) =~= s);
    } else {
        if s.len() == 0 {
            assert(byte_len(s) == 0);
        }
        let t = s.drop_last();
        if k == s.len() {
            assert(s.take(k) =~= s);
            law_truncation(t, max, 0);
        } else {
            assert(t.take(k) =~= s.take(k));
            law_truncation(t, max, k);
        }
        let n = choose|n: int|
            0 <= n <= t.len() && truncated(t, max) == #[trigger] t.take(n) && byte_len(t.take(n))
                <= max;
        assert(t.take(n) =~= s.take(n));
    }
}

/// The words for truth values; texts are listed one by one, and an absent text stays absent.
pub proof fn law_plain_words(s: Seq<String>, i: int, t: String)
    ensures
        bool_word(true) == "true"@,
        bool_word(false) == "false"@,
        texts(s).len() == s.len(),
        0 <= i < s.len() ==> texts(s)[i] == s[i]@,
        opt_text(Some(t)) == Some(t@),
        opt_text(None) is None,
{
}

} // verus!
