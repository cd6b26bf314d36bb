//! Cells of a query's result as structured values.

use vstd::prelude::*;

use crate::json::Json;
use crate::text;

verus! {

/// How a cell is decoded: by the type of its column.
#[derive(Debug, Clone, Copy, PartialEq, Eq, Structural)]
pub enum CellDecoder {
    /// As a truth value.
    Bool,
    /// As a whole number.
    Integer,
    /// As a floating-point number.
    Float,
    /// As a decimal number.
    Numeric,
    /// As a day, a point in time or a text, all of which are shown as text.
    Text,
}

/// The type of a column, as far as decoding depends on it.
#[derive(Debug, Clone, Copy, PartialEq, Eq, Structural)]
pub enum ColumnKind {
    /// Truth values.
    Bool,
    /// Whole numbers of 16 bits.
    SmallInt,
    /// Whole numbers of 32 bits.
    Int,
    /// Whole numbers of 64 bits.
    BigInt,
    /// Floating-point numbers of 64 bits.
    Double,
    /// Floating-point numbers of 32 bits.
    Float,
    /// Decimal numbers.
    Numeric,
    /// Days.
    Date,
    /// Points in time without a time zone.
    Timestamp,
    /// Points in time with a time zone.
    TimestampTz,
    /// Texts.
    Text,
    /// Texts of bounded length.
    Varchar,
    /// Any other type.
    Other,
}

/// How a cell of a column is decoded; what is not known is taken for text.
pub fn decoder_for(kind: ColumnKind) -> (r: CellDecoder)
    ensures
        r == (match kind {
            ColumnKind::Bool => CellDecoder::Bool,
            ColumnKind::SmallInt => CellDecoder::Integer,
            ColumnKind::Int => CellDecoder::Integer,
            ColumnKind::BigInt => CellDecoder::Integer,
            ColumnKind::Double => CellDecoder::Float,
            ColumnKind::Float => CellDecoder::Float,
            ColumnKind::Numeric => CellDecoder::Numeric,
            ColumnKind::Date => CellDecoder::Text,
            ColumnKind::Timestamp => CellDecoder::Text,
            ColumnKind::TimestampTz => CellDecoder::Text,
            ColumnKind::Text => CellDecoder::Text,
            ColumnKind::Varchar => CellDecoder::Text,
            ColumnKind::Other => CellDecoder::Text,
        }),
{
    match kind {
        ColumnKind::Bool => CellDecoder::Bool,
        ColumnKind::SmallInt => CellDecoder::Integer,
        ColumnKind::Int => CellDecoder::Integer,
        ColumnKind::BigInt => CellDecoder::Integer,
        ColumnKind::Double => CellDecoder::Float,
        ColumnKind::Float => CellDecoder::Float,
        ColumnKind::Numeric => CellDecoder::Numeric,
        ColumnKind::Date => CellDecoder::Text,
        ColumnKind::Timestamp => CellDecoder::Text,
        ColumnKind::TimestampTz => CellDecoder::Text,
        ColumnKind::Text => CellDecoder::Text,
        ColumnKind::Varchar => CellDecoder::Text,
        ColumnKind::Other => CellDecoder::Text,
    }
}

/// A floating-point number that a decimal number was read as.
#[derive(Debug)]
pub struct NumericFloat {
    /// The 64 bits of its IEEE 754 form.
    pub bits: u64,
    /// Its shortest text that reads as it, without an exponent.
    pub shown: String,
}

/// A decoded cell. Floating-point numbers are the 64 bits of their IEEE 754 form.
#[derive(Debug)]
pub enum DecodedCell {
    /// The cell has no value.
    Null,
    /// The cell could not be decoded.
    Undecodable,
    /// A truth value.
    Bool(bool),
    /// A whole number.
    Integer(i64),
    /// A floating-point number.
    Float(u64),
    /// A decimal number: as text, and as the floating-point number that its text reads
    /// as, where it reads as one.
    Numeric {
        /// The text.
        shown: String,
        /// The floating-point number.
        float: Option<NumericFloat>,
    },
    /// A text.
    Text(String),
}

/// Whether 64 bits are those of a finite number: their exponent is not all ones.
pub open spec fn is_finite_bits(bits: u64) -> bool {
    (bits / 0x10_0000_0000_0000) % 0x800 != 0x7ff
}

/// Whether 64 bits are those of a finite number.
pub fn finite_bits(bits: u64) -> (r: bool)
    ensures
        r == is_finite_bits(bits),
{
    (bits / 0x10_0000_0000_0000) % 0x800 != 0x7ff
}

/// A text without the zeros that it begins with.
pub open spec fn skip_zeros(s: Seq<char>) -> Seq<char>
    decreases s.len(),
{
    if s.len() > 0 && s[0] == '0' {
        skip_zeros(s.skip(1))
    } else {
        s
    }
}

/// A text without the zeros that it ends with.
pub open spec fn drop_zeros(s: Seq<char>) -> Seq<char>
    decreases s.len(),
{
    if s.len() > 0 && s.last() == '0' {
        drop_zeros(s.drop_last())
    } else {
        s
    }
}

/// Where the point stands in a decimal number, or its end.
pub open spec fn point_of(s: Seq<char>) -> nat
    decreases s.len(),
{
    if s.len() == 0 || s[0] == '.' {
        0
    } else {
        1 + point_of(s.skip(1))
    }
}

/// A decimal number without what does not change it: whether it is negative, its
/// digits before the point, and those behind it.
pub open spec fn canonical(s: Seq<char>) -> (bool, Seq<char>, Seq<char>) {
    let negative = s.len() > 0 && s[0] == '-';
    let digits = if negative {
        s.skip(1)
    } else {
        s
    };
    let point = point_of(digits) as int;
    let behind = if point < digits.len() {
        digits.skip(point + 1)
    } else {
        Seq::empty()
    };
    (negative, skip_zeros(digits.take(point)), drop_zeros(behind))
}

fn point_in(s: &[char], from: usize) -> (k: usize)
    requires
        from <= s@.len(),
    ensures
        from <= k <= s@.len(),
        k == from + point_of(s@.skip(from as int)),
{
    let mut k: usize = from;
    while k < s.len() && s[k] != '.'
        invariant
            from <= k <= s@.len(),
            from + point_of(s@.skip(from as int)) == k + point_of(s@.skip(k as int)),
        decreases s@.len() - k,
    {
        proof {
            assert(s@.skip(k as int).skip(1) =~= s@.skip(k + 1));
        }
        k = k + 1;
    }
    k
}

fn zeros_end(s: &[char], from: usize, to: usize) -> (k: usize)
    requires
        from <= to <= s@.len(),
    ensures
        from <= k <= to,
        skip_zeros(s@.subrange(from as int, to as int)) == s@.subrange(k as int, to as int),
{
    let mut k: usize = from;
    while k < to && s[k] == '0'
        invariant
            from <= k <= to <= s@.len(),
            skip_zeros(s@.subrange(from as int, to as int)) == skip_zeros(
                s@.subrange(k as int, to as int),
            ),
        decreases to - k,
    {
        proof {
            assert(s@.subrange(k as int, to as int).skip(1) =~= s@.subrange(k + 1, to as int));
        }
        k = k + 1;
    }
    k
}

fn zeros_start(s: &[char], from: usize, to: usize) -> (k: usize)
    requires
        from <= to <= s@.len(),
    ensures
        from <= k <= to,
        drop_zeros(s@.subrange(from as int, to as int)) == s@.subrange(from as int, k as int),
{
    let mut k: usize = to;
    while k > from && s[k - 1] == '0'
        invariant
            from <= k <= to <= s@.len(),
            drop_zeros(s@.subrange(from as int, to as int)) == drop_zeros(
                s@.subrange(from as int, k as int),
            ),
        decreases k,
    {
        proof {
            assert(s@.subrange(from as int, k as int).drop_last() =~= s@.subrange(
                from as int,
                k - 1,
            ));
        }
        k = k - 1;
    }
    k
}

fn canonical_parts(s: &str) -> (r: (bool, String, String))
    ensures
        (r.0, r.1@, r.2@) == canonical(s@),
{
    let chars = text::chars_of(s);
    let n: usize = chars.len();
    let negative = n > 0 && chars[0] == '-';
    let from: usize = if negative {
        1
    } else {
        0
    };
    let point = point_in(chars.as_slice(), from);
    let ghost digits = if negative {
        s@.skip(1)
    } else {
        s@
    };
    proof {
        assert(chars@.skip(from as int) =~= digits);
        assert(digits.take(point - from) =~= chars@.subrange(from as int, point as int));
    }
    let head = zeros_end(chars.as_slice(), from, point);
    let whole = text::cut(chars.as_slice(), head, point);
    if point < n {
        let tail = zeros_start(chars.as_slice(), point + 1, n);
        let behind = text::cut(chars.as_slice(), point + 1, tail);
        assert(digits.skip(point - from + 1) =~= chars@.subrange(point + 1, n as int));
        (negative, whole, behind)
    } else {
        assert(drop_zeros(Seq::<char>::empty()) =~= Seq::empty());
        let behind = String::new();
        assert(behind@ =~= Seq::empty());
        (negative, whole, behind)
    }
}

/// Whether two decimal numbers are the same, whatever zeros they are written with.
pub fn same_decimal(a: &str, b: &str) -> (r: bool)
    ensures
        r == (canonical(a@) == canonical(b@)),
{
    let x = canonical_parts(a);
    let y = canonical_parts(b);
    x.0 == y.0 && text::same_text(x.1.as_str(), y.1.as_str()) && text::same_text(
        x.2.as_str(),
        y.2.as_str(),
    )
}

/// A cell as a structured value: a number that is not finite has no value, and a
/// decimal number that a floating-point number would change is shown as text.
pub open spec fn cell_json(cell: DecodedCell) -> Json {
    match cell {
        DecodedCell::Null => Json::Null,
        DecodedCell::Undecodable => Json::Null,
        DecodedCell::Bool(b) => Json::Bool(b),
        DecodedCell::Integer(n) => Json::Integer(n),
        DecodedCell::Float(bits) => if is_finite_bits(bits) {
            Json::Float(bits)
        } else {
            Json::Null
        },
        DecodedCell::Numeric { shown, float } => match float {
            Some(f) => if is_finite_bits(f.bits) && canonical(shown@) == canonical(f.shown@) {
                Json::Float(f.bits)
            } else {
                Json::Text(shown)
            },
            None => Json::Text(shown),
        },
        DecodedCell::Text(s) => Json::Text(s),
    }
}

/// A cell as a structured value.
pub fn cell_to_json(cell: DecodedCell) -> (r: Json)
    ensures
        r == cell_json(cell),
        cell is Null || cell is Undecodable ==> r == Json::Null,
        cell matches DecodedCell::Bool(b) ==> r == Json::Bool(b),
        cell matches DecodedCell::Integer(n) ==> r == Json::Integer(n),
        cell matches DecodedCell::Float(bits) ==> r == Json::Float(bits) || (r == Json::Null
            && !is_finite_bits(bits)),
        cell matches DecodedCell::Text(s) ==> r == Json::Text(s),
{
    match cell {
        DecodedCell::Null => Json::Null,
        DecodedCell::Undecodable => Json::Null,
        DecodedCell::Bool(b) => Json::Bool(b),
        DecodedCell::Integer(n) => Json::Integer(n),
        DecodedCell::Float(bits) => {
            if finite_bits(bits) {
                Json::Float(bits)
            } else {
                Json::Null
            }
        },
        DecodedCell::Numeric { shown, float } => match float {
            Some(f) => {
                if finite_bits(f.bits) && same_decimal(shown.as_str(), f.shown.as_str()) {
                    Json::Float(f.bits)
                } else {
                    Json::Text(shown)
                }
            },
            None => Json::Text(shown),
        },
        DecodedCell::Text(s) => Json::Text(s),
    }
}

/// No structured value holds a number that is not finite.
pub proof fn law_numbers_are_finite(cell: DecodedCell)
    ensures
        cell_json(cell) matches Json::Float(bits) ==> is_finite_bits(bits),
{
}

/// A truth value, a whole number and a text are answered as they are, and so is a finite
/// number; what has no value, could not be decoded or is not finite has no value.
pub proof fn law_plain_cells_are_kept(b: bool, n: i64, bits: u64, s: String)
    ensures
        cell_json(DecodedCell::Null) == Json::Null,
        cell_json(DecodedCell::Undecodable) == Json::Null,
        cell_json(DecodedCell::Bool(b)) == Json::Bool(b),
        cell_json(DecodedCell::Integer(n)) == Json::Integer(n),
        cell_json(DecodedCell::Text(s)) == Json::Text(s),
        is_finite_bits(bits) ==> cell_json(DecodedCell::Float(bits)) == Json::Float(bits),
        !is_finite_bits(bits) ==> cell_json(DecodedCell::Float(bits)) == Json::Null,
{
}

/// A decimal number that reads as a finite number which shows the same digits is answered
/// as that number, every other one as its text.
pub proof fn law_decimal_numbers_as_numbers(shown: String, float: NumericFloat)
    ensures
        is_finite_bits(float.bits) && canonical(shown@) == canonical(float.shown@) ==> cell_json(
            DecodedCell::Numeric { shown, float: Some(float) },
        ) == Json::Float(float.bits),
        !is_finite_bits(float.bits) || canonical(shown@) != canonical(float.shown@) ==> cell_json(
            DecodedCell::Numeric { shown, float: Some(float) },
        ) == Json::Text(shown),
        cell_json(DecodedCell::Numeric { shown, float: None }) == Json::Text(shown),
{
}

/// The bits of a number are its sign, its exponent of 11 bits and its fraction of 52 bits;
/// it is finite unless all bits of its exponent are set.
pub proof fn law_finite_bits(negative: bool, exponent: u64, fraction: u64)
    requires
        exponent < 2048,
        fraction < 4503599627370496,
    ensures
        is_finite_bits(
            (exponent * 4503599627370496 + fraction + if negative {
                0x8000_0000_0000_0000int
            } else {
                0
            }) as u64,
        ) <==> exponent != 2047,
{
    let sign: int = if negative {
        2048
    } else {
        0
    };
    let bits: int = (exponent + sign) * 4503599627370496 + fraction;
    assert(bits / 4503599627370496 == exponent + sign) by (nonlinear_arith)
        requires
            bits == (exponent + sign) * 4503599627370496 + fraction,
            0 <= fraction < 4503599627370496,
    ;
    assert((exponent + sign) % 2048 == exponent);
}

/// `n` zeros.
pub open spec fn zeros(n: nat) -> Seq<char> {
    Seq::new(n, |i: int| '0')
}

proof fn lemma_skip_zeros(n: nat, s: Seq<char>)
    requires
        s.len() == 0 || s[0] != '0',
    ensures
        skip_zeros(zeros(n) + s) == s,
    decreases n,
{
    if n == 0 {
        assert(zeros(n) + s =~= s);
    } else {
        assert((zeros(n) + s).skip(1) =~= zeros((n - 1) as nat) + s);
        lemma_skip_zeros((n - 1) as nat, s);
    }
}

proof fn lemma_drop_zeros(n: nat, s: Seq<char>)
    requires
        s.len() == 0 || s.last() != '0',
    ensures
        drop_zeros(s + zeros(n)) == s,
    decreases n,
{
    if n == 0 {
        assert(s + zeros(n) =~= s);
    } else {
        assert((s + zeros(n)).drop_last() =~= s + zeros((n - 1) as nat));
        lemma_drop_zeros((n - 1) as nat, s);
    }
}

proof fn lemma_point_of(head: Seq<char>, tail: Seq<char>)
    requires
        !head.contains('.'),
        tail.len() == 0 || tail[0] == '.',
    ensures
        point_of(head + tail) == head.len(),
    decreases head.len(),
{
    let whole = head + tail;
    if head.len() == 0 {
        assert(whole =~= tail);
    } else {
        assert(whole[0] == head[0]);
        assert(head.contains(head[0]));
        assert(whole.skip(1) =~= head.skip(1) + tail);
        assert forall|c: char| head.skip(1).contains(c) implies head.contains(c) by {
            let i = choose|i: int| 0 <= i < head.skip(1).len() && head.skip(1)[i] == c;
            assert(head[i + 1] == c);
        }
        lemma_point_of(head.skip(1), tail);
    }
}

/// Zeros before a decimal number and behind its fraction do not change it; its sign and
/// every other digit do.
pub proof fn law_zeros_do_not_count(
    negative: bool,
    ahead: nat,
    whole: Seq<char>,
    behind: Seq<char>,
    after: nat,
)
    requires
        !whole.contains('.'),
        whole.len() == 0 || (whole[0] != '0' && whole[0] != '-'),
        behind.len() == 0 || behind.last() != '0',
    ensures
        ({
            let sign = if negative {
                seq!['-']
            } else {
                Seq::<char>::empty()
            };
            &&& canonical(sign + zeros(ahead) + whole + seq!['.'] + behind + zeros(after)) == (
                negative,
                whole,
                behind,
            )
            &&& canonical(sign + zeros(ahead) + whole) == (negative, whole, Seq::<char>::empty())
        }),
{
    let sign = if negative {
        seq!['-']
    } else {
        Seq::<char>::empty()
    };
    let head = zeros(ahead) + whole;
    let tail = seq!['.'] + (behind + zeros(after));
    let a = sign + zeros(ahead) + whole + seq!['.'] + behind + zeros(after);
    let b = sign + zeros(ahead) + whole;
    assert(!head.contains('.')) by {
        if head.contains('.') {
            let i = choose|i: int| 0 <= i < head.len() && head[i] == '.';
            assert(whole.contains(whole[i - ahead]));
        }
    }
    lemma_skip_zeros(ahead, whole);
    lemma_drop_zeros(after, behind);
    lemma_point_of(head, tail);
    lemma_point_of(head, Seq::empty());
    assert(a =~= sign + (head + tail));
    assert(b =~= sign + (head + Seq::<char>::empty()));
    if negative {
        assert(a.skip(1) =~= head + tail);
        assert(b.skip(1) =~= head + Seq::<char>::empty());
    } else {
        assert(a =~= head + tail);
        assert(b =~= head + Seq::<char>::empty());
        assert(head.len() > 0 ==> a[0] == head[0] && b[0] == head[0]);
    }
    assert((head + tail).take(head.len() as int) =~= head);
    assert((head + Seq::<char>::empty()).take(head.len() as int) =~= head);
    assert((head + tail).skip((head.len() + 1) as int) =~= behind + zeros(after));
    assert(drop_zeros(Seq::<char>::empty()) =~= Seq::<char>::empty());
}

/// No decimal number is changed: what is answered is a number that is the same, or
/// the text.
pub proof fn law_decimal_numbers_are_kept(cell: DecodedCell)
    ensures
        cell matches DecodedCell::Numeric { shown, float } ==> cell_json(cell) == Json::Text(shown)
            || (float matches Some(f) && cell_json(cell) == Json::Float(f.bits) && canonical(
            f.shown@,
        ) == canonical(shown@)),
{
}

} // verus!
