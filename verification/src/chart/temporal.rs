//! Days and points in time on an axis: read from text and written again by the
//! `chrono` crate.

use vstd::prelude::*;

use crate::text;

verus! {

/// How points in time are written.
#[derive(Debug, Clone, Copy, PartialEq, Eq, Structural)]
pub enum TemporalKind {
    /// As days.
    Date,
    /// As days and times of day.
    DateTime,
    /// As days and times of day, so many seconds east of UTC.
    DateTimeTz(i32),
}

/// The offset from UTC and the seconds since 1970 that
/// `chrono::DateTime::<FixedOffset>::parse_from_str` reads from a text in a format.
pub uninterp spec fn zoned_read(s: Seq<char>, format: Seq<char>) -> Option<(i32, i64)>;

/// The seconds since 1970, taken for UTC, that `chrono::NaiveDateTime::parse_from_str`
/// reads from a text in a format.
pub uninterp spec fn naive_read(s: Seq<char>, format: Seq<char>) -> Option<i64>;

/// The seconds since 1970 at the beginning, in UTC, of the day that
/// `chrono::NaiveDate::parse_from_str` reads from a text in a format.
pub uninterp spec fn date_read(s: Seq<char>, format: Seq<char>) -> Option<i64>;

/// A point in time, in seconds since 1970, as `chrono::NaiveDateTime::format` writes it
/// in UTC. None where it lies outside the years that `chrono` knows.
pub uninterp spec fn utc_written(secs: i64, format: Seq<char>) -> Option<Seq<char>>;

/// A point in time, in seconds since 1970, as `chrono::DateTime::<FixedOffset>::format`
/// writes it so many seconds east of UTC. None where it lies outside the years that
/// `chrono` knows, or the offset is a day or more.
pub uninterp spec fn zoned_written(offset: i32, secs: i64, format: Seq<char>) -> Option<Seq<char>>;

/// The format of days.
pub const DATE_FORMAT: &'static str = "%Y-%m-%d";

/// The format of days and times of day.
pub const DATE_TIME_FORMAT: &'static str = "%Y-%m-%d %H:%M:%S";

/// The format of days and times of day with an offset from UTC.
pub const ZONED_FORMAT: &'static str = "%Y-%m-%d %H:%M:%S%:z";

/// The formats with an offset from UTC, in the order in which they are tried.
pub open spec fn zoned_formats() -> Seq<Seq<char>> {
    seq![
        "%Y-%m-%d %H:%M:%S%:z"@,
        "%Y-%m-%dT%H:%M:%S%:z"@,
        "%Y-%m-%d %H:%M:%S%z"@,
        "%Y-%m-%dT%H:%M:%S%z"@,
        "%Y-%m-%d %H:%M:%S%.f%:z"@,
        "%Y-%m-%dT%H:%M:%S%.f%:z"@,
    ]
}

/// The formats without an offset from UTC, in the order in which they are tried.
pub open spec fn naive_formats() -> Seq<Seq<char>> {
    seq![
        "%Y-%m-%d %H:%M:%S"@,
        "%Y-%m-%dT%H:%M:%S"@,
        "%Y-%m-%d %H:%M:%S%.f"@,
        "%Y-%m-%dT%H:%M:%S%.f"@,
        "%Y-%m-%d %H:%M"@,
        "%Y-%m-%dT%H:%M"@,
    ]
}

/// Whether a point in time lies between the second day of the year 1 and the last day
/// but one of the year 9999, so that its year has four digits wherever it is shown.
pub open spec fn is_plain_time(secs: i64) -> bool {
    -62135510400 <= secs <= 253402214399
}

/// The beginning, in UTC, of the day of a point in time.
pub open spec fn day_start(secs: i64) -> int {
    secs - secs as int % 86400
}

/// Whether an offset from UTC is less than a day and a whole number of minutes.
pub open spec fn is_plain_offset(offset: i32) -> bool {
    -86400 < offset < 86400 && offset as int % 60 == 0
}

/// Whether nothing is read from a text in any format with an offset from UTC.
pub open spec fn has_no_zone(s: Seq<char>) -> bool {
    forall|i: int| 0 <= i < zoned_formats().len() ==> zoned_read(s, #[trigger] zoned_formats()[i]) is None
}

/// Whether nothing is read from a text in any format with a time of day but without an
/// offset from UTC.
pub open spec fn has_no_time(s: Seq<char>) -> bool {
    forall|i: int| 0 <= i < naive_formats().len() ==> naive_read(s, #[trigger] naive_formats()[i]) is None
}

/// `chrono::DateTime::<FixedOffset>::parse_from_str`: what is read depends on the text
/// and the format alone, and an offset is always less than a day and a whole number of
/// minutes.
#[verifier::external_body]
fn read_zoned(s: &str, format: &str) -> (r: Option<(i32, i64)>)
    ensures
        r == zoned_read(s@, format@),
        r matches Some(p) ==> is_plain_offset(p.0),
{
    chrono::DateTime::<chrono::FixedOffset>::parse_from_str(s, format).ok().map(
        |t| (t.offset().local_minus_utc(), t.timestamp()),
    )
}

/// `chrono::NaiveDateTime::parse_from_str`: what is read depends on the text and the
/// format alone.
#[verifier::external_body]
fn read_naive(s: &str, format: &str) -> (r: Option<i64>)
    ensures
        r == naive_read(s@, format@),
{
    chrono::NaiveDateTime::parse_from_str(s, format).ok().map(|t| t.and_utc().timestamp())
}

/// `chrono::NaiveDate::parse_from_str`: what is read depends on the text and the format
/// alone, and is a whole number of days.
#[verifier::external_body]
fn read_date(s: &str, format: &str) -> (r: Option<i64>)
    ensures
        r == date_read(s@, format@),
        r matches Some(secs) ==> day_start(secs) == secs,
{
    chrono::NaiveDate::parse_from_str(s, format).ok().and_then(|d| d.and_hms_opt(0, 0, 0)).map(
        |t| t.and_utc().timestamp(),
    )
}

/// `chrono::DateTime::<Utc>::from_timestamp` and `chrono::NaiveDateTime::format`: what
/// is written depends on the point in time and the format alone. Where the year has four
/// digits, something is written, and `parse_from_str` reads it back in the same format: a
/// time of day where it was written, and in no format more than was written. A format
/// that `chrono` does not know would panic.
#[verifier::external_body]
fn write_utc(secs: i64, format: &str) -> (r: Option<String>)
    requires
        format@ == DATE_FORMAT@ || format@ == DATE_TIME_FORMAT@,
    ensures
        text::opt_text(r) == utc_written(secs, format@),
        is_plain_time(secs) ==> r is Some && has_no_zone(r->0@),
        is_plain_time(secs) && format@ == DATE_TIME_FORMAT@ ==> naive_read(r->0@, format@)
            == Some(secs),
        is_plain_time(secs) && format@ == DATE_FORMAT@ ==> has_no_time(r->0@) && date_read(
            r->0@,
            format@,
        ) == Some(day_start(secs) as i64),
{
    chrono::DateTime::<chrono::Utc>::from_timestamp(secs, 0).map(
        |t| t.naive_utc().format(format).to_string(),
    )
}

/// `chrono::DateTime::<FixedOffset>::format`: what is written depends on the offset, the
/// point in time and the format alone. Where the year has four digits and the offset is a
/// whole number of minutes, something is written, and `parse_from_str` reads it back. A
/// format that `chrono` does not know would panic.
#[verifier::external_body]
fn write_zoned(offset: i32, secs: i64, format: &str) -> (r: Option<String>)
    requires
        format@ == ZONED_FORMAT@,
    ensures
        text::opt_text(r) == zoned_written(offset, secs, format@),
        is_plain_time(secs) && is_plain_offset(offset) ==> r is Some && zoned_read(
            r->0@,
            format@,
        ) == Some((offset, secs)),
{
    let zone = chrono::FixedOffset::east_opt(offset)?;
    let t = chrono::DateTime::<chrono::Utc>::from_timestamp(secs, 0)?;
    Some(t.with_timezone(&zone).format(format).to_string())
}

fn zoned_format(i: usize) -> (r: &'static str)
    requires
        i < 6,
    ensures
        r@ == zoned_formats()[i as int],
{
    if i == 0 {
        "%Y-%m-%d %H:%M:%S%:z"
    } else if i == 1 {
        "%Y-%m-%dT%H:%M:%S%:z"
    } else if i == 2 {
        "%Y-%m-%d %H:%M:%S%z"
    } else if i == 3 {
        "%Y-%m-%dT%H:%M:%S%z"
    } else if i == 4 {
        "%Y-%m-%d %H:%M:%S%.f%:z"
    } else {
        "%Y-%m-%dT%H:%M:%S%.f%:z"
    }
}

fn naive_format(i: usize) -> (r: &'static str)
    requires
        i < 6,
    ensures
        r@ == naive_formats()[i as int],
{
    if i == 0 {
        "%Y-%m-%d %H:%M:%S"
    } else if i == 1 {
        "%Y-%m-%dT%H:%M:%S"
    } else if i == 2 {
        "%Y-%m-%d %H:%M:%S%.f"
    } else if i == 3 {
        "%Y-%m-%dT%H:%M:%S%.f"
    } else if i == 4 {
        "%Y-%m-%d %H:%M"
    } else {
        "%Y-%m-%dT%H:%M"
    }
}

/// The first value that is there.
pub open spec fn first_some<T>(values: Seq<Option<T>>) -> Option<T>
    decreases values.len(),
{
    if values.len() == 0 {
        None
    } else {
        match values[0] {
            Some(v) => Some(v),
            None => first_some(values.skip(1)),
        }
    }
}

/// The point in time that was read: `zoned` was read with an offset from UTC, `naive`
/// without, and `date` as a day. The most that was read counts.
pub open spec fn temporal_value(
    zoned: Seq<Option<(i32, i64)>>,
    naive: Seq<Option<i64>>,
    date: Option<i64>,
) -> Option<(TemporalKind, i64)> {
    match first_some(zoned) {
        Some((offset, secs)) => Some((TemporalKind::DateTimeTz(offset), secs)),
        None => match first_some(naive) {
            Some(secs) => Some((TemporalKind::DateTime, secs)),
            None => match date {
                Some(secs) => Some((TemporalKind::Date, secs)),
                None => None,
            },
        },
    }
}

fn first_of<T: Copy>(values: &Vec<Option<T>>) -> (r: Option<T>)
    ensures
        r == first_some(values@),
{
    let mut i: usize = 0;
    assert(values@.skip(0) =~= values@);
    while i < values.len()
        invariant
            i <= values@.len(),
            first_some(values@) == first_some(values@.skip(i as int)),
        decreases values@.len() - i,
    {
        proof {
            assert(values@.skip(i as int).skip(1) =~= values@.skip(i + 1));
        }
        if let Some(v) = values[i] {
            return Some(v);
        }
        i = i + 1;
    }
    None
}

/// The point in time that was read, and how it was written.
pub fn temporal_of(zoned: &Vec<Option<(i32, i64)>>, naive: &Vec<Option<i64>>, date: Option<i64>) -> (r:
    Option<(TemporalKind, i64)>)
    ensures
        r == temporal_value(zoned@, naive@, date),
{
    match first_of(zoned) {
        Some(p) => Some((TemporalKind::DateTimeTz(p.0), p.1)),
        None => match first_of(naive) {
            Some(secs) => Some((TemporalKind::DateTime, secs)),
            None => match date {
                Some(secs) => Some((TemporalKind::Date, secs)),
                None => None,
            },
        },
    }
}

/// The point in time that a text writes, in seconds since 1970, and how it is written.
pub open spec fn temporal(s: Seq<char>) -> Option<(TemporalKind, i64)> {
    temporal_value(
        zoned_formats().map_values(|f: Seq<char>| zoned_read(s, f)),
        naive_formats().map_values(|f: Seq<char>| naive_read(s, f)),
        date_read(s, DATE_FORMAT@),
    )
}

/// The point in time that a text writes, in seconds since 1970, and how it is written.
pub fn parse_temporal(s: &str) -> (r: Option<(TemporalKind, i64)>)
    ensures
        r == temporal(s@),
        r matches Some(p) ==> is_plain_kind(p.0) && shown_time(p.1, p.0) == p.1,
{
    let mut zoned: Vec<Option<(i32, i64)>> = Vec::new();
    let mut naive: Vec<Option<i64>> = Vec::new();
    let mut i: usize = 0;
    while i < 6
        invariant
            i <= 6,
            zoned@.len() == i,
            naive@.len() == i,
            forall|j: int| 0 <= j < i ==> #[trigger] zoned@[j] == zoned_read(s@, zoned_formats()[j]),
            forall|j: int|
                0 <= j < i ==> (#[trigger] zoned@[j] matches Some(p) ==> is_plain_offset(p.0)),
            forall|j: int| 0 <= j < i ==> #[trigger] naive@[j] == naive_read(s@, naive_formats()[j]),
        decreases 6 - i,
    {
        zoned.push(read_zoned(s, zoned_format(i)));
        naive.push(read_naive(s, naive_format(i)));
        i = i + 1;
    }
    assert(zoned@ =~= zoned_formats().map_values(|f: Seq<char>| zoned_read(s@, f)));
    assert(naive@ =~= naive_formats().map_values(|f: Seq<char>| naive_read(s@, f)));
    let date = read_date(s, DATE_FORMAT);
    proof {
        lemma_first_some_is_one(zoned@);
    }
    temporal_of(&zoned, &naive, date)
}

/// A point in time as an axis shows it, in the way in which the first value was
/// written.
pub open spec fn tick_text(seconds: Option<i64>, kind: TemporalKind) -> Seq<char> {
    let written = match seconds {
        None => None,
        Some(secs) => match kind {
            TemporalKind::Date => utc_written(secs, DATE_FORMAT@),
            TemporalKind::DateTime => utc_written(secs, DATE_TIME_FORMAT@),
            TemporalKind::DateTimeTz(offset) => zoned_written(offset, secs, ZONED_FORMAT@),
        },
    };
    match written {
        Some(s) => s,
        None => Seq::empty(),
    }
}

/// The point in time that a label shows: a day where it is shown as a day.
pub open spec fn shown_time(secs: i64, kind: TemporalKind) -> i64 {
    match kind {
        TemporalKind::Date => day_start(secs) as i64,
        _ => secs,
    }
}

/// Whether an axis shows points in time by offsets that can be written.
pub open spec fn is_plain_kind(kind: TemporalKind) -> bool {
    match kind {
        TemporalKind::DateTimeTz(offset) => is_plain_offset(offset),
        _ => true,
    }
}

proof fn lemma_first_some_is_one<T>(values: Seq<Option<T>>)
    ensures
        first_some(values) is Some ==> exists|i: int|
            0 <= i < values.len() && #[trigger] values[i] == first_some(values),
    decreases values.len(),
{
    if values.len() > 0 {
        if values[0] is None {
            lemma_first_some_is_one(values.skip(1));
            if first_some(values) is Some {
                let i = choose|i: int|
                    0 <= i < values.skip(1).len() && #[trigger] values.skip(1)[i] == first_some(
                        values.skip(1),
                    );
                assert(values[i + 1] == first_some(values));
            }
        } else {
            assert(values[0] == first_some(values));
        }
    }
}

proof fn lemma_first_some_none<T>(values: Seq<Option<T>>)
    requires
        forall|i: int| 0 <= i < values.len() ==> #[trigger] values[i] is None,
    ensures
        first_some(values) is None,
    decreases values.len(),
{
    if values.len() > 0 {
        assert(values[0] is None);
        assert forall|i: int| 0 <= i < values.skip(1).len() implies #[trigger] values.skip(1)[i]
            is None by {
            assert(values.skip(1)[i] == values[i + 1]);
        }
        lemma_first_some_none(values.skip(1));
    }
}

/// A point in time as an axis shows it: nothing where there is none, or none that can
/// be shown. Where the year has four digits, the label reads as the point in time that it
/// shows, in the way in which it is written.
pub fn format_temporal_tick(seconds: Option<i64>, kind: TemporalKind) -> (r: String)
    ensures
        r@ == tick_text(seconds, kind),
        seconds matches Some(secs) ==> is_plain_time(secs) && is_plain_kind(kind) ==> temporal(r@)
            == Some((kind, shown_time(secs, kind))),
{
    let written = match seconds {
        None => None,
        Some(secs) => match kind {
            TemporalKind::Date => write_utc(secs, DATE_FORMAT),
            TemporalKind::DateTime => write_utc(secs, DATE_TIME_FORMAT),
            TemporalKind::DateTimeTz(offset) => write_zoned(offset, secs, ZONED_FORMAT),
        },
    };
    match written {
        Some(s) => {
            proof {
                let zoned = zoned_formats().map_values(|f: Seq<char>| zoned_read(s@, f));
                let naive = naive_formats().map_values(|f: Seq<char>| naive_read(s@, f));
                assert(zoned[0] == zoned_read(s@, ZONED_FORMAT@));
                assert(naive[0] == naive_read(s@, DATE_TIME_FORMAT@));
                if has_no_zone(s@) {
                    assert forall|i: int| 0 <= i < zoned.len() implies #[trigger] zoned[i] is None by {
                        assert(zoned[i] == zoned_read(s@, zoned_formats()[i]));
                    }
                    lemma_first_some_none(zoned);
                }
                if has_no_time(s@) {
                    assert forall|i: int| 0 <= i < naive.len() implies #[trigger] naive[i] is None by {
                        assert(naive[i] == naive_read(s@, naive_formats()[i]));
                    }
                    lemma_first_some_none(naive);
                }
            }
            s
        },
        None => String::new(),
    }
}

/// How many characters a label of the axis is taken to have: as many as the sample,
/// but at least as many as a day.
pub fn temporal_label_chars(sample: &str) -> (r: usize)
    ensures
        r == (if sample@.len() < 10 {
            10
        } else {
            sample@.len() as usize
        }),
{
    let n: usize = text::chars_of(sample).len();
    if n < 10 {
        10
    } else {
        n
    }
}

/// What is read with an offset counts more than what is read without, and that more
/// than a day.
pub proof fn law_most_specific_wins(
    zoned: Seq<Option<(i32, i64)>>,
    naive: Seq<Option<i64>>,
    date: Option<i64>,
)
    ensures
        first_some(zoned) matches Some(p) ==> temporal_value(zoned, naive, date) == Some(
            (TemporalKind::DateTimeTz(p.0), p.1),
        ),
        first_some(zoned) is None && first_some(naive) is Some ==> temporal_value(
            zoned,
            naive,
            date,
        ) == Some((TemporalKind::DateTime, first_some(naive)->0)),
        temporal_value(zoned, naive, date) is None <==> first_some(zoned) is None && first_some(
            naive,
        ) is None && date is None,
{
}

/// The forms in which points in time are read: with an offset, and then without, each with a
/// space or a `T` between day and time; days alone are read last.
pub proof fn law_forms_of_times()
    ensures
        zoned_formats().len() == 6,
        zoned_formats()[0] == "%Y-%m-%d %H:%M:%S%:z"@,
        zoned_formats()[1] == "%Y-%m-%dT%H:%M:%S%:z"@,
        zoned_formats()[2] == "%Y-%m-%d %H:%M:%S%z"@,
        zoned_formats()[3] == "%Y-%m-%dT%H:%M:%S%z"@,
        zoned_formats()[4] == "%Y-%m-%d %H:%M:%S%.f%:z"@,
        zoned_formats()[5] == "%Y-%m-%dT%H:%M:%S%.f%:z"@,
        naive_formats().len() == 6,
        naive_formats()[0] == "%Y-%m-%d %H:%M:%S"@,
        naive_formats()[1] == "%Y-%m-%dT%H:%M:%S"@,
        naive_formats()[2] == "%Y-%m-%d %H:%M:%S%.f"@,
        naive_formats()[3] == "%Y-%m-%dT%H:%M:%S%.f"@,
        naive_formats()[4] == "%Y-%m-%d %H:%M"@,
        naive_formats()[5] == "%Y-%m-%dT%H:%M"@,
        DATE_FORMAT@ == "%Y-%m-%d"@,
        DATE_TIME_FORMAT@ == "%Y-%m-%d %H:%M:%S"@,
        ZONED_FORMAT@ == "%Y-%m-%d %H:%M:%S%:z"@,
{
}

/// The first reading that succeeds counts.
pub proof fn law_first_reading<T>(values: Seq<Option<T>>, i: int)
    ensures
        0 <= i < values.len() && values[i] is Some && (forall|j: int|
            0 <= j < i ==> #[trigger] values[j] is None) ==> first_some(values) == values[i],
        (forall|j: int| 0 <= j < values.len() ==> #[trigger] values[j] is None) ==> first_some(
            values,
        ) is None,
    decreases values.len(),
{
    if values.len() > 0 && values[0] is None {
        let t = values.skip(1);
        law_first_reading(t, i - 1);
        if 0 <= i < values.len() && values[i] is Some && (forall|j: int|
            0 <= j < i ==> #[trigger] values[j] is None) {
            assert(t[i - 1] == values[i]);
            assert forall|j: int| 0 <= j < i - 1 implies #[trigger] t[j] is None by {
                assert(t[j] == values[j + 1]);
            }
        }
        if forall|j: int| 0 <= j < values.len() ==> #[trigger] values[j] is None {
            assert forall|j: int| 0 <= j < t.len() implies #[trigger] t[j] is None by {
                assert(t[j] == values[j + 1]);
            }
        }
    }
}

/// What a text reads as is what its readings in these forms give: with an offset first, then
/// without, then as a day.
pub proof fn law_readings_of_a_text(s: Seq<char>, i: int)
    ensures
        0 <= i < 6 && (forall|j: int|
            0 <= j < i ==> zoned_read(s, #[trigger] zoned_formats()[j]) is None) ==> (zoned_read(
            s,
            zoned_formats()[i],
        ) matches Some(p) ==> temporal(s) == Some((TemporalKind::DateTimeTz(p.0), p.1))),
        has_no_zone(s) && 0 <= i < 6 && naive_read(s, naive_formats()[i]) is Some && (forall|j: int|
            0 <= j < i ==> naive_read(s, #[trigger] naive_formats()[j]) is None) ==> temporal(s)
            == Some((TemporalKind::DateTime, naive_read(s, naive_formats()[i])->0)),
        has_no_zone(s) && has_no_time(s) ==> match date_read(s, "%Y-%m-%d"@) {
            Some(secs) => temporal(s) == Some((TemporalKind::Date, secs)),
            None => temporal(s) is None,
        },
{
    let zoned = zoned_formats().map_values(|f: Seq<char>| zoned_read(s, f));
    let naive = naive_formats().map_values(|f: Seq<char>| naive_read(s, f));
    assert(forall|j: int| 0 <= j < 6 ==> zoned[j] == zoned_read(s, #[trigger] zoned_formats()[j]));
    assert(forall|j: int| 0 <= j < 6 ==> naive[j] == naive_read(s, #[trigger] naive_formats()[j]));
    law_first_reading(zoned, i);
    law_first_reading(naive, i);
    if 0 <= i < 6 {
        assert(zoned[i] == zoned_read(s, zoned_formats()[i]));
        assert(naive[i] == naive_read(s, naive_formats()[i]));
    }
    if 0 <= i < 6 && (forall|j: int|
        0 <= j < i ==> zoned_read(s, #[trigger] zoned_formats()[j]) is None) {
        assert forall|j: int| 0 <= j < i implies #[trigger] zoned[j] is None by {
            assert(zoned_read(s, zoned_formats()[j]) is None);
        }
    }
    if has_no_zone(s) {
        assert forall|j: int| 0 <= j < zoned.len() implies #[trigger] zoned[j] is None by {
            assert(zoned_read(s, zoned_formats()[j]) is None);
        }
    }
    if 0 <= i < 6 && (forall|j: int|
        0 <= j < i ==> naive_read(s, #[trigger] naive_formats()[j]) is None) {
        assert forall|j: int| 0 <= j < i implies #[trigger] naive[j] is None by {
            assert(naive_read(s, naive_formats()[j]) is None);
        }
    }
    if has_no_time(s) {
        assert forall|j: int| 0 <= j < naive.len() implies #[trigger] naive[j] is None by {
            assert(naive_read(s, naive_formats()[j]) is None);
        }
    }
}

/// What a label of a point in time shows: its day, its day and time, or both at its own
/// offset; nothing where it cannot be written.
pub proof fn law_labels_of_times(secs: i64, offset: i32, kind: TemporalKind)
    ensures
        utc_written(secs, "%Y-%m-%d"@) matches Some(s) ==> tick_text(
            Some(secs),
            TemporalKind::Date,
        ) == s,
        utc_written(secs, "%Y-%m-%d %H:%M:%S"@) matches Some(s) ==> tick_text(
            Some(secs),
            TemporalKind::DateTime,
        ) == s,
        zoned_written(offset, secs, "%Y-%m-%d %H:%M:%S%:z"@) matches Some(s) ==> tick_text(
            Some(secs),
            TemporalKind::DateTimeTz(offset),
        ) == s,
        utc_written(secs, "%Y-%m-%d"@) is None ==> tick_text(Some(secs), TemporalKind::Date).len()
            == 0,
        tick_text(None, kind).len() == 0,
        shown_time(secs, TemporalKind::DateTime) == secs,
        shown_time(secs, TemporalKind::DateTimeTz(offset)) == secs,
        day_start(secs) <= secs < day_start(secs) + 86400,
        day_start(secs) % 86400 == 0,
{
}

} // verus!
