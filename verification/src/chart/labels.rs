//! Labels of axes, and how many of them fit.

use vstd::prelude::*;

use crate::text;

verus! {

/// Where the label of a point is drawn, in pixels to the right of the point and down from
/// it: always 6 to the right and 4 above, whatever else is drawn there.
pub fn point_label_offset() -> (r: (i32, i32))
    ensures
        r.0 == 6,
        r.1 == -4,
{
    (6, -4)
}

/// Whether a text is an offset from UTC, written `+HH:MM` or `-HH:MM`.
pub open spec fn is_offset(s: Seq<char>) -> bool {
    &&& s.len() == 6
    &&& s[0] == '+' || s[0] == '-'
    &&& text::is_digit(s[1]) && text::is_digit(s[2])
    &&& s[3] == ':'
    &&& text::is_digit(s[4]) && text::is_digit(s[5])
}

/// Where the sign of an offset may stand in a label: the last plus; else the last
/// minus, where a digit stands before it and it is too far behind to part a day.
pub open spec fn offset_start(label: Seq<char>) -> Option<int> {
    match text::last_at(label, seq!['+'], label.len()) {
        Some(i) => Some(i),
        None => match text::last_at(label, seq!['-'], label.len()) {
            Some(i) => if i > 0 && text::is_digit(label[i - 1]) && text::byte_len(label.take(i))
                > 10 {
                Some(i)
            } else {
                None
            },
            None => None,
        },
    }
}

/// The offset from UTC that a label ends with.
pub open spec fn offset_of(label: Seq<char>) -> Option<Seq<char>> {
    match offset_start(label) {
        Some(i) => if is_offset(label.skip(i)) {
            Some(label.skip(i))
        } else {
            None
        },
        None => None,
    }
}

/// The offset from UTC that all labels end with.
pub open spec fn shared_offset(labels: Seq<Seq<char>>) -> Option<Seq<char>> {
    if labels.len() == 0 {
        None
    } else {
        match offset_of(labels[0]) {
            Some(offset) => if forall|i: int|
                0 <= i < labels.len() ==> text::has_tail(#[trigger] labels[i], offset) {
                Some(offset)
            } else {
                None
            },
            None => None,
        }
    }
}

/// A label without the offset that it ends with.
pub open spec fn without_offset(label: Seq<char>, offset: Seq<char>) -> Seq<char> {
    text::trimmed(label.take(label.len() - offset.len()))
}

/// The labels without the offset that all of them end with.
pub open spec fn stripped_labels(labels: Seq<Seq<char>>) -> Seq<Seq<char>> {
    match shared_offset(labels) {
        Some(offset) => if labels.len() > 1 {
            labels.map_values(|l: Seq<char>| without_offset(l, offset))
        } else {
            labels
        },
        None => labels,
    }
}

fn digit(c: char) -> (r: bool)
    ensures
        r == text::is_digit(c),
{
    '0' <= c && c <= '9'
}

fn offset_start_in(label: &[char]) -> (r: Option<usize>)
    ensures
        match r {
            Some(i) => i < label@.len() && offset_start(label@) == Some(i as int),
            None => offset_start(label@) is None,
        },
{
    let mut plus: Vec<char> = Vec::new();
    plus.push('+');
    let mut minus: Vec<char> = Vec::new();
    minus.push('-');
    assert(plus@ =~= seq!['+']);
    assert(minus@ =~= seq!['-']);
    match text::find_last(label, plus.as_slice()) {
        Some(i) => Some(i),
        None => match text::find_last(label, minus.as_slice()) {
            Some(i) => {
                let head = text::cut(label, 0, i);
                assert(head@ =~= label@.take(i as int));
                if i > 0 && digit(label[i - 1]) && text::byte_count(head.as_str()) > 10 {
                    Some(i)
                } else {
                    None
                }
            },
            None => None,
        },
    }
}

fn offset_in(label: &str) -> (r: Option<String>)
    ensures
        text::opt_text(r) == offset_of(label@),
{
    let chars = text::chars_of(label);
    match offset_start_in(chars.as_slice()) {
        Some(i) => {
            let n: usize = chars.len();
            let ghost tail = label@.skip(i as int);
            if n - i == 6 && (chars[i] == '+' || chars[i] == '-') && digit(chars[i + 1])
                && digit(chars[i + 2]) && chars[i + 3] == ':' && digit(chars[i + 4])
                && digit(chars[i + 5]) {
                assert(tail[0] == chars@[i as int] && tail[1] == chars@[i + 1] && tail[2]
                    == chars@[i + 2] && tail[3] == chars@[i + 3] && tail[4] == chars@[i + 4]
                    && tail[5] == chars@[i + 5]);
                let offset = text::cut(chars.as_slice(), i, n);
                assert(offset@ =~= tail);
                Some(offset)
            } else {
                assert(!is_offset(tail)) by {
                    if is_offset(tail) {
                        assert(tail[0] == chars@[i as int] && tail[1] == chars@[i + 1] && tail[2]
                            == chars@[i + 2] && tail[3] == chars@[i + 3] && tail[4] == chars@[i + 4]
                            && tail[5] == chars@[i + 5]);
                    }
                }
                None
            }
        },
        None => None,
    }
}

/// The offset from UTC that all labels end with.
pub fn shared_tz_suffix(labels: &Vec<String>) -> (r: Option<String>)
    ensures
        text::opt_text(r) == shared_offset(text::texts(labels@)),
{
    let ghost all = text::texts(labels@);
    if labels.len() == 0 {
        return None;
    }
    assert(all[0] == labels@[0]@);
    let offset = match offset_in(labels[0].as_str()) {
        Some(offset) => offset,
        None => {
            return None;
        },
    };
    let mut i: usize = 0;
    while i < labels.len()
        invariant
            i <= labels@.len(),
            labels@.len() > 0,
            all == text::texts(labels@),
            offset_of(all[0]) == Some(offset@),
            forall|j: int| 0 <= j < i ==> text::has_tail(#[trigger] all[j], offset@),
        decreases labels@.len() - i,
    {
        assert(all[i as int] == labels@[i as int]@);
        if !text::ends_with(labels[i].as_str(), offset.as_str()) {
            return None;
        }
        i = i + 1;
    }
    Some(offset)
}

/// The labels without the offset from UTC that all of them end with; one label alone
/// keeps it.
pub fn strip_shared_tz_suffix(labels: &Vec<String>) -> (r: Vec<String>)
    ensures
        text::texts(r@) == stripped_labels(text::texts(labels@)),
{
    let ghost all = text::texts(labels@);
    let offset = if labels.len() <= 1 {
        None
    } else {
        shared_tz_suffix(labels)
    };
    match offset {
        None => {
            let out = labels.clone();
            assert(text::texts(out@) =~= all);
            out
        },
        Some(offset) => {
            let width: usize = text::chars_of(offset.as_str()).len();
            let mut out: Vec<String> = Vec::new();
            let mut i: usize = 0;
            while i < labels.len()
                invariant
                    i <= labels@.len(),
                    all == text::texts(labels@),
                    shared_offset(all) == Some(offset@),
                    width == offset@.len(),
                    out@.len() == i,
                    forall|j: int| 0 <= j < i ==> #[trigger] out@[j]@ == without_offset(
                        labels@[j]@,
                        offset@,
                    ),
                decreases labels@.len() - i,
            {
                assert(all[i as int] == labels@[i as int]@);
                assert(text::has_tail(all[i as int], offset@));
                let chars = text::chars_of(labels[i].as_str());
                let head = text::cut(chars.as_slice(), 0, chars.len() - width);
                assert(head@ =~= labels@[i as int]@.take(labels@[i as int]@.len() - width));
                out.push(text::trim(head.as_str()));
                i = i + 1;
            }
            assert(text::texts(out@) =~= all.map_values(
                |l: Seq<char>| without_offset(l, offset@),
            ));
            out
        },
    }
}

/// How many labels of `chars` characters fit on an axis of `width` pixels, but never
/// less than two.
pub open spec fn ticks_fitting(chars: nat, width: nat) -> nat {
    let pixels = if 7 * chars + 10 > u32::MAX {
        u32::MAX as nat
    } else {
        7 * chars + 10
    };
    let fits = width / pixels;
    if fits < 2 {
        2
    } else {
        fits
    }
}

/// How many labels of `label_chars` characters fit on an axis of `chart_width` pixels.
pub fn tick_count_for_label_width(label_chars: usize, chart_width: u32) -> (r: usize)
    ensures
        r == ticks_fitting(label_chars as nat, chart_width as nat),
{
    let pixels: u32 = if label_chars > 613566755 {
        u32::MAX
    } else {
        label_chars as u32 * 7 + 10
    };
    let fits: usize = (chart_width / pixels) as usize;
    if fits < 2 {
        2
    } else {
        fits
    }
}

/// How many characters the longest label has.
pub open spec fn longest(labels: Seq<Seq<char>>) -> nat
    decreases labels.len(),
{
    if labels.len() == 0 {
        0
    } else {
        let rest = longest(labels.drop_last());
        if labels.last().len() > rest {
            labels.last().len()
        } else {
            rest
        }
    }
}

/// How many labels are drawn: as many as fit, and no more than there are.
pub open spec fn tick_count(labels: Seq<Seq<char>>, width: nat) -> nat {
    let fits = ticks_fitting(longest(labels), width);
    if labels.len() <= 1 || labels.len() <= fits {
        labels.len()
    } else {
        fits
    }
}

/// How many of `labels` are drawn on an axis of `chart_width` pixels.
pub fn auto_tick_count(labels: &Vec<String>, chart_width: u32) -> (r: usize)
    ensures
        r == tick_count(text::texts(labels@), chart_width as nat),
{
    let ghost all = text::texts(labels@);
    if labels.len() <= 1 {
        return labels.len();
    }
    let mut most: usize = 0;
    let mut i: usize = 0;
    while i < labels.len()
        invariant
            i <= labels@.len(),
            all == text::texts(labels@),
            most == longest(all.take(i as int)),
        decreases labels@.len() - i,
    {
        proof {
            assert(all.take(i + 1).drop_last() =~= all.take(i as int));
            assert(all.take(i + 1).last() == labels@[i as int]@);
        }
        let n: usize = text::chars_of(labels[i].as_str()).len();
        if n > most {
            most = n;
        }
        i = i + 1;
    }
    assert(all.take(all.len() as int) =~= all);
    let fits: usize = tick_count_for_label_width(most, chart_width);
    if fits < labels.len() {
        fits
    } else {
        labels.len()
    }
}

/// How many of `count` categories are labeled beside bars that go to the right, in a
/// chart of `height` pixels.
pub open spec fn horizontal_ticks(count: nat, height: nat) -> nat {
    let left = if height > 100 {
        (height - 100) as nat
    } else {
        0
    };
    let fits = if left / 12 < 2 {
        2
    } else {
        left / 12
    };
    if count <= 1 || count <= fits {
        count
    } else {
        fits
    }
}

/// How many of `category_count` categories are labeled beside bars that go to the
/// right.
pub fn horizontal_category_tick_count(category_count: usize, chart_height: u32) -> (r: usize)
    ensures
        r == horizontal_ticks(category_count as nat, chart_height as nat),
{
    if category_count <= 1 {
        return category_count;
    }
    let left: u32 = if chart_height > 100 {
        chart_height - 100
    } else {
        0
    };
    let fits: usize = if left / 12 < 2 {
        2
    } else {
        (left / 12) as usize
    };
    if fits < category_count {
        fits
    } else {
        category_count
    }
}

/// There is never a label too many or, with two labels or more, less than two.
pub proof fn law_tick_counts(labels: Seq<Seq<char>>, count: nat, width: nat)
    ensures
        tick_count(labels, width) <= labels.len(),
        labels.len() >= 2 ==> tick_count(labels, width) >= 2,
        horizontal_ticks(count, width) <= count,
        count >= 2 ==> horizontal_ticks(count, width) >= 2,
{
}

/// With more room there are never fewer labels.
pub proof fn law_more_room_more_labels(labels: Seq<Seq<char>>, narrow: nat, wide: nat)
    requires
        narrow <= wide,
    ensures
        tick_count(labels, narrow) <= tick_count(labels, wide),
{
    let chars = longest(labels);
    let pixels = if 7 * chars + 10 > u32::MAX {
        u32::MAX as nat
    } else {
        7 * chars + 10
    };
    vstd::arithmetic::div_mod::lemma_div_is_ordered(narrow as int, wide as int, pixels as int);
}

/// Stripping keeps the number of labels, and labels that share no offset are kept as
/// they are.
pub proof fn law_stripping_keeps_labels(labels: Seq<Seq<char>>)
    ensures
        stripped_labels(labels).len() == labels.len(),
        shared_offset(labels) is None || labels.len() <= 1 ==> stripped_labels(labels) == labels,
{
}

/// The label of the category at `index`, where there is one.
pub fn category_label(index: Option<usize>, labels: &Vec<String>) -> (r: String)
    ensures
        r@ == (match index {
            Some(i) => if i < labels@.len() {
                labels@[i as int]@
            } else {
                Seq::<char>::empty()
            },
            None => Seq::<char>::empty(),
        }),
{
    match index {
        Some(i) => {
            if i < labels.len() {
                labels[i].clone()
            } else {
                String::new()
            }
        },
        None => String::new(),
    }
}

/// The name of a series in the legend: that of the measure, where the series has none.
pub fn bar_series_name(series_key: &str, y_col: &str) -> (r: String)
    ensures
        r@ == (if series_key@.len() == 0 {
            y_col@
        } else {
            series_key@
        }),
{
    if series_key.is_empty() {
        y_col.to_owned()
    } else {
        series_key.to_owned()
    }
}

/// An offset is a sign, two digits, a colon and two digits.
pub proof fn law_offsets(s: Seq<char>)
    ensures
        is_offset(s) <==> s.len() == 6 && (s[0] == '+' || s[0] == '-') && '0' <= s[1] && s[1]
            <= '9' && '0' <= s[2] && s[2] <= '9' && s[3] == ':' && '0' <= s[4] && s[4] <= '9'
            && '0' <= s[5] && s[5] <= '9',
{
}

/// An offset to the east is found behind any text; one to the west only behind a digit, and
/// where more than a day stands before it, so that no day is taken for an offset.
pub proof fn law_offsets_are_found(body: Seq<char>, offset: Seq<char>)
    requires
        is_offset(offset),
    ensures
        offset[0] == '+' ==> offset_of(body + offset) == Some(offset),
        offset[0] == '-' && !body.contains('+') && body.len() > 0 && text::is_digit(body.last())
            && text::byte_len(body) > 10 ==> offset_of(body + offset) == Some(offset),
        offset[0] == '-' && !body.contains('+') && text::byte_len(body) <= 10 ==> offset_of(
            body + offset,
        ) is None,
{
    let label = body + offset;
    let sign = offset[0];
    let rest = offset.skip(1);
    let at = body.len() as int;
    assert(!rest.contains(sign)) by {
        if rest.contains(sign) {
            let k = choose|k: int| 0 <= k < rest.len() && rest[k] == sign;
            assert(rest[k] == offset[k + 1]);
        }
    }
    assert(label =~= body + seq![sign] + rest);
    text::law_last_character(body, sign, rest, label);
    assert(label.skip(at) =~= offset);
    assert(label.take(at) =~= body);
    if sign == '-' && !body.contains('+') {
        assert(!label.contains('+')) by {
            if label.contains('+') {
                let k = choose|k: int| 0 <= k < label.len() && label[k] == '+';
                if k < at {
                    assert(body[k] == '+');
                } else {
                    assert(offset[k - at] == '+');
                }
            }
        }
        text::law_last_character(Seq::empty(), '+', Seq::empty(), label);
        if body.len() > 0 {
            assert(label[at - 1] == body.last());
        }
    }
}

/// Labels share an offset if and only if the first one has it and all others end with it.
pub proof fn law_shared_offsets(labels: Seq<Seq<char>>, offset: Seq<char>)
    ensures
        labels.len() > 0 ==> (shared_offset(labels) == Some(offset) <==> offset_of(labels[0])
            == Some(offset) && forall|i: int|
            0 <= i < labels.len() ==> text::has_tail(#[trigger] labels[i], offset)),
        labels.len() == 0 ==> shared_offset(labels) is None,
{
}

/// Where several labels share an offset, each loses it, and the white space that is left
/// around it; otherwise no label is changed.
pub proof fn law_stripped_offsets(labels: Seq<Seq<char>>, offset: Seq<char>, i: int)
    requires
        0 <= i < labels.len(),
    ensures
        shared_offset(labels) == Some(offset) && labels.len() > 1 ==> stripped_labels(labels)[i]
            == text::trimmed(labels[i].take(labels[i].len() - offset.len())),
        labels.len() == 1 || shared_offset(labels) is None ==> stripped_labels(labels) == labels,
{
}

/// As many labels fit as the width holds at seven pixels for each character and ten between
/// them, but never fewer than two.
pub proof fn law_fitting_ticks(chars: nat, width: nat)
    requires
        7 * chars + 10 <= u32::MAX,
    ensures
        width / (7 * chars + 10) >= 2 ==> ticks_fitting(chars, width) == width / (7 * chars + 10),
        width / (7 * chars + 10) < 2 ==> ticks_fitting(chars, width) == 2,
{
}

/// The longest label has as many characters as one of the labels, and none has more.
pub proof fn law_longest(labels: Seq<Seq<char>>)
    ensures
        forall|i: int| 0 <= i < labels.len() ==> (#[trigger] labels[i]).len() <= longest(labels),
        labels.len() > 0 ==> exists|i: int|
            0 <= i < labels.len() && (#[trigger] labels[i]).len() == longest(labels),
        labels.len() == 0 ==> longest(labels) == 0,
    decreases labels.len(),
{
    if labels.len() > 0 {
        let t = labels.drop_last();
        law_longest(t);
        assert(forall|i: int| 0 <= i < t.len() ==> t[i] == labels[i]);
        if labels.last().len() > longest(t) {
            assert(labels[labels.len() - 1].len() == longest(labels));
        } else if t.len() > 0 {
            let i = choose|i: int| 0 <= i < t.len() && (#[trigger] t[i]).len() == longest(t);
            assert(labels[i].len() == longest(labels));
        } else {
            assert(labels[0].len() == longest(labels));
        }
    }
}

/// All labels are drawn where they fit, and otherwise as many as fit by the longest; beside a
/// chart twelve pixels are reckoned for each, without the hundred that the rest takes.
pub proof fn law_drawn_labels(labels: Seq<Seq<char>>, width: nat, count: nat, height: nat)
    ensures
        labels.len() <= 1 || labels.len() <= ticks_fitting(longest(labels), width) ==> tick_count(
            labels,
            width,
        ) == labels.len(),
        labels.len() > 1 && labels.len() > ticks_fitting(longest(labels), width) ==> tick_count(
            labels,
            width,
        ) == ticks_fitting(longest(labels), width),
        count <= 2 ==> horizontal_ticks(count, height) == count,
        height >= 124 && count <= (height - 100) / 12 ==> horizontal_ticks(count, height) == count,
        height >= 124 && count > (height - 100) / 12 ==> horizontal_ticks(count, height) == (height
            - 100) / 12,
        height < 124 && count > 2 ==> horizontal_ticks(count, height) == 2,
{
}

/// What is found as an offset is one, and stands at the end of its label; a label without a
/// sign has none.
pub proof fn law_found_offsets(label: Seq<char>)
    ensures
        offset_of(label) matches Some(offset) ==> is_offset(offset) && text::has_tail(label, offset),
        !label.contains('+') && !label.contains('-') ==> offset_of(label) is None,
{
    text::law_last_place(label, seq!['+'], label.len());
    text::law_last_place(label, seq!['-'], label.len());
    if let Some(offset) = offset_of(label) {
        let i = offset_start(label)->0;
        assert(label.subrange(label.len() - offset.len(), label.len() as int) =~= offset);
    }
    if !label.contains('+') {
        text::law_last_character(Seq::empty(), '+', Seq::empty(), label);
    }
    if !label.contains('-') {
        text::law_last_character(Seq::empty(), '-', Seq::empty(), label);
    }
}

/// For labels so long that their width cannot be counted, the greatest width that can be is
/// reckoned.
pub proof fn law_very_long_labels(chars: nat, width: nat)
    requires
        7 * chars + 10 > 4294967295,
    ensures
        width / 4294967295 >= 2 ==> ticks_fitting(chars, width) == width / 4294967295,
        width / 4294967295 < 2 ==> ticks_fitting(chars, width) == 2,
{
}

/// Behind anything but a digit, what looks like an offset to the west is none.
pub proof fn law_offsets_follow_digits(body: Seq<char>, offset: Seq<char>)
    requires
        is_offset(offset),
        offset[0] == '-',
        !body.contains('+'),
        body.len() == 0 || !text::is_digit(body.last()),
    ensures
        offset_of(body + offset) is None,
{
    let label = body + offset;
    let rest = offset.skip(1);
    let at = body.len() as int;
    assert(!rest.contains('-')) by {
        if rest.contains('-') {
            let k = choose|k: int| 0 <= k < rest.len() && rest[k] == '-';
            assert(rest[k] == offset[k + 1]);
        }
    }
    assert(label =~= body + seq!['-'] + rest);
    text::law_last_character(body, '-', rest, label);
    assert(!label.contains('+')) by {
        if label.contains('+') {
            let k = choose|k: int| 0 <= k < label.len() && label[k] == '+';
            if k < at {
                assert(body[k] == '+');
            } else {
                assert(offset[k - at] == '+');
            }
        }
    }
    text::law_last_character(Seq::empty(), '+', Seq::empty(), label);
    if body.len() > 0 {
        assert(label[at - 1] == body.last());
    }
}

} // verus!
