//! Ranges of axes, bins of histograms, and the order of points on a line.

use vstd::prelude::*;

use crate::chart::number;
use crate::chart::number::{
    extremes, next_positive_down, next_positive_up, positive, rank_of, GREATEST_BITS,
    LEAST_POSITIVE_BITS, ZERO_BITS,
};
use crate::error::{ErrorCode, McpError};
use crate::text;

verus! {

/// Where bars begin on an axis: at zero, where it is on the axis, else at the end of
/// the axis that is nearer to it.
pub fn linear_bar_baseline(lo: u64, hi: u64) -> (r: u64)
    ensures
        r == (if number::rank(lo) <= 0 && number::rank(hi) >= 0 {
            ZERO_BITS
        } else if number::rank(lo) > 0 {
            lo
        } else {
            hi
        }),
{
    let low: i64 = rank_of(lo);
    let high: i64 = rank_of(hi);
    if low <= 0 && high >= 0 {
        ZERO_BITS
    } else if low > 0 {
        lo
    } else {
        hi
    }
}

fn refused(message: &str) -> (r: McpError)
    ensures
        r.says(ErrorCode::InvalidArgument, message@),
{
    McpError::new(ErrorCode::InvalidArgument, message)
}

/// Whether all numbers are finite and above zero.
pub open spec fn all_positive(values: Seq<u64>) -> bool {
    forall|i: int| 0 <= i < values.len() ==> number::is_positive(#[trigger] values[i])
}

/// The least and the greatest of the values on a logarithmic axis: there must be some,
/// and all must be above zero.
pub fn log_extremes(values: &Vec<u64>) -> (r: Result<(u64, u64), McpError>)
    ensures
        if values@.len() == 0 {
            r matches Err(e) && e.says(
                ErrorCode::InvalidArgument,
                "A logarithmic measure scale requires at least one value"@,
            )
        } else if !all_positive(values@) {
            r matches Err(e) && e.says(
                ErrorCode::InvalidArgument,
                "A logarithmic measure scale requires every plotted value to be finite and strictly positive"@,
            )
        } else {
            r matches Ok(m) && number::is_least(values@, m.0) && number::is_greatest(values@, m.1)
        },
{
    if values.len() == 0 {
        return Err(refused("A logarithmic measure scale requires at least one value"));
    }
    let mut i: usize = 0;
    while i < values.len()
        invariant
            i <= values@.len(),
            values@.len() > 0,
            forall|j: int| 0 <= j < i ==> number::is_positive(#[trigger] values@[j]),
        decreases values@.len() - i,
    {
        if !positive(values[i]) {
            return Err(
                refused(
                    "A logarithmic measure scale requires every plotted value to be finite and strictly positive",
                ),
            );
        }
        i = i + 1;
    }
    Ok(extremes(values))
}

/// Whether a range can be drawn to by its logarithms; `logs_increase` says whether they
/// are finite and increasing.
pub open spec fn is_log_range(lo: u64, hi: u64, logs_increase: bool) -> bool {
    number::is_positive(lo) && number::is_positive(hi) && lo < hi && logs_increase
}

/// The words for a range that cannot be drawn to by its logarithms.
pub open spec fn log_range_words(name: Seq<char>) -> Seq<char> {
    "The "@ + name
        + " must be finite, strictly positive, strictly increasing, and have a finite representable logarithmic span"@
}

/// Whether a range can be drawn to by its logarithms; `logs_increase` says whether they
/// are finite and increasing.
pub fn validate_log_coordinate_range(name: &str, lo: u64, hi: u64, logs_increase: bool) -> (r: Result<
    (u64, u64),
    McpError,
>)
    ensures
        if is_log_range(lo, hi, logs_increase) {
            r == Ok::<(u64, u64), McpError>((lo, hi))
        } else {
            r matches Err(e) && e.says(ErrorCode::InvalidArgument, log_range_words(name@))
        },
{
    if positive(lo) && positive(hi) && lo < hi && logs_increase {
        Ok((lo, hi))
    } else {
        let message = text::cat3(
            "The ",
            name,
            " must be finite, strictly positive, strictly increasing, and have a finite representable logarithmic span",
        );
        Err(refused(message.as_str()))
    }
}

/// The range of a logarithmic axis that a caller gives: it must hold all values, of
/// which `least` and `greatest` are the extremes.
pub fn explicit_log_range(least: u64, greatest: u64, lo: u64, hi: u64, logs_increase: bool) -> (r:
    Result<(u64, u64), McpError>)
    requires
        number::is_positive(least),
        number::is_positive(greatest),
    ensures
        if !is_log_range(lo, hi, logs_increase) {
            r matches Err(e) && e.says(
                ErrorCode::InvalidArgument,
                log_range_words("explicit logarithmic y_range"@),
            )
        } else if lo > least || hi < greatest {
            r matches Err(e) && e.says(
                ErrorCode::InvalidArgument,
                "An explicit logarithmic y_range must contain every plotted value"@,
            )
        } else {
            r == Ok::<(u64, u64), McpError>((lo, hi))
        },
{
    match validate_log_coordinate_range("explicit logarithmic y_range", lo, hi, logs_increase) {
        Err(e) => Err(e),
        Ok(_) => {
            if lo > least || hi < greatest {
                Err(refused("An explicit logarithmic y_range must contain every plotted value"))
            } else {
                Ok((lo, hi))
            }
        },
    }
}

/// The number just below, where it is above zero, else the same.
pub open spec fn down(bits: u64) -> u64 {
    if bits > LEAST_POSITIVE_BITS {
        (bits - 1) as u64
    } else {
        bits
    }
}

/// The number just above, where it is finite, else the same.
pub open spec fn up(bits: u64) -> u64 {
    if bits < GREATEST_BITS {
        (bits + 1) as u64
    } else {
        bits
    }
}

/// What a range of a logarithmic axis is made from.
#[derive(Debug, Clone, Copy, PartialEq, Eq, Structural)]
pub struct LogRangeDraft {
    /// The least value.
    pub least: u64,
    /// The greatest value.
    pub greatest: u64,
    /// The lower end with its margin, as far as it can be computed.
    pub lo: u64,
    /// The upper end with its margin, as far as it can be computed.
    pub hi: u64,
    /// Whether the lower end should lie below the least value.
    pub pads_below: bool,
    /// Whether the upper end should lie above the greatest value.
    pub pads_above: bool,
}

impl LogRangeDraft {
    /// What holds of every draft: all its numbers are finite and above zero, and the
    /// least value is not above the greatest.
    pub open spec fn wf(self) -> bool {
        &&& number::is_positive(self.least)
        &&& number::is_positive(self.greatest)
        &&& number::is_positive(self.lo)
        &&& number::is_positive(self.hi)
        &&& self.least <= self.greatest
    }
}

/// The range of a logarithmic axis: the draft, widened by as little as can be where
/// rounding made it too narrow.
pub open spec fn automatic_range(d: LogRangeDraft) -> (u64, u64) {
    let lo = if d.lo > d.least || (d.lo == d.least && d.pads_below) {
        down(d.least)
    } else {
        d.lo
    };
    let hi = if d.hi < d.greatest || (d.hi == d.greatest && d.pads_above) {
        up(d.greatest)
    } else {
        d.hi
    };
    if lo < hi {
        (lo, hi)
    } else if lo > LEAST_POSITIVE_BITS {
        (down(lo), hi)
    } else {
        (lo, up(hi))
    }
}

/// The range of a logarithmic axis where the caller gives none.
pub fn automatic_log_range(d: LogRangeDraft) -> (r: (u64, u64))
    requires
        d.wf(),
    ensures
        r == automatic_range(d),
{
    let mut lo: u64 = d.lo;
    if d.lo > d.least || (d.lo == d.least && d.pads_below) {
        lo = match next_positive_down(d.least) {
            Some(b) => b,
            None => d.least,
        };
    }
    let mut hi: u64 = d.hi;
    if d.hi < d.greatest || (d.hi == d.greatest && d.pads_above) {
        hi = match next_positive_up(d.greatest) {
            Some(b) => b,
            None => d.greatest,
        };
    }
    if lo >= hi {
        match next_positive_down(lo) {
            Some(b) => {
                lo = b;
            },
            None => {
                if let Some(b) = next_positive_up(hi) {
                    hi = b;
                }
            },
        }
    }
    (lo, hi)
}

/// However rounding went, the range of a logarithmic axis holds all values, is finite
/// and above zero, and increases.
pub proof fn law_automatic_range_encloses(d: LogRangeDraft)
    requires
        d.wf(),
    ensures
        automatic_range(d).0 <= d.least,
        d.greatest <= automatic_range(d).1,
        automatic_range(d).0 < automatic_range(d).1,
        number::is_positive(automatic_range(d).0),
        number::is_positive(automatic_range(d).1),
{
}

/// Whether `tick` can stand behind `ticks` on a logarithmic axis.
pub open spec fn follows(ticks: Seq<u64>, tick: u64, lo: u64, hi: u64) -> bool {
    &&& number::is_positive(tick)
    &&& lo <= tick <= hi
    &&& ticks.len() == 0 || ticks.last() < tick
}

/// The ticks of a logarithmic axis: those of `candidates`, in order, that lie on the
/// axis and above the one before.
pub open spec fn log_ticks(candidates: Seq<u64>, lo: u64, hi: u64) -> Seq<u64>
    decreases candidates.len(),
{
    if candidates.len() == 0 {
        Seq::empty()
    } else {
        let before = log_ticks(candidates.drop_last(), lo, hi);
        if follows(before, candidates.last(), lo, hi) {
            before.push(candidates.last())
        } else {
            before
        }
    }
}

/// The ticks of a logarithmic axis.
pub fn bounded_log_key_points(candidates: &Vec<u64>, lo: u64, hi: u64) -> (r: Vec<u64>)
    ensures
        r@ == log_ticks(candidates@, lo, hi),
{
    let mut ticks: Vec<u64> = Vec::new();
    let mut i: usize = 0;
    while i < candidates.len()
        invariant
            i <= candidates@.len(),
            ticks@ == log_ticks(candidates@.take(i as int), lo, hi),
        decreases candidates@.len() - i,
    {
        proof {
            assert(candidates@.take(i + 1).drop_last() =~= candidates@.take(i as int));
        }
        let tick = candidates[i];
        let last = ticks.len() == 0 || ticks[ticks.len() - 1] < tick;
        if positive(tick) && lo <= tick && tick <= hi && last {
            ticks.push(tick);
        }
        i = i + 1;
    }
    assert(candidates@.take(candidates@.len() as int) =~= candidates@);
    ticks
}

/// The ticks of a logarithmic axis increase and lie on it; where the ends of the axis
/// are the first and the last candidate, they are the first and the last tick.
pub proof fn law_log_ticks(candidates: Seq<u64>, lo: u64, hi: u64)
    requires
        number::is_positive(lo),
        number::is_positive(hi),
        lo < hi,
        candidates.len() >= 2,
        candidates[0] == lo,
        candidates.last() == hi,
    ensures
        ({
            let ticks = log_ticks(candidates, lo, hi);
            &&& ticks.len() >= 2
            &&& ticks[0] == lo
            &&& ticks.last() == hi
            &&& forall|i: int, j: int| 0 <= i < j < ticks.len() ==> ticks[i] < ticks[j]
            &&& forall|i: int| 0 <= i < ticks.len() ==> lo <= #[trigger] ticks[i] <= hi
        }),
{
    let rest = candidates.drop_last();
    lemma_log_ticks(rest, lo, hi);
    lemma_log_ticks(candidates, lo, hi);
}

proof fn lemma_log_ticks(candidates: Seq<u64>, lo: u64, hi: u64)
    requires
        number::is_positive(lo),
        lo < hi,
        candidates.len() >= 1,
        candidates[0] == lo,
    ensures
        ({
            let ticks = log_ticks(candidates, lo, hi);
            &&& ticks.len() >= 1
            &&& ticks[0] == lo
            &&& forall|i: int, j: int| 0 <= i < j < ticks.len() ==> ticks[i] < ticks[j]
            &&& forall|i: int| 0 <= i < ticks.len() ==> lo <= #[trigger] ticks[i] <= hi
        }),
    decreases candidates.len(),
{
    if candidates.len() > 1 {
        lemma_log_ticks(candidates.drop_last(), lo, hi);
    } else {
        assert(log_ticks(candidates.drop_last(), lo, hi) =~= Seq::empty());
    }
}

/// The bin of a value, whose place is computed as `index`: places outside the
/// histogram fall into its first or last bin.
pub open spec fn bin_of(index: i64, bins: nat) -> int {
    if index < 0 {
        0
    } else if index >= bins {
        bins - 1
    } else {
        index as int
    }
}

/// How many values fall into a bin.
pub open spec fn in_bin(indices: Seq<i64>, bins: nat, bin: int) -> nat
    decreases indices.len(),
{
    if indices.len() == 0 {
        0
    } else {
        in_bin(indices.drop_last(), bins, bin) + if bin_of(indices.last(), bins) == bin {
            1nat
        } else {
            0
        }
    }
}

/// How many bins a histogram has: at least one.
pub fn bin_count(bins: u32) -> (r: usize)
    ensures
        r == (if bins == 0 {
            1
        } else {
            bins as usize
        }),
{
    if bins == 0 {
        1
    } else {
        bins as usize
    }
}

proof fn lemma_in_bin_bound(indices: Seq<i64>, bins: nat, bin: int)
    ensures
        in_bin(indices, bins, bin) <= indices.len(),
    decreases indices.len(),
{
    if indices.len() > 0 {
        lemma_in_bin_bound(indices.drop_last(), bins, bin);
    }
}

/// How many values fall into each bin.
pub fn fill_bins(indices: &Vec<i64>, bins: usize) -> (r: Vec<u64>)
    requires
        bins > 0,
    ensures
        r@.len() == bins,
        forall|b: int| 0 <= b < bins ==> #[trigger] r@[b] == in_bin(indices@, bins as nat, b),
{
    let mut out: Vec<u64> = Vec::new();
    let mut k: usize = 0;
    while k < bins
        invariant
            k <= bins,
            out@.len() == k,
            forall|b: int| 0 <= b < k ==> #[trigger] out@[b] == 0,
        decreases bins - k,
    {
        out.push(0);
        k = k + 1;
    }
    let n: usize = indices.len();
    let mut i: usize = 0;
    assert(indices@.take(0) =~= Seq::<i64>::empty());
    while i < n
        invariant
            i <= n,
            n == indices@.len(),
            bins > 0,
            out@.len() == bins,
            forall|b: int|
                0 <= b < bins ==> #[trigger] out@[b] == in_bin(
                    indices@.take(i as int),
                    bins as nat,
                    b,
                ),
        decreases n - i,
    {
        let ghost seen = indices@.take(i as int);
        proof {
            assert(indices@.take(i + 1).drop_last() =~= seen);
        }
        let index = indices[i];
        let bin: usize = if index < 0 {
            0
        } else if index as u64 >= bins as u64 {
            bins - 1
        } else {
            index as usize
        };
        proof {
            lemma_in_bin_bound(seen, bins as nat, bin as int);
        }
        let ghost before = out@;
        let count: u64 = out[bin] + 1;
        out[bin] = count;
        assert forall|b: int| 0 <= b < bins implies #[trigger] out@[b] == in_bin(
            indices@.take(i + 1),
            bins as nat,
            b,
        ) by {
            assert(before[b] == in_bin(seen, bins as nat, b));
        }
        i = i + 1;
    }
    assert(indices@.take(indices@.len() as int) =~= indices@);
    out
}

/// The sum of the counts of the first `k` bins.
pub open spec fn counted(indices: Seq<i64>, bins: nat, k: nat) -> nat
    decreases k,
{
    if k == 0 {
        0
    } else {
        counted(indices, bins, (k - 1) as nat) + in_bin(indices, bins, k - 1)
    }
}

/// Every value falls into exactly one bin.
pub proof fn law_every_value_is_counted(indices: Seq<i64>, bins: nat)
    requires
        bins > 0,
    ensures
        counted(indices, bins, bins) == indices.len(),
    decreases indices.len(),
{
    if indices.len() == 0 {
        lemma_counted_none(indices, bins, bins);
    } else {
        law_every_value_is_counted(indices.drop_last(), bins);
        lemma_counted_push(indices, bins, bins);
    }
}

proof fn lemma_counted_none(indices: Seq<i64>, bins: nat, k: nat)
    requires
        indices.len() == 0,
    ensures
        counted(indices, bins, k) == 0,
    decreases k,
{
    if k > 0 {
        lemma_counted_none(indices, bins, (k - 1) as nat);
    }
}

proof fn lemma_counted_push(indices: Seq<i64>, bins: nat, k: nat)
    requires
        indices.len() > 0,
        bins > 0,
        k <= bins,
    ensures
        counted(indices, bins, k) == counted(indices.drop_last(), bins, k) + if bin_of(
            indices.last(),
            bins,
        ) < k {
            1nat
        } else {
            0
        },
    decreases k,
{
    if k > 0 {
        lemma_counted_push(indices, bins, (k - 1) as nat);
    }
}

/// Why values have no histogram: their span, or that of a bin, cannot be written.
pub fn check_histogram_span(span_finite: bool, bin_width: u64) -> (r: Result<(), McpError>)
    ensures
        if !span_finite {
            r matches Err(e) && e.says(
                ErrorCode::InvalidArgument,
                "Histogram values do not form a finite representable span"@,
            )
        } else if !number::is_positive(bin_width) {
            r matches Err(e) && e.says(
                ErrorCode::InvalidArgument,
                "Histogram bin width must be finite and strictly positive"@,
            )
        } else {
            r is Ok
        },
{
    if !span_finite {
        Err(refused("Histogram values do not form a finite representable span"))
    } else if !positive(bin_width) {
        Err(refused("Histogram bin width must be finite and strictly positive"))
    } else {
        Ok(())
    }
}

/// Whether the point at `i` comes before that at `j` on a line: by its key, and among
/// equal keys by its place.
pub open spec fn comes_before(keys: Seq<i64>, i: usize, j: usize) -> bool {
    keys[i as int] < keys[j as int] || (keys[i as int] == keys[j as int] && i < j)
}

/// Whether `order` holds the places from `a` to `b`, each once, in the order of their
/// keys.
pub open spec fn is_order(keys: Seq<i64>, order: Seq<usize>, a: int, b: int) -> bool {
    &&& order.len() == b - a
    &&& forall|x: int| 0 <= x < order.len() ==> a <= #[trigger] order[x] < b
    &&& forall|x: int, y: int|
        0 <= x < y < order.len() ==> comes_before(keys, #[trigger] order[x], #[trigger] order[y])
}

fn merge(keys: &Vec<i64>, left: &Vec<usize>, right: &Vec<usize>, a: usize, m: usize, b: usize) -> (r:
    Vec<usize>)
    requires
        a <= m <= b <= keys@.len(),
        is_order(keys@, left@, a as int, m as int),
        is_order(keys@, right@, m as int, b as int),
    ensures
        is_order(keys@, r@, a as int, b as int),
{
    let mut out: Vec<usize> = Vec::new();
    let mut i: usize = 0;
    let mut j: usize = 0;
    while i < left.len() || j < right.len()
        invariant
            a <= m <= b <= keys@.len(),
            is_order(keys@, left@, a as int, m as int),
            is_order(keys@, right@, m as int, b as int),
            i <= left@.len(),
            j <= right@.len(),
            out@.len() == i + j,
            forall|x: int| 0 <= x < out@.len() ==> a <= #[trigger] out@[x] < b,
            forall|x: int, y: int|
                0 <= x < y < out@.len() ==> comes_before(
                    keys@,
                    #[trigger] out@[x],
                    #[trigger] out@[y],
                ),
            forall|x: int, y: int|
                0 <= x < out@.len() && i <= y < left@.len() ==> comes_before(
                    keys@,
                    #[trigger] out@[x],
                    #[trigger] left@[y],
                ),
            forall|x: int, y: int|
                0 <= x < out@.len() && j <= y < right@.len() ==> comes_before(
                    keys@,
                    #[trigger] out@[x],
                    #[trigger] right@[y],
                ),
        decreases left@.len() - i + right@.len() - j,
    {
        let from_left = if i == left.len() {
            false
        } else if j == right.len() {
            true
        } else {
            keys[left[i]] <= keys[right[j]]
        };
        let ghost before = out@;
        if from_left {
            let place = left[i];
            proof {
                assert forall|y: int| j <= y < right@.len() implies comes_before(
                    keys@,
                    place,
                    #[trigger] right@[y],
                ) by {
                    assert(comes_before(keys@, place, right@[j as int]));
                    if y > j {
                        assert(comes_before(keys@, right@[j as int], right@[y]));
                    }
                }
            }
            out.push(place);
            i = i + 1;
        } else {
            let place = right[j];
            proof {
                assert forall|y: int| i <= y < left@.len() implies comes_before(
                    keys@,
                    place,
                    #[trigger] left@[y],
                ) by {
                    assert(comes_before(keys@, place, left@[i as int]));
                    if y > i {
                        assert(comes_before(keys@, left@[i as int], left@[y]));
                    }
                }
            }
            out.push(place);
            j = j + 1;
        }
        assert forall|x: int, y: int| 0 <= x < y < out@.len() implies comes_before(
            keys@,
            #[trigger] out@[x],
            #[trigger] out@[y],
        ) by {
            assert(out@[x] == before[x]);
            if y < before.len() {
                assert(out@[y] == before[y]);
            }
        }
    }
    out
}

fn order_from(keys: &Vec<i64>, a: usize, b: usize) -> (r: Vec<usize>)
    requires
        a <= b <= keys@.len(),
    ensures
        is_order(keys@, r@, a as int, b as int),
    decreases b - a,
{
    let mut out: Vec<usize> = Vec::new();
    if a == b {
        return out;
    }
    if b - a == 1 {
        out.push(a);
        return out;
    }
    let m: usize = a + (b - a) / 2;
    let left = order_from(keys, a, m);
    let right = order_from(keys, m, b);
    merge(keys, &left, &right, a, m, b)
}

/// The places of points in the order in which a line joins them: by their keys, and
/// among equal keys in the order in which they came.
pub fn line_order(keys: &Vec<i64>) -> (r: Vec<usize>)
    ensures
        is_order(keys@, r@, 0, keys@.len() as int),
{
    order_from(keys, 0, keys.len())
}

/// An order holds every place exactly once.
pub proof fn law_order_is_complete(keys: Seq<i64>, order: Seq<usize>)
    requires
        is_order(keys, order, 0, keys.len() as int),
    ensures
        forall|x: int, y: int|
            0 <= x < order.len() && 0 <= y < order.len() && x != y ==> #[trigger] order[x]
                != #[trigger] order[y],
        forall|p: usize| p < keys.len() ==> #[trigger] order.contains(p),
{
    assert forall|x: int, y: int|
        0 <= x < order.len() && 0 <= y < order.len() && x != y implies #[trigger] order[x]
        != #[trigger] order[y] by {
        if x < y {
            assert(comes_before(keys, order[x], order[y]));
        } else {
            assert(comes_before(keys, order[y], order[x]));
        }
    }
    assert(order.no_duplicates());
    let n = keys.len() as int;
    let places = order.map_values(|p: usize| p as int);
    assert(places.no_duplicates());
    let range = vstd::set_lib::set_int_range(0, n);
    vstd::set_lib::lemma_int_range(0, n);
    places.unique_seq_to_set();
    assert(places.to_set().subset_of(range)) by {
        assert forall|p: int| places.to_set().contains(p) implies range.contains(p) by {
            let x = choose|x: int| 0 <= x < places.len() && places[x] == p;
            assert(places[x] == order[x] as int);
        }
    }
    vstd::set_lib::lemma_subset_equality(places.to_set(), range);
    assert forall|p: usize| p < keys.len() implies #[trigger] order.contains(p) by {
        assert(range.contains(p as int));
        assert(places.to_set().contains(p as int));
        let x = choose|x: int| 0 <= x < places.len() && places[x] == p as int;
        assert(order[x] == p);
    }
}

/// A logarithmic range is two positive numbers, the lower first, whose logarithms increase;
/// every other is refused in words that name it.
pub proof fn law_log_ranges(lo: u64, hi: u64, logs_increase: bool, name: Seq<char>)
    ensures
        is_log_range(lo, hi, logs_increase) <==> number::is_positive(lo) && number::is_positive(hi)
            && lo < hi && logs_increase,
        log_range_words(name) == "The "@ + name
            + " must be finite, strictly positive, strictly increasing, and have a finite representable logarithmic span"@,
{
}

/// Values are fit for a logarithmic measure if and only if each of them is positive.
pub proof fn law_all_positive(values: Seq<u64>, v: u64)
    ensures
        all_positive(values) && values.contains(v) ==> 1 <= v <= 0x7fef_ffff_ffff_ffff,
        all_positive(values) && 1 <= v <= 0x7fef_ffff_ffff_ffff ==> all_positive(values.push(v)),
        v == 0 || v > 0x7fef_ffff_ffff_ffff ==> !all_positive(values.push(v)),
{
    let more = values.push(v);
    assert(more[values.len() as int] == v);
    if all_positive(values) && 1 <= v <= 0x7fef_ffff_ffff_ffff {
        assert forall|i: int| 0 <= i < more.len() implies number::is_positive(
            #[trigger] more[i],
        ) by {
            if i < values.len() {
                assert(more[i] == values[i]);
            }
        }
    }
}

/// An end of the range that lies outside the values, or on the last of them where it need not
/// lie outside, stays as it was drafted; any other is moved to the next number outside.
pub proof fn law_automatic_ends(d: LogRangeDraft)
    requires
        d.wf(),
        d.lo < d.hi,
        d.least < d.greatest,
    ensures
        d.lo < d.least || (d.lo == d.least && !d.pads_below) ==> automatic_range(d).0 == d.lo,
        d.lo > d.least || (d.lo == d.least && d.pads_below) ==> automatic_range(d).0 == (if d.least
            > 1 {
            d.least - 1
        } else {
            1
        }),
        d.hi > d.greatest || (d.hi == d.greatest && !d.pads_above) ==> automatic_range(d).1 == d.hi,
        d.hi < d.greatest || (d.hi == d.greatest && d.pads_above) ==> automatic_range(d).1 == (
        if d.greatest < 0x7fef_ffff_ffff_ffff {
            d.greatest + 1
        } else {
            0x7fef_ffff_ffff_ffff
        }),
{
}

/// A candidate becomes a tick if and only if it is positive, within the range and above all
/// ticks before it.
pub proof fn law_ticks_one_by_one(candidates: Seq<u64>, tick: u64, lo: u64, hi: u64)
    ensures
        log_ticks(Seq::empty(), lo, hi) == Seq::<u64>::empty(),
        ({
            let before = log_ticks(candidates, lo, hi);
            let fits = 1 <= tick <= 0x7fef_ffff_ffff_ffff && lo <= tick <= hi && (before.len() == 0
                || before.last() < tick);
            &&& fits ==> log_ticks(candidates.push(tick), lo, hi) == before.push(tick)
            &&& !fits ==> log_ticks(candidates.push(tick), lo, hi) == before
        }),
{
    assert(candidates.push(tick).drop_last() =~= candidates);
}

/// A value below the first bin counts in the first, one beyond the last in the last, and any
/// other in its own.
pub proof fn law_bins(index: i64, bins: nat)
    requires
        bins > 0,
    ensures
        index < 0 ==> bin_of(index, bins) == 0,
        0 <= index < bins ==> bin_of(index, bins) == index,
        index >= bins ==> bin_of(index, bins) == bins - 1,
        0 <= bin_of(index, bins) < bins,
{
}

/// A bin counts the values that fall into it, one each.
pub proof fn law_values_in_a_bin(indices: Seq<i64>, index: i64, bins: nat, bin: int)
    ensures
        in_bin(Seq::empty(), bins, bin) == 0,
        bin_of(index, bins) == bin ==> in_bin(indices.push(index), bins, bin) == in_bin(
            indices,
            bins,
            bin,
        ) + 1,
        bin_of(index, bins) != bin ==> in_bin(indices.push(index), bins, bin) == in_bin(
            indices,
            bins,
            bin,
        ),
{
    assert(indices.push(index).drop_last() =~= indices);
}

/// Points are ordered by their keys, and those with the same key as they came.
pub proof fn law_stable_order(keys: Seq<i64>, order: Seq<usize>, x: int, y: int)
    requires
        is_order(keys, order, 0, keys.len() as int),
        0 <= x < y < order.len(),
    ensures
        order.len() == keys.len(),
        order[x] < keys.len(),
        keys[order[x] as int] <= keys[order[y] as int],
        keys[order[x] as int] == keys[order[y] as int] ==> order[x] < order[y],
{
    assert(comes_before(keys, order[x], order[y]));
}

/// Ends that would meet are parted by one number, below where there is one and else above.
pub proof fn law_ends_that_meet(d: LogRangeDraft)
    requires
        d.wf(),
    ensures
        ({
            let lo = if d.lo < d.least || (d.lo == d.least && !d.pads_below) {
                d.lo as int
            } else if d.least > 1 {
                d.least - 1
            } else {
                1
            };
            let hi = if d.hi > d.greatest || (d.hi == d.greatest && !d.pads_above) {
                d.hi as int
            } else if d.greatest < 0x7fef_ffff_ffff_ffff {
                d.greatest + 1
            } else {
                0x7fef_ffff_ffff_ffff
            };
            &&& lo < hi ==> automatic_range(d).0 == lo && automatic_range(d).1 == hi
            &&& lo >= hi && lo > 1 ==> automatic_range(d).0 == lo - 1 && automatic_range(d).1 == hi
            &&& lo >= hi && lo == 1 ==> automatic_range(d).0 == 1 && automatic_range(d).1 == hi + 1
        }),
{
}

} // verus!
