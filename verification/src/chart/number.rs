//! The order of finite floating-point numbers, told by their bits.

use vstd::prelude::*;

use crate::engine::cells;

verus! {

/// The bits of zero.
pub const ZERO_BITS: u64 = 0;

/// The bits of one.
pub const ONE_BITS: u64 = 0x3ff0_0000_0000_0000;

/// The bits of the least number above zero.
pub const LEAST_POSITIVE_BITS: u64 = 1;

/// The bits of the greatest finite number.
pub const GREATEST_BITS: u64 = 0x7fef_ffff_ffff_ffff;

/// The bit of the sign.
pub const SIGN_BIT: u64 = 0x8000_0000_0000_0000;

/// Where a number stands in the order of finite numbers: zero at zero, whatever its
/// sign.
pub open spec fn rank(bits: u64) -> int {
    if bits < SIGN_BIT {
        bits as int
    } else {
        SIGN_BIT - bits
    }
}

/// Where a number stands in the order of finite numbers.
pub fn rank_of(bits: u64) -> (r: i64)
    ensures
        r == rank(bits),
{
    if bits < SIGN_BIT {
        bits as i64
    } else {
        -((bits - SIGN_BIT) as i64)
    }
}

/// Whether a number is finite and above zero.
pub open spec fn is_positive(bits: u64) -> bool {
    LEAST_POSITIVE_BITS <= bits <= GREATEST_BITS
}

/// Whether a number is finite and above zero.
pub fn positive(bits: u64) -> (r: bool)
    ensures
        r == is_positive(bits),
{
    LEAST_POSITIVE_BITS <= bits && bits <= GREATEST_BITS
}

/// The finite numbers above zero are those whose rank is above that of zero, and their
/// order is that of their bits.
pub proof fn law_positive_numbers(a: u64, b: u64)
    ensures
        is_positive(a) <==> cells::is_finite_bits(a) && rank(a) > rank(ZERO_BITS),
        is_positive(a) && is_positive(b) ==> (a < b <==> rank(a) < rank(b)),
{
}

/// The number just below a number above zero, where that is above zero too.
pub fn next_positive_down(bits: u64) -> (r: Option<u64>)
    requires
        is_positive(bits),
    ensures
        match r {
            Some(b) => is_positive(b) && b == bits - 1,
            None => bits == LEAST_POSITIVE_BITS,
        },
{
    if bits > LEAST_POSITIVE_BITS {
        Some(bits - 1)
    } else {
        None
    }
}

/// The number just above a number above zero, where that is finite.
pub fn next_positive_up(bits: u64) -> (r: Option<u64>)
    requires
        is_positive(bits),
    ensures
        match r {
            Some(b) => is_positive(b) && b == bits + 1,
            None => bits == GREATEST_BITS,
        },
{
    if bits < GREATEST_BITS {
        Some(bits + 1)
    } else {
        None
    }
}

/// Whether `m` is a least number among `values`.
pub open spec fn is_least(values: Seq<u64>, m: u64) -> bool {
    &&& values.contains(m)
    &&& forall|i: int| 0 <= i < values.len() ==> rank(m) <= rank(#[trigger] values[i])
}

/// Whether `m` is a greatest number among `values`.
pub open spec fn is_greatest(values: Seq<u64>, m: u64) -> bool {
    &&& values.contains(m)
    &&& forall|i: int| 0 <= i < values.len() ==> rank(#[trigger] values[i]) <= rank(m)
}

/// The least and the greatest of some finite numbers.
pub fn extremes(values: &Vec<u64>) -> (r: (u64, u64))
    requires
        values@.len() > 0,
    ensures
        is_least(values@, r.0),
        is_greatest(values@, r.1),
{
    let mut least: u64 = values[0];
    let mut greatest: u64 = values[0];
    let mut i: usize = 1;
    assert(values@[0] == least);
    while i < values.len()
        invariant
            1 <= i <= values@.len(),
            values@.contains(least),
            values@.contains(greatest),
            forall|j: int| 0 <= j < i ==> rank(least) <= rank(#[trigger] values@[j]),
            forall|j: int| 0 <= j < i ==> rank(#[trigger] values@[j]) <= rank(greatest),
        decreases values@.len() - i,
    {
        let value = values[i];
        assert(values@[i as int] == value);
        if rank_of(value) < rank_of(least) {
            least = value;
        }
        if rank_of(value) > rank_of(greatest) {
            greatest = value;
        }
        i = i + 1;
    }
    (least, greatest)
}

/// The rank of a number orders the bits of numbers as their values are ordered: above zero
/// by their bits, below zero the other way round, and both zeros alike.
pub proof fn law_ranks(a: u64, b: u64)
    ensures
        a < 0x8000_0000_0000_0000 ==> rank(a) == a,
        a >= 0x8000_0000_0000_0000 ==> rank(a) == 0x8000_0000_0000_0000 - a,
        a < 0x8000_0000_0000_0000 && b < 0x8000_0000_0000_0000 ==> (rank(a) < rank(b) <==> a < b),
        a > 0x8000_0000_0000_0000 && b > 0x8000_0000_0000_0000 ==> (rank(a) < rank(b) <==> a > b),
        a > 0x8000_0000_0000_0000 && b < 0x8000_0000_0000_0000 ==> rank(a) < rank(b),
        rank(0x8000_0000_0000_0000) == rank(0),
        is_positive(a) <==> 1 <= a <= 0x7fef_ffff_ffff_ffff,
{
}

/// The least and the greatest of some numbers are among them, and none is below or above.
pub proof fn law_extremes(values: Seq<u64>, m: u64, v: u64)
    requires
        values.contains(v),
    ensures
        is_least(values, m) ==> values.contains(m) && rank(m) <= rank(v),
        is_greatest(values, m) ==> values.contains(m) && rank(v) <= rank(m),
{
    let i = choose|i: int| 0 <= i < values.len() && values[i] == v;
    assert(values[i] == v);
}

} // verus!
