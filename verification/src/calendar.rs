//! Points in time as text, written and read by the `chrono` crate.

use vstd::prelude::*;

use crate::text;

verus! {

/// A point in time as RFC 3339 writes it, in UTC: whole seconds since 1970 and
/// nanoseconds. None where it lies outside the years that `chrono` knows.
pub uninterp spec fn rfc3339_utc(secs: i64, nanos: u32) -> Option<Seq<char>>;

/// `chrono::DateTime::<Utc>::from_timestamp` and `to_rfc3339`: the text depends on
/// the point in time alone.
#[verifier::external_body]
pub(crate) fn rfc3339_text(secs: i64, nanos: u32) -> (r: Option<String>)
    ensures
        text::opt_text(r) == rfc3339_utc(secs, nanos),
{
    chrono::DateTime::<chrono::Utc>::from_timestamp(secs, nanos).map(|t| t.to_rfc3339())
}

} // verus!
