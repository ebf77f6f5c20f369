//! Points in time as text.

use vstd::prelude::*;

verus! {

/// The RFC 3339 text of the point in time that lies `secs` seconds and
/// `nanos` nanoseconds after the start of 1970 in UTC, if `chrono` can
/// hold that point.
pub uninterp spec fn rfc3339_text(secs: int, nanos: int) -> Option<Seq<char>>;

/// `DateTime::from_timestamp`, then `DateTime::to_rfc3339`: a point in time
/// out of `chrono`'s range, or nanoseconds that fit no second, give
/// nothing; any other point has one text.
#[verifier::external_body]
pub(crate) fn timestamp_text(secs: i64, nanos: u32) -> (r: Option<String>)
    ensures
        match r {
            Some(text) => rfc3339_text(secs as int, nanos as int) == Some(text@),
            None => rfc3339_text(secs as int, nanos as int) is None,
        },
{
    match chrono::DateTime::<chrono::Utc>::from_timestamp(secs, nanos) {
        Some(time) => Some(time.to_rfc3339()),
        None => None,
    }
}

} // verus!
