//! RFC 3339 rendering of a timestamp with an explicit UTC offset.
//!
//! The rendering itself is delegated to chrono; what it returns for given
//! seconds and offset is a fixed function of those two numbers, named by
//! `rfc3339_of`. The offset is applied as stored with the commit, never the
//! local zone's, and chrono keeps the explicit offset designator in the
//! output.

use vstd::prelude::*;

verus! {

/// What chrono renders for a POSIX timestamp and a UTC offset in minutes:
/// `None` exactly when the seconds lie outside chrono's representable range,
/// otherwise the RFC 3339 string with the explicit offset suffix.
pub uninterp spec fn rfc3339_of(seconds: int, offset_minutes: int) -> Option<Seq<char>>;

/// Relies on chrono's `DateTime::from_timestamp_secs` (None exactly on an
/// out-of-range timestamp), `FixedOffset::east_opt` (Some for any offset
/// under a day), `with_timezone` and `to_rfc3339`: together they render the
/// instant with the given offset, and the result depends on the two numbers
/// alone.
#[verifier::external_body]
pub(crate) fn format_rfc3339(seconds: i64, offset_minutes: i32) -> (r: Option<String>)
    requires
        -1440 < offset_minutes < 1440,
    ensures
        match (r, rfc3339_of(seconds as int, offset_minutes as int)) {
            (Some(s), Some(m)) => s@ == m,
            (None, None) => true,
            _ => false,
        },
{
    let offset = chrono::FixedOffset::east_opt(offset_minutes * 60)?;
    let utc = chrono::DateTime::from_timestamp_secs(seconds)?;
    Some(utc.with_timezone(&offset).to_rfc3339())
}

} // verus!
