//! Instants and spans of time as whole nanoseconds, the clock, and the
//! text forms of instants.
use vstd::prelude::*;

verus! {

pub const NANOS_PER_SECOND: i128 = 1_000_000_000;

pub const NANOS_PER_HOUR: i128 = 3600 * NANOS_PER_SECOND;

pub const NANOS_PER_DAY: i128 = 86400 * NANOS_PER_SECOND;

/// Nanoseconds since the Unix epoch that a `time::OffsetDateTime` can hold:
/// from -9999-01-01T00:00:00 to 9999-12-31T23:59:59.999999999 UTC.
pub open spec fn is_instant(t: int) -> bool {
    -377705116800 * 1_000_000_000 <= t <= 253402300799 * 1_000_000_000 + 999_999_999
}

/// Nanosecond lengths that a `time::Duration` can hold (whole seconds in an
/// `i64` plus a fraction of a second).
pub open spec fn is_span(d: int) -> bool {
    -9_223_372_036_854_775_808_999_999_999 <= d <= 9_223_372_036_854_775_807_999_999_999
}

/// Whether `t` nanoseconds since the Unix epoch is an instant the `time`
/// crate can hold.
pub fn is_valid_instant(t: i128) -> (b: bool)
    ensures
        b == is_instant(t as int),
{
    -377705116800 * 1_000_000_000 <= t && t <= 253402300799 * 1_000_000_000 + 999_999_999
}

/// `time::OffsetDateTime::now_utc`, as nanoseconds since the Unix epoch.
/// The value depends on when the call is made; only that it is an instant
/// the `time` crate can represent is stated.
#[verifier::external_body]
pub(crate) fn now_utc() -> (t: i128)
    ensures
        is_instant(t as int),
{
    time::OffsetDateTime::now_utc().unix_timestamp_nanos()
}

/// The RFC 3339 text of the instant, as
/// `OffsetDateTime::format(&Rfc3339)` writes it for the UTC date-time at `t`
/// nanoseconds; `None` where there is no such date-time or formatting fails.
pub uninterp spec fn rfc3339_text(t: i128) -> Option<Seq<char>>;

/// The `Display` text of the UTC `OffsetDateTime` at `t` nanoseconds;
/// `None` where there is no such date-time.
pub uninterp spec fn display_text(t: i128) -> Option<Seq<char>>;

/// Formats the UTC date-time at `t` with `time`'s RFC 3339 format
/// description (`OffsetDateTime::from_unix_timestamp_nanos`, then `format`).
#[verifier::external_body]
fn format_rfc3339(t: i128) -> (r: Option<String>)
    ensures
        match r {
            Some(s) => rfc3339_text(t) == Some(s@),
            None => rfc3339_text(t) is None,
        },
{
    time::OffsetDateTime::from_unix_timestamp_nanos(t).ok().and_then(
        |d| d.format(&time::format_description::well_known::Rfc3339).ok(),
    )
}

/// The `Display` text of the UTC date-time at `t`
/// (`OffsetDateTime::from_unix_timestamp_nanos`, then `to_string`). The
/// conversion succeeds for every instant in the `time` crate's range, and
/// `to_string` does not fail.
#[verifier::external_body]
fn format_display(t: i128) -> (r: Option<String>)
    ensures
        match r {
            Some(s) => display_text(t) == Some(s@),
            None => display_text(t) is None,
        },
        is_instant(t as int) ==> r is Some,
{
    time::OffsetDateTime::from_unix_timestamp_nanos(t).ok().map(|d| d.to_string())
}

/// The text under which an instant is shown: its RFC 3339 form, or, where
/// that cannot be written, its `Display` form.
pub open spec fn shown_instant(t: i128) -> Seq<char> {
    match rfc3339_text(t) {
        Some(s) => s,
        None => display_text(t).unwrap(),
    }
}

/// Writes an instant as RFC 3339 text, falling back to the `Display` form.
pub fn instant_text(t: i128) -> (s: String)
    requires
        is_instant(t as int),
    ensures
        s@ == shown_instant(t),
{
    match format_rfc3339(t) {
        Some(s) => s,
        None => {
            let shown = format_display(t);
            shown.unwrap()
        },
    }
}

} // verus!
