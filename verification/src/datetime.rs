//! Timestamp parsing and rendering through `chrono`.
//!
//! Every timestamp the service shows is rendered as UTC ISO-8601 with
//! milliseconds, e.g. `2026-05-26T09:06:25.383Z`.

use vstd::prelude::*;
use crate::models::opt_view;

verus! {

/// `strftime` pattern of the rendered timestamps.
pub const ISO_MILLIS_FORMAT: &'static str = "%Y-%m-%dT%H:%M:%S%.3fZ";

/// Keep's timestamp layout: space separator, fractional seconds, no zone.
pub const SPACE_SEPARATED_FORMAT: &'static str = "%Y-%m-%d %H:%M:%S%.f";

/// ISO-8601 layout with a `T` separator and no zone.
pub const T_SEPARATED_FORMAT: &'static str = "%Y-%m-%dT%H:%M:%S%.f";

/// What `chrono::NaiveDateTime::parse_from_str(text, parse_format)` gives,
/// taken as a UTC instant and rendered with `DateTime::format(render_format)`;
/// `None` when the text does not parse.
pub uninterp spec fn naive_utc_rendering(text: Seq<char>, parse_format: Seq<char>, render_format: Seq<char>) -> Option<Seq<char>>;

/// What `chrono::DateTime::parse_from_rfc3339(text)` gives, converted to UTC
/// and rendered with `DateTime::format(render_format)`; `None` when the text
/// is not RFC 3339.
pub uninterp spec fn rfc3339_utc_rendering(text: Seq<char>, render_format: Seq<char>) -> Option<Seq<char>>;

/// Calls `chrono::NaiveDateTime::parse_from_str`, then `and_utc` and
/// `format(..).to_string()` on success.  The contract names the result
/// ([`naive_utc_rendering`]) and says nothing of the calendar arithmetic.
/// The render format is [`ISO_MILLIS_FORMAT`], whose items are all valid,
/// so rendering cannot fail (an invalid item would make `to_string` panic).
#[verifier::external_body]
fn naive_to_utc_text(text: &str, parse_format: &str, render_format: &str) -> (r: Option<String>)
    requires
        render_format@ == ISO_MILLIS_FORMAT@,
    ensures
        opt_view(r) == naive_utc_rendering(text@, parse_format@, render_format@),
{
    match chrono::NaiveDateTime::parse_from_str(text, parse_format) {
        Ok(n) => Some(n.and_utc().format(render_format).to_string()),
        Err(_) => None,
    }
}

/// Calls `chrono::DateTime::parse_from_rfc3339`, then `with_timezone(&Utc)`
/// and `format(..).to_string()` on success.  The contract names the result
/// ([`rfc3339_utc_rendering`]).  The render format is
/// [`ISO_MILLIS_FORMAT`], whose items are all valid, so rendering cannot
/// fail.
#[verifier::external_body]
fn rfc3339_to_utc_text(text: &str, render_format: &str) -> (r: Option<String>)
    requires
        render_format@ == ISO_MILLIS_FORMAT@,
    ensures
        opt_view(r) == rfc3339_utc_rendering(text@, render_format@),
{
    match chrono::DateTime::parse_from_rfc3339(text) {
        Ok(d) => Some(d.with_timezone(&chrono::Utc).format(render_format).to_string()),
        Err(_) => None,
    }
}

/// What `DateTime::<Utc>::format(render_format).to_string()` gives for the
/// instant `secs` seconds and `nanos` nanoseconds after the Unix epoch.
pub uninterp spec fn utc_rendering(secs: i64, nanos: u32, render_format: Seq<char>) -> Option<Seq<char>>;

/// The current time from `chrono::Utc::now()`, rendered with
/// `format(render_format)`.  The instant depends on the clock and is not
/// stated; the contract says that the text is the rendering of some
/// instant ([`utc_rendering`]).  The render format is
/// [`ISO_MILLIS_FORMAT`], whose items are all valid, so rendering cannot
/// fail.
#[verifier::external_body]
fn current_time_text(render_format: &str) -> (r: String)
    requires
        render_format@ == ISO_MILLIS_FORMAT@,
    ensures
        exists|secs: i64, nanos: u32| utc_rendering(secs, nanos, render_format@) == Some(r@),
{
    chrono::Utc::now().format(render_format).to_string()
}

/// The current time as UTC ISO-8601 with milliseconds: the rendering of
/// some instant.
pub fn now_iso() -> (r: String)
    ensures
        exists|secs: i64, nanos: u32| utc_rendering(secs, nanos, ISO_MILLIS_FORMAT@) == Some(r@),
{
    current_time_text(ISO_MILLIS_FORMAT)
}

/// What [`parse_datetime_to_iso`] returns: the first layout that parses, in
/// the order Keep's space-separated layout, RFC 3339, `T`-separated layout
/// without zone.
pub open spec fn datetime_iso_spec(s: Seq<char>) -> Option<Seq<char>> {
    match naive_utc_rendering(s, SPACE_SEPARATED_FORMAT@, ISO_MILLIS_FORMAT@) {
        Some(t) => Some(t),
        None => match rfc3339_utc_rendering(s, ISO_MILLIS_FORMAT@) {
            Some(t) => Some(t),
            None => naive_utc_rendering(s, T_SEPARATED_FORMAT@, ISO_MILLIS_FORMAT@),
        },
    }
}

/// Parses a timestamp in one of the accepted layouts and renders it as UTC
/// ISO-8601 with milliseconds; `None` when no layout matches.
pub fn parse_datetime_to_iso(s: &str) -> (r: Option<String>)
    ensures
        opt_view(r) == datetime_iso_spec(s@),
{
    if let Some(t) = naive_to_utc_text(s, SPACE_SEPARATED_FORMAT, ISO_MILLIS_FORMAT) {
        return Some(t);
    }
    if let Some(t) = rfc3339_to_utc_text(s, ISO_MILLIS_FORMAT) {
        return Some(t);
    }
    naive_to_utc_text(s, T_SEPARATED_FORMAT, ISO_MILLIS_FORMAT)
}

} // verus!

verus! {

/// A UTC instant: seconds since the Unix epoch and nanoseconds within the
/// second.
#[derive(Debug, Clone, Copy, PartialEq, Eq)]
pub struct UtcInstant {
    pub secs: i64,
    pub nanos: u32,
}

/// `chrono::Utc::now()`, as its `timestamp()` and
/// `timestamp_subsec_nanos()`.  It depends on the clock: nothing is stated
/// of it.
#[verifier::external_body]
pub(crate) fn utc_now() -> UtcInstant {
    let now = chrono::Utc::now();
    UtcInstant { secs: now.timestamp(), nanos: now.timestamp_subsec_nanos() }
}

} // verus!
