//! Instants in the local time zone, video durations, and their text forms.
use chrono::{DateTime, FixedOffset, Local, Utc};
use std::time::Duration;
use vstd::prelude::*;

verus! {

/// Seconds in a day, the unit of the report's windows.
pub const SECONDS_PER_DAY: i64 = 86400;

/// An instant together with the UTC offset that the local time zone had
/// then (what a `chrono::DateTime<Local>` holds): seconds since the Unix
/// epoch, and seconds east of UTC.
#[derive(Clone, Copy, Debug, PartialEq, Eq, Structural)]
pub struct LocalTime {
    pub timestamp: i64,
    pub offset: i32,
}

/// A local time hashes as its instant, the way reels compare dates.
impl std::hash::Hash for LocalTime {
    /// `Hash::hash` of the timestamp alone.
    #[verifier::external_body]
    fn hash<H: std::hash::Hasher>(&self, state: &mut H) {
        self.timestamp.hash(state)
    }
}

/// Offsets that a `chrono::FixedOffset` can hold.
pub open spec fn offset_in_range(offset: int) -> bool {
    -86400 < offset < 86400
}

impl LocalTime {
    pub open spec fn wf(self) -> bool {
        offset_in_range(self.offset as int)
    }
}

/// The length of a video, as a `std::time::Duration` holds it.
#[derive(Clone, Copy, Debug, PartialEq, Eq, Hash, Structural)]
pub struct ReelDuration {
    pub secs: u64,
    pub nanos: u32,
}

impl ReelDuration {
    pub open spec fn wf(self) -> bool {
        self.nanos < 1_000_000_000
    }
}

/// The first second that chrono has a date for: the start of
/// 1 January of the year -262143.
pub const MIN_TIMESTAMP: i64 = -8334601228800;

/// The last second that chrono has a date for: the end of
/// 31 December of the year 262142.
pub const MAX_TIMESTAMP: i64 = 8210266876799;

/// Whether `chrono::DateTime::from_timestamp(secs, 0)` gives a date, that
/// is whether `secs` lies in the years that chrono represents.
pub open spec fn timestamp_valid(secs: i64) -> bool {
    MIN_TIMESTAMP <= secs <= MAX_TIMESTAMP
}

/// `chrono::DateTime::from_timestamp(secs, 0).is_some()`.
#[verifier::external_body]
pub(crate) fn timestamp_is_valid(secs: i64) -> (r: bool)
    ensures
        r == timestamp_valid(secs),
{
    DateTime::from_timestamp(secs, 0).is_some()
}

/// The offset from UTC, in seconds, of the machine's local time zone at
/// the instant `secs` (the instant taken as the Unix epoch where chrono
/// has no date for it), as `DateTime<Utc>` into `DateTime<Local>` gives it.
/// It depends on the machine's time zone, so only its range is stated:
/// that of every `chrono::FixedOffset`.
#[verifier::external_body]
pub(crate) fn local_offset_at(secs: i64) -> (offset: i32)
    ensures
        offset_in_range(offset as int),
{
    let utc: DateTime<Utc> = DateTime::from_timestamp(secs, 0).unwrap_or_default();
    let local: DateTime<Local> = utc.into();
    local.offset().local_minus_utc()
}

/// One of the directives `%d`, `%m`, `%Y`, `%H`, `%M`, `%S` (day, month,
/// year, hour, minute, second), named by the character after the `%`.
pub open spec fn is_date_directive(c: char) -> bool {
    c == 'd' || c == 'm' || c == 'Y' || c == 'H' || c == 'M' || c == 'S'
}

/// A pattern that chrono's `format` renders without error: every `%` in it
/// begins one of the directives of `is_date_directive`; every other
/// character stands for itself.
pub open spec fn plain_date_pattern(p: Seq<char>) -> bool {
    forall|i: int| 0 <= i < p.len() && #[trigger] p[i] == '%' ==> i + 1 < p.len() && is_date_directive(p[i + 1])
}

/// The text that chrono's `format` gives for the instant `secs` seen at
/// UTC offset `offset` (the Unix epoch where chrono has no date for
/// `secs`), written with `pattern`.
pub uninterp spec fn local_time_text(secs: i64, offset: i32, pattern: Seq<char>) -> Seq<char>;

/// chrono's formatting of a local instant with a date pattern.
#[verifier::external_body]
pub(crate) fn format_local_time(t: &LocalTime, pattern: &str) -> (s: String)
    requires
        t.wf(),
        plain_date_pattern(pattern@),
    ensures
        s@ == local_time_text(t.timestamp, t.offset, pattern@),
{
    let zone = FixedOffset::east_opt(t.offset).unwrap();
    let utc: DateTime<Utc> = DateTime::from_timestamp(t.timestamp, 0).unwrap_or_default();
    utc.with_timezone(&zone).format(pattern).to_string()
}

/// The text that `format!("{:?}", Duration::new(secs, nanos))` gives.
pub uninterp spec fn duration_debug_text(secs: u64, nanos: u32) -> Seq<char>;

/// The `Debug` text of a `std::time::Duration`, such as `15.5s`.
#[verifier::external_body]
pub(crate) fn format_duration(d: &ReelDuration) -> (s: String)
    requires
        d.wf(),
    ensures
        s@ == duration_debug_text(d.secs, d.nanos),
{
    format!("{:?}", Duration::new(d.secs, d.nanos))
}

/// The instant `days` whole days before `secs`, as subtracting
/// `chrono::Duration::days(days)` from a date does.
pub fn days_before(secs: i64, days: i64) -> (r: i64)
    requires
        0 <= days <= 36500,
        secs >= i64::MIN + 36500 * 86400,
    ensures
        r == secs - days * 86400,
{
    secs - days * SECONDS_PER_DAY
}

} // verus!
