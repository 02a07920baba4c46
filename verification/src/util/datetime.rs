//! Points in time as the library sees them, and the calls into `chrono` that
//! read the clock, parse and render timestamps.

use vstd::prelude::*;

verus! {

/// A point in time: seconds since the Unix epoch and the nanoseconds within
/// that second (up to two seconds' worth during a leap second, as `chrono`
/// counts them).
#[derive(Clone, Copy, Debug, PartialEq, Eq, Structural)]
pub struct Instant {
    pub secs: i64,
    pub nanos: u32,
}

/// `a` lies strictly before `b`.
pub open spec fn instant_before(a: Instant, b: Instant) -> bool {
    a.secs < b.secs || (a.secs == b.secs && a.nanos < b.nanos)
}

impl Instant {
    /// Whether `self` lies strictly before `other`.
    pub fn is_before(&self, other: &Instant) -> (r: bool)
        ensures
            r == instant_before(*self, *other),
    {
        self.secs < other.secs || (self.secs == other.secs && self.nanos < other.nanos)
    }
}

/// The instant that `chrono::DateTime::parse_from_str` reads from `text` with
/// the format `fmt`, or `None` where it reports a parse error.
pub uninterp spec fn chrono_parsed(text: Seq<char>, fmt: Seq<char>) -> Option<Instant>;

/// The text that `chrono` renders for the UTC instant `t` with the format
/// `fmt`, or `None` where `t` lies outside the range of `chrono::DateTime`.
pub uninterp spec fn chrono_rendered(t: Instant, fmt: Seq<char>) -> Option<Seq<char>>;

/// The format of the expiry claim that tokens carry.
pub open spec fn expiry_format() -> Seq<char> {
    "%Y-%m-%d %H:%M:%S %z"@
}

/// An instant from the Unix epoch to the end of the year 9999, outside a
/// leap second: `chrono` writes it with a four-digit year and seconds from
/// 00 to 59.
pub open spec fn plainly_renderable(t: Instant) -> bool {
    0 <= t.secs <= 253402300799 && t.nanos < 1000000000
}

/// The start of the second that `t` lies in.
pub open spec fn whole_second(t: Instant) -> Instant {
    Instant { secs: t.secs, nanos: 0 }
}

/// Reads the clock with `chrono::Utc::now`. Nothing is claimed of the result:
/// it depends on when the call is made.
#[verifier::external_body]
pub(crate) fn utc_now() -> (r: Instant) {
    let now = chrono::Utc::now();
    Instant { secs: now.timestamp(), nanos: now.timestamp_subsec_nanos() }
}

/// Calls `chrono::DateTime::parse_from_str(text, fmt)` and keeps the instant it
/// denotes (`timestamp`, `timestamp_subsec_nanos`). Claimed: the result is
/// the named `chrono_parsed(text, fmt)`, a function of the two strings alone.
#[verifier::external_body]
pub(crate) fn parse_datetime(text: &str, fmt: &str) -> (r: Option<Instant>)
    ensures
        r == chrono_parsed(text@, fmt@),
{
    match chrono::DateTime::parse_from_str(text, fmt) {
        Ok(t) => Some(Instant { secs: t.timestamp(), nanos: t.timestamp_subsec_nanos() }),
        Err(_) => None,
    }
}

/// Turns `t` into a `chrono::DateTime<Utc>` with `DateTime::from_timestamp`
/// and renders it with `format(fmt).to_string()`. Rendering panics on a
/// malformed format, so the format is held to the one the library uses.
/// Claimed: the result is the named `chrono_rendered(t, fmt)`; and, for an
/// instant in the years 1970 to 9999 outside a leap second (which
/// `from_timestamp` accepts), the text is there and `parse_from_str` with the
/// same format reads it back to the same second: the format's documentation
/// writes `%Y` as a four-digit zero-padded year, `%m`, `%d`, `%H`, `%M`, `%S`
/// as two-digit numbers, and `%z` of UTC as `+0000`, and reads each back.
/// The nanoseconds are not written, so they are read back as zero.
#[verifier::external_body]
pub(crate) fn render_datetime(t: Instant, fmt: &str) -> (r: Option<String>)
    requires
        fmt@ == expiry_format(),
    ensures
        r is Some <==> chrono_rendered(t, fmt@) is Some,
        r matches Some(s) ==> chrono_rendered(t, fmt@) == Some(s@),
        plainly_renderable(t) ==> r is Some,
        r matches Some(s) ==> (plainly_renderable(t) ==> chrono_parsed(s@, fmt@) == Some(whole_second(t))),
{
    match chrono::DateTime::from_timestamp(t.secs, t.nanos) {
        Some(d) => Some(d.format(fmt).to_string()),
        None => None,
    }
}

} // verus!
