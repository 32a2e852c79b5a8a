//! Calendar-free timestamps: seconds and nanoseconds on the naive time line,
//! their order, and the whole minutes that lie between two of them.

use vstd::prelude::*;

verus! {

/// Nanoseconds in one second.
pub const NANOS_PER_SECOND: i128 = 1_000_000_000;

/// Nanoseconds in one minute.
pub const NANOS_PER_MINUTE: i128 = 60_000_000_000;

/// A point on the naive time line: whole seconds since 1970-01-01T00:00:00
/// and the nanoseconds past that second.
#[derive(Debug, Clone, Copy, PartialEq, Eq, Structural)]
pub struct Timestamp {
    pub secs: i64,
    pub nanos: u32,
}

/// A length of time: whole seconds and the nanoseconds past them.
#[derive(Debug, Clone, Copy, PartialEq, Eq, Structural)]
pub struct Timespan {
    pub secs: u64,
    pub nanos: u32,
}

impl Timespan {
    /// The span as one number of nanoseconds.
    pub open spec fn total_nanos(self) -> int {
        self.secs * 1_000_000_000 + self.nanos
    }
}

impl Timestamp {
    /// The timestamp as one number of nanoseconds.
    pub open spec fn total_nanos(self) -> int {
        self.secs * 1_000_000_000 + self.nanos
    }

    /// Order by seconds first, then by nanoseconds.
    pub open spec fn before(self, other: Timestamp) -> bool {
        self.secs < other.secs || (self.secs == other.secs && self.nanos < other.nanos)
    }

    /// Whether `self` is strictly earlier than `other`.
    pub fn is_before(&self, other: &Timestamp) -> (r: bool)
        ensures
            r == self.before(*other),
    {
        self.secs < other.secs || (self.secs == other.secs && self.nanos < other.nanos)
    }

    /// The point in time that lies `span` before this one, with less than a
    /// second of nanoseconds. There is none where the seconds would not fit
    /// an `i64`.
    pub open spec fn earlier(self, span: Timespan) -> Option<Timestamp> {
        let total = self.total_nanos() - span.total_nanos();
        if fits_seconds(total) {
            Some(
                Timestamp {
                    secs: (total / 1_000_000_000) as i64,
                    nanos: (total % 1_000_000_000) as u32,
                },
            )
        } else {
            None
        }
    }

    /// The point in time that lies `span` before this one.
    pub fn earlier_by(&self, span: &Timespan) -> (r: Option<Timestamp>)
        ensures
            r == self.earlier(*span),
            r matches Some(earlier) ==> earlier.nanos < 1_000_000_000 && earlier.total_nanos()
                == self.total_nanos() - span.total_nanos(),
    {
        let total: i128 = (self.secs as i128 - span.secs as i128) * NANOS_PER_SECOND + (
        self.nanos as i128 - span.nanos as i128);
        let floor_secs: i128 = if total >= 0 {
            total / NANOS_PER_SECOND
        } else {
            -((-total + NANOS_PER_SECOND - 1) / NANOS_PER_SECOND)
        };
        let nanos: i128 = total - floor_secs * NANOS_PER_SECOND;
        if floor_secs < i64::MIN as i128 || floor_secs > i64::MAX as i128 {
            None
        } else {
            Some(Timestamp { secs: floor_secs as i64, nanos: nanos as u32 })
        }
    }

    /// Whole minutes from `earlier` to `self`, rounded toward zero.
    pub fn minutes_since(&self, earlier: &Timestamp) -> (r: i64)
        ensures
            r == whole_minutes(self.total_nanos() - earlier.total_nanos()),
    {
        let secs: i128 = self.secs as i128 - earlier.secs as i128;
        let nanos: i128 = self.nanos as i128 - earlier.nanos as i128;
        let span: i128 = secs * NANOS_PER_SECOND + nanos;
        if span >= 0 {
            (span / NANOS_PER_MINUTE) as i64
        } else {
            let back: i128 = -span;
            (-(back / NANOS_PER_MINUTE)) as i64
        }
    }
}

/// Whether a number of nanoseconds is a number of seconds that an `i64`
/// holds, and less than a second more.
pub open spec fn fits_seconds(nanos: int) -> bool {
    i64::MIN * 1_000_000_000 <= nanos < (i64::MAX + 1) * 1_000_000_000
}

/// A span of nanoseconds as whole minutes, rounded toward zero.
pub open spec fn whole_minutes(nanos: int) -> int {
    if nanos >= 0 {
        nanos / 60_000_000_000
    } else {
        -((-nanos) / 60_000_000_000)
    }
}

/// A date read from a feed: the instant in UTC, and the same instant as the
/// wall clock of the feed's own offset shows it.
#[derive(Debug, Clone, Copy, PartialEq, Eq, Structural)]
pub struct FeedDate {
    pub utc: Timestamp,
    pub local: Timestamp,
}

/// The date that an RFC 2822 text writes, if it writes one.
pub uninterp spec fn rfc2822_date(text: Seq<char>) -> Option<FeedDate>;

/// `chrono::DateTime::parse_from_rfc2822`, with the parsed date read out
/// through `naive_utc` and `naive_local` as seconds and nanoseconds. The
/// same text always gives the same date; a text that is no RFC 2822 date
/// gives none.
#[verifier::external_body]
pub(crate) fn parse_rfc2822(text: &str) -> (date: Option<FeedDate>)
    ensures
        date == rfc2822_date(text@),
{
    match chrono::DateTime::parse_from_rfc2822(text) {
        Ok(parsed) => {
            let (utc, local) = (parsed.naive_utc().and_utc(), parsed.naive_local().and_utc());
            Some(FeedDate {
                utc: Timestamp { secs: utc.timestamp(), nanos: utc.timestamp_subsec_nanos() },
                local: Timestamp { secs: local.timestamp(), nanos: local.timestamp_subsec_nanos() },
            })
        },
        Err(_) => None,
    }
}

/// The date of an optional RFC 2822 text.
pub open spec fn optional_date(text: Option<Seq<char>>) -> Option<FeedDate> {
    match text {
        Some(text) => rfc2822_date(text),
        None => None,
    }
}

/// Reads an optional RFC 2822 text; a text that cannot be read counts as
/// absent.
pub fn read_date(text: &Option<String>) -> (date: Option<FeedDate>)
    ensures
        date == optional_date(text.deep_view()),
{
    match text {
        Some(text) => parse_rfc2822(text.as_str()),
        None => None,
    }
}

} // verus!
