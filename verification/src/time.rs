//! Instants on the server's time line, counted in microseconds since the Unix epoch.

use vstd::prelude::*;

verus! {

/// Microseconds in one second.
pub const MICROS_PER_SECOND: i64 = 1_000_000;

/// How far behind a client's watermark the download selection reaches: two minutes.
pub const SKEW_TOLERANCE_MICROS: i64 = 120_000_000;

/// No reading of the clock lies further from the epoch than this many
/// microseconds, either way. It leaves room for any `i32` of seconds.
pub const CLOCK_RANGE_MICROS: i64 = 9_000_000_000_000_000_000;

/// An instant, as microseconds since 1970-01-01T00:00:00Z.
#[derive(Clone, Copy, Debug, PartialEq, Eq, Structural)]
pub struct Timestamp {
    pub micros: i64,
}

/// `v` brought into the range of `i64`.
pub open spec fn saturate(v: int) -> int {
    if v > i64::MAX {
        i64::MAX as int
    } else if v < i64::MIN {
        i64::MIN as int
    } else {
        v
    }
}

/// The lower bound that a watermark puts on a row's synced-at: the watermark less
/// the skew tolerance. No watermark gives no bound, and so does a watermark so
/// early that every representable instant lies after the bound.
pub open spec fn cutoff_of(last_synced_at: Option<Timestamp>) -> Option<Timestamp> {
    match last_synced_at {
        Some(w) if w.at() - SKEW_TOLERANCE_MICROS >= i64::MIN => Some(
            Timestamp { micros: (w.at() - SKEW_TOLERANCE_MICROS) as i64 },
        ),
        _ => None,
    }
}

/// Whether a row synced at `synced_at` is selected under the bound `cutoff`.
pub open spec fn passes(synced_at: Timestamp, cutoff: Option<Timestamp>) -> bool {
    match cutoff {
        Some(c) => synced_at.at() > c.at(),
        None => true,
    }
}

/// Reads the system clock with `std::time::SystemTime::now`, hands the
/// reading to chrono's conversion into a `DateTime<Utc>`, which takes a clock
/// that stands before 1970 as well as one after, and hands back
/// `timestamp_micros()` of the result. Which instant comes back depends on
/// the machine's clock; what is claimed holds of every instant that chrono
/// can hold. The conversion gives no date outside the years -262143 to
/// 262142, and `timestamp_micros` counts the days of that date from 1970:
/// fewer than 8.4 * 10^18 microseconds either way, so not further from the
/// epoch than `CLOCK_RANGE_MICROS`.
#[verifier::external_body]
fn utc_now_micros() -> (micros: i64)
    ensures
        -CLOCK_RANGE_MICROS <= micros <= CLOCK_RANGE_MICROS,
{
    chrono::DateTime::<chrono::Utc>::from(std::time::SystemTime::now()).timestamp_micros()
}

impl Timestamp {
    /// The instant as a mathematical integer.
    pub open spec fn at(self) -> int {
        self.micros as int
    }

    pub fn from_micros(micros: i64) -> (t: Timestamp)
        ensures
            t.micros == micros,
    {
        Timestamp { micros }
    }

    /// Whether the instant is one that the clock can read: not further from
    /// the epoch than `CLOCK_RANGE_MICROS`.
    pub open spec fn on_clock(self) -> bool {
        -CLOCK_RANGE_MICROS <= self.at() <= CLOCK_RANGE_MICROS
    }

    /// The server's current time. Two readings need not agree, and a later
    /// one need not be the greater; each is an instant on the clock.
    pub fn now() -> (t: Timestamp)
        ensures
            t.on_clock(),
    {
        Timestamp { micros: utc_now_micros() }
    }

    /// The instant `seconds` later (earlier, if negative), held at the ends of
    /// the representable range.
    pub open spec fn later_by(self, seconds: int) -> Timestamp {
        Timestamp { micros: saturate(self.at() + seconds * MICROS_PER_SECOND) as i64 }
    }

    /// The instant `seconds` later (earlier, if negative), held at the ends of
    /// the representable range.
    pub fn plus_seconds(self, seconds: i32) -> (t: Timestamp)
        ensures
            t == self.later_by(seconds as int),
    {
        let span: i64 = (seconds as i64) * MICROS_PER_SECOND;
        match self.micros.checked_add(span) {
            Some(micros) => Timestamp { micros },
            None => if seconds > 0 {
                Timestamp { micros: i64::MAX }
            } else {
                Timestamp { micros: i64::MIN }
            },
        }
    }

    /// Whether a row synced at this instant is selected under `cutoff`.
    pub fn passes_cutoff(self, cutoff: Option<Timestamp>) -> (r: bool)
        ensures
            r == passes(self, cutoff),
    {
        match cutoff {
            Some(c) => self.micros > c.micros,
            None => true,
        }
    }
}

/// The bound on synced-at that the download selection applies for a client's
/// watermark.
pub fn download_cutoff(last_synced_at: Option<Timestamp>) -> (cutoff: Option<Timestamp>)
    ensures
        cutoff == cutoff_of(last_synced_at),
{
    match last_synced_at {
        Some(w) => match w.micros.checked_sub(SKEW_TOLERANCE_MICROS) {
            Some(micros) => Some(Timestamp { micros }),
            None => None,
        },
        None => None,
    }
}

/// Seconds are added to a reading of the clock exactly: no `i32` of seconds
/// takes it to an end of the representable range.
pub proof fn lemma_clock_reading_plus_seconds(reading: Timestamp, seconds: i32)
    requires
        reading.on_clock(),
    ensures
        reading.later_by(seconds as int).at() == reading.at() + seconds * MICROS_PER_SECOND,
{
}

/// A row passes the bound of a watermark exactly when it was synced later than
/// two minutes before the watermark; without a watermark every row passes.
pub proof fn lemma_cutoff_is_skewed_watermark(synced_at: Timestamp, last_synced_at: Option<Timestamp>)
    ensures
        passes(synced_at, cutoff_of(last_synced_at)) <==> match last_synced_at {
            Some(w) => synced_at.at() > w.at() - 120_000_000,
            None => true,
        },
{
}

} // verus!
