use vstd::prelude::*;

verus! {

/// The last second of the last day that the calendar library can represent
/// (+262142-12-31 23:59:59 UTC), counted from the Unix epoch.
pub const MAX_UTC_SECS: i64 = 8_210_266_876_799;

/// Seconds in a day.
pub const SECS_PER_DAY: i64 = 86_400;

/// Days a new session stays valid.
pub const SESSION_LIFETIME_DAYS: i64 = 7;

/// A UTC instant: whole seconds since the Unix epoch and the nanoseconds
/// within that second. Instants are ordered first by seconds, then by
/// nanoseconds.
#[derive(Clone, Copy, Debug, PartialEq, Eq)]
pub struct Timestamp {
    pub secs: i64,
    pub nanos: u32,
}

impl Timestamp {
    /// The instant lies in the range that readings of the system clock take:
    /// not before the epoch, not after the last representable second, and
    /// with a nanosecond part below one second.
    pub open spec fn is_clock_reading(self) -> bool {
        &&& 0 <= self.secs <= MAX_UTC_SECS
        &&& self.nanos < 1_000_000_000
    }

    /// `self` comes strictly before `other`.
    pub open spec fn precedes(self, other: Timestamp) -> bool {
        ||| self.secs < other.secs
        ||| (self.secs == other.secs && self.nanos < other.nanos)
    }

    /// Whether `self` comes strictly before `other`.
    pub fn is_before(&self, other: &Timestamp) -> (res: bool)
        ensures
            res == self.precedes(*other),
    {
        self.secs < other.secs || (self.secs == other.secs && self.nanos < other.nanos)
    }

    /// The instant `days` whole days later.
    pub open spec fn plus_days(self, days: int) -> Timestamp {
        Timestamp { secs: (self.secs + days * SECS_PER_DAY) as i64, nanos: self.nanos }
    }
}

/// The seconds part of an instant leaves room for a whole session lifetime
/// before the end of the representable range.
pub open spec fn expiry_fits(now: Timestamp) -> bool {
    now.secs + SESSION_LIFETIME_DAYS * SECS_PER_DAY <= MAX_UTC_SECS
}

/// When a session created at `now` stops being valid: seven days later.
pub open spec fn spec_session_expiry(now: Timestamp) -> Timestamp {
    now.plus_days(SESSION_LIFETIME_DAYS as int)
}

/// Reads the system clock with `chrono::Utc::now()`.
///
/// chrono builds the reading from `SystemTime::now()` measured from the
/// Unix epoch, with a sub-second part below one second, and unwraps it
/// into its representable range; so every reading it returns is a clock
/// reading in the sense of `Timestamp::is_clock_reading`. What the reading
/// is depends on the time of the call; nothing more is claimed. chrono
/// panics when the system clock is set before the epoch.
#[verifier::external_body]
fn utc_now() -> (res: Timestamp)
    ensures
        res.is_clock_reading(),
{
    let now = chrono::Utc::now();
    Timestamp { secs: now.timestamp(), nanos: now.timestamp_subsec_nanos() }
}

/// Adds whole days to an instant with chrono:
/// `DateTime::from_timestamp`, then `checked_add_signed` with
/// `TimeDelta::try_days(days)`, read back with `timestamp` and
/// `timestamp_subsec_nanos`.
///
/// For an instant in the clock's range and a non-negative day count that
/// `TimeDelta` holds, chrono yields a result exactly when it does not pass
/// the last representable second, and that result is the same sub-second
/// part, `days * 86400` seconds later (no leap second is involved, as the
/// nanosecond part is below one second).
#[verifier::external_body]
fn chrono_add_days(t: Timestamp, days: i64) -> (res: Option<Timestamp>)
    requires
        t.is_clock_reading(),
        0 <= days <= 1_000_000,
    ensures
        res is Some <==> t.secs + days * SECS_PER_DAY <= MAX_UTC_SECS,
        res matches Some(r) ==> r == t.plus_days(days as int),
{
    let start = chrono::DateTime::from_timestamp(t.secs, t.nanos)?;
    let later = start.checked_add_signed(chrono::TimeDelta::try_days(days)?)?;
    Some(Timestamp { secs: later.timestamp(), nanos: later.timestamp_subsec_nanos() })
}

/// The current time.
pub fn now() -> (res: Timestamp)
    ensures
        res.is_clock_reading(),
{
    utc_now()
}

/// The expiry of a session created at `now`: seven days later, computed by
/// the calendar library. The library cannot represent the result when
/// `now` lies within a week of the end of its range; such an instant is
/// excluded.
pub fn session_expiry(now: Timestamp) -> (res: Timestamp)
    requires
        now.is_clock_reading(),
        expiry_fits(now),
    ensures
        res == spec_session_expiry(now),
{
    match chrono_add_days(now, SESSION_LIFETIME_DAYS) {
        Some(t) => t,
        None => {
            proof {
                assert(false);
            }
            now
        },
    }
}

/// The expiry of a session created at `now`, or `None` when `now` lies
/// within a week of the end of the calendar's range.
pub fn checked_session_expiry(now: Timestamp) -> (res: Option<Timestamp>)
    requires
        now.is_clock_reading(),
    ensures
        res is Some <==> expiry_fits(now),
        res matches Some(t) ==> t == spec_session_expiry(now),
{
    chrono_add_days(now, SESSION_LIFETIME_DAYS)
}

} // verus!
