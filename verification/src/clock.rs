//! Instants, calendar days and the arithmetic that relates them.
use vstd::prelude::*;

verus! {

/// Seconds in one calendar day.
pub const SECONDS_PER_DAY: i128 = 86_400;

/// A calendar day, counted in whole days from 1970-01-01 (which is day 0).
#[derive(Clone, Copy, Debug, PartialEq, Eq, Structural)]
pub struct Date {
    pub days: i64,
}

/// A point in time together with the local offset it is displayed in.
///
/// `utc_seconds` and `nanos` locate the instant on the UTC time line;
/// `offset_seconds` is what has to be added to read the local wall clock.
/// Nanoseconds beyond a full second, as a clock may report them during a
/// leap second, count on towards the next second.
#[derive(Clone, Copy, Debug, PartialEq, Eq, Structural)]
pub struct Moment {
    pub utc_seconds: i64,
    pub nanos: u32,
    pub offset_seconds: i32,
}

/// Floor division on machine integers: the mathematical quotient, rounded
/// down, for negative dividends too.
pub fn div_floor(a: i128, b: i128) -> (q: i128)
    requires
        b > 0,
    ensures
        q == (a as int) / (b as int),
{
    if a >= 0 {
        a / b
    } else {
        let n: i128 = -(a + 1);
        let q: i128 = n / b;
        assert(a == b * (-q - 1) + (b - 1 - (n % b))) by (nonlinear_arith)
            requires
                n == -(a + 1),
                q == n / b,
                b > 0,
                n >= 0,
        ;
        assert((a as int) / (b as int) == -q - 1) by (nonlinear_arith)
            requires
                a == b * (-q - 1) + (b - 1 - (n % b)),
                0 <= n % b < b,
                b > 0,
        ;
        -q - 1
    }
}

impl Date {
    pub fn new(days: i64) -> (d: Date)
        ensures
            d.days == days,
    {
        Date { days }
    }
}

impl Moment {
    pub fn new(utc_seconds: i64, nanos: u32, offset_seconds: i32) -> (m: Moment)
        ensures
            m.utc_seconds == utc_seconds,
            m.nanos == nanos,
            m.offset_seconds == offset_seconds,
    {
        Moment { utc_seconds, nanos, offset_seconds }
    }

    /// Nanoseconds from the epoch to this instant.
    pub open spec fn instant(self) -> int {
        self.utc_seconds * 1_000_000_000 + self.nanos
    }

    /// Strict order of instants; the display offset plays no part.
    pub open spec fn before(self, other: Moment) -> bool {
        self.instant() < other.instant()
    }

    /// Seconds from the epoch to the local wall-clock reading.
    pub open spec fn local_seconds(self) -> int {
        self.utc_seconds + self.offset_seconds
    }

    /// The local calendar day this moment falls on.
    pub open spec fn local_day(self) -> int {
        self.local_seconds() / 86_400
    }

    /// Seconds elapsed since local midnight, in `0..86_400`.
    pub open spec fn second_of_day(self) -> int {
        self.local_seconds() % 86_400
    }

    /// Whole minutes from `self` to a later moment.
    pub open spec fn minutes_until(self, later: Moment) -> int {
        (later.instant() - self.instant()) / 60_000_000_000
    }

    /// The moment `minutes` minutes later, shown with the same offset.
    pub open spec fn plus_minutes(self, minutes: int) -> Moment {
        Moment { utc_seconds: (self.utc_seconds + minutes * 60) as i64, ..self }
    }

    /// The moment `minutes` minutes later, unless its seconds leave the
    /// range of `i64`.
    pub fn checked_add_minutes(&self, minutes: usize) -> (later: Option<Moment>)
        ensures
            self.utc_seconds + minutes * 60 <= i64::MAX ==> later == Some(
                self.plus_minutes(minutes as int),
            ),
            self.utc_seconds + minutes * 60 > i64::MAX ==> later is None,
            later is Some ==> later->0.instant() == self.instant() + minutes * 60_000_000_000
                && !later->0.before(*self),
    {
        let seconds: i128 = self.utc_seconds as i128 + minutes as i128 * 60;
        if seconds > i64::MAX as i128 {
            None
        } else {
            Some(
                Moment {
                    utc_seconds: seconds as i64,
                    nanos: self.nanos,
                    offset_seconds: self.offset_seconds,
                },
            )
        }
    }

    pub fn is_before(&self, other: &Moment) -> (b: bool)
        ensures
            b == self.before(*other),
    {
        let a: i128 = self.utc_seconds as i128 * 1_000_000_000 + self.nanos as i128;
        let b: i128 = other.utc_seconds as i128 * 1_000_000_000 + other.nanos as i128;
        a < b
    }

    pub fn date_naive(&self) -> (d: Date)
        ensures
            d.days == self.local_day(),
    {
        let local: i128 = self.utc_seconds as i128 + self.offset_seconds as i128;
        let day: i128 = div_floor(local, SECONDS_PER_DAY);
        Date { days: day as i64 }
    }

    /// Seconds since local midnight.
    pub fn num_seconds_from_midnight(&self) -> (s: u32)
        ensures
            s == self.second_of_day(),
    {
        let local: i128 = self.utc_seconds as i128 + self.offset_seconds as i128;
        let day: i128 = div_floor(local, SECONDS_PER_DAY);
        (local - day * SECONDS_PER_DAY) as u32
    }

    /// Whole minutes elapsed from `self` to `later`.
    pub fn num_minutes_until(&self, later: &Moment) -> (m: i64)
        requires
            self.before(*later),
        ensures
            m == self.minutes_until(*later),
            m >= 0,
    {
        let from: i128 = self.utc_seconds as i128 * 1_000_000_000 + self.nanos as i128;
        let to: i128 = later.utc_seconds as i128 * 1_000_000_000 + later.nanos as i128;
        let gap: i128 = to - from;
        let minutes: i128 = gap / 60_000_000_000;
        minutes as i64
    }
}

/// Reads the system clock through `chrono::Local::now` and hands back the
/// instant and local offset it reports. Nothing is promised of the reading.
#[verifier::external_body]
pub(crate) fn now() -> (m: Moment) {
    let dt = chrono::Local::now();
    Moment {
        utc_seconds: dt.timestamp(),
        nanos: dt.timestamp_subsec_nanos(),
        offset_seconds: dt.offset().local_minus_utc(),
    }
}

} // verus!
