use vstd::prelude::*;

verus! {

/// Seconds since 1970-01-01 00:00:00 of the first instant that the calendar
/// type of `chrono` holds: `NaiveDate::MIN`, January 1 of year -262143, at
/// midnight.
pub const MIN_TIMESTAMP: i64 = -8334601228800i64;

/// Seconds since 1970-01-01 00:00:00 of the last whole second that the
/// calendar type of `chrono` holds: `NaiveDate::MAX`, December 31 of year
/// 262142, at 23:59:59.
pub const MAX_TIMESTAMP: i64 = 8210266876799i64;

pub const SECS_PER_DAY: i64 = 86400i64;

pub const NANOS_PER_SEC: u32 = 1_000_000_000u32;

/// Days from January 1 of year 1 to January 1, 1970.
pub const UNIX_EPOCH_DAY_FROM_CE: i64 = 719163i64;

/// A second count and a nanosecond part describe a date and time of the
/// calendar: the second lies in the calendar's range, and the nanosecond part
/// is below one second, or below two seconds in the last second of a minute
/// (a leap second).
pub open spec fn valid_timestamp(secs: int, nanos: int) -> bool {
    &&& MIN_TIMESTAMP <= secs <= MAX_TIMESTAMP
    &&& 0 <= nanos
    &&& (nanos < NANOS_PER_SEC || (nanos < 2 * NANOS_PER_SEC && secs % 60 == 59))
}

/// `a` comes strictly before `b`: first by seconds, then by the nanosecond part.
pub open spec fn spec_before(a: (int, int), b: (int, int)) -> bool {
    a.0 < b.0 || (a.0 == b.0 && a.1 < b.1)
}

/// Division rounding toward zero, as Rust's `/` on integers.
pub open spec fn trunc_div(a: int, b: int) -> int
    recommends
        b > 0,
{
    if a >= 0 {
        a / b
    } else {
        -((-a) / b)
    }
}

/// The number of the day (counted from January 1 of year 1, which is day 1)
/// that holds the instant.
pub open spec fn spec_day_from_ce(t: (int, int)) -> int {
    t.0 / (SECS_PER_DAY as int) + UNIX_EPOCH_DAY_FROM_CE
}

/// The instant `days` whole days after `t`, for `days >= 0`; a leap second
/// leaves its extra second behind once at least one day is added.
pub open spec fn spec_add_days(t: (int, int), days: int) -> (int, int) {
    if days == 0 {
        t
    } else {
        (t.0 + SECS_PER_DAY * days, if t.1 >= NANOS_PER_SEC { t.1 - NANOS_PER_SEC } else { t.1 })
    }
}

/// The difference `e - s` as `chrono` measures it: the difference of the
/// seconds, adjusted by one second when one end is a leap second (nanoseconds
/// of a second or more) and the other end has a different time of day, with
/// the difference of the nanoseconds carried into whole seconds. The result is
/// the whole seconds (rounded toward zero) and the remaining nanoseconds,
/// which carry the sign of the difference.
pub open spec fn spec_difference(s: (int, int), e: (int, int)) -> (int, int) {
    let day = SECS_PER_DAY as int;
    let ts = s.0 % day;
    let te = e.0 % day;
    let leap = if te > ts && s.1 >= NANOS_PER_SEC {
        1int
    } else if te < ts && e.1 >= NANOS_PER_SEC {
        -1int
    } else {
        0int
    };
    let frac = e.1 - s.1;
    let secs = (e.0 - s.0) + leap + frac / (NANOS_PER_SEC as int);
    let nanos = frac % (NANOS_PER_SEC as int);
    if secs < 0 && nanos > 0 {
        (secs + 1, nanos - NANOS_PER_SEC)
    } else {
        (secs, nanos)
    }
}

/// The whole number of days from `s` to `e` (negative when `e` is before `s`),
/// the whole seconds of the difference divided by a day's seconds, rounded
/// toward zero.
pub open spec fn spec_whole_days(s: (int, int), e: (int, int)) -> int {
    trunc_div(spec_difference(s, e).0, SECS_PER_DAY as int)
}

/// A date and time without time zone: whole seconds since 1970-01-01 00:00:00
/// and the nanoseconds past that second.
pub struct DateTime {
    secs: i64,
    nanos: u32,
}

impl View for DateTime {
    type V = (int, int);

    closed spec fn view(&self) -> (int, int) {
        (self.secs as int, self.nanos as int)
    }
}

impl DateTime {
    #[verifier::type_invariant]
    spec fn inv(self) -> bool {
        valid_timestamp(self.secs as int, self.nanos as int)
    }

    /// The date and time with the given seconds since 1970-01-01 00:00:00 and
    /// nanosecond part, if the calendar holds it.
    pub fn from_timestamp(secs: i64, nanos: u32) -> (r: Option<DateTime>)
        ensures
            r is Some <==> valid_timestamp(secs as int, nanos as int),
            r matches Some(t) ==> t@ == (secs as int, nanos as int),
    {
        let rem = secs % 60;
        let second_of_minute = if rem < 0 { rem + 60 } else { rem };
        assert(second_of_minute == secs % 60);
        if MIN_TIMESTAMP <= secs && secs <= MAX_TIMESTAMP
            && (nanos < NANOS_PER_SEC || (nanos < 2 * NANOS_PER_SEC && second_of_minute == 59)) {
            Some(DateTime { secs, nanos })
        } else {
            None
        }
    }

    /// Whole seconds since 1970-01-01 00:00:00.
    pub fn timestamp(&self) -> (r: i64)
        ensures
            r == self@.0,
            valid_timestamp(self@.0, self@.1),
    {
        proof {
            use_type_invariant(self);
        }
        self.secs
    }

    /// Nanoseconds past the whole second.
    pub fn subsec_nanos(&self) -> (r: u32)
        ensures
            r == self@.1,
            valid_timestamp(self@.0, self@.1),
    {
        proof {
            use_type_invariant(self);
        }
        self.nanos
    }

    pub fn copy(&self) -> (r: DateTime)
        ensures
            r@ == self@,
    {
        proof {
            use_type_invariant(self);
        }
        DateTime { secs: self.secs, nanos: self.nanos }
    }

    /// Whether `self` comes strictly before `other`.
    pub fn before(&self, other: &DateTime) -> (r: bool)
        ensures
            r == spec_before(self@, other@),
    {
        self.secs < other.secs || (self.secs == other.secs && self.nanos < other.nanos)
    }

    /// The number of the day that holds this instant, counted from January 1
    /// of year 1 as day 1 (the calendar date of the instant).
    pub fn day_from_ce(&self) -> (r: i32)
        ensures
            r == spec_day_from_ce(self@),
    {
        proof {
            use_type_invariant(self);
        }
        naive_day_from_ce(self.secs, self.nanos)
    }

    /// The instant `days` days later, as `chrono` adds a whole number of days.
    pub fn add_days(&self, days: i64) -> (r: DateTime)
        requires
            days >= 0,
            self@.0 + SECS_PER_DAY * days <= MAX_TIMESTAMP,
        ensures
            r@ == spec_add_days(self@, days as int),
    {
        proof {
            use_type_invariant(self);
        }
        let (secs, nanos) = naive_add_days(self.secs, self.nanos, days);
        proof {
            assert((self.secs + SECS_PER_DAY * days) % 60 == self.secs % 60) by (nonlinear_arith)
                requires
                    days >= 0,
            ;
        }
        DateTime { secs, nanos }
    }

    /// Whole days from `self` to `other`: the whole seconds of the difference
    /// `other - self` divided by a day's seconds, rounded toward zero (as
    /// `chrono`'s `num_days` counts them).
    pub fn whole_days_until(&self, other: &DateTime) -> (r: i64)
        ensures
            r == spec_whole_days(self@, other@),
    {
        proof {
            use_type_invariant(self);
            use_type_invariant(other);
        }
        naive_difference_seconds(self.secs, self.nanos, other.secs, other.nanos) / SECS_PER_DAY
    }
}

/// `NaiveDateTime::date` followed by `Datelike::num_days_from_ce`: `chrono`
/// builds the date of a timestamp as `secs.div_euclid(86_400)` days after
/// 1970-01-01, whose day number from the common era is 719163.
#[verifier::external_body]
fn naive_day_from_ce(secs: i64, nanos: u32) -> (r: i32)
    requires
        valid_timestamp(secs as int, nanos as int),
    ensures
        r == spec_day_from_ce((secs as int, nanos as int)),
{
    chrono::Datelike::num_days_from_ce(&chrono::DateTime::from_timestamp(secs, nanos).expect("timestamp in the calendar's range").naive_utc().date())
}

/// `NaiveDateTime + TimeDelta::days(days)`: the date moves by `days`, the time
/// of day stays, except that a leap second (nanoseconds of a second or more)
/// drops its extra second when a non-zero number of seconds is added.
#[verifier::external_body]
fn naive_add_days(secs: i64, nanos: u32, days: i64) -> (r: (i64, u32))
    requires
        valid_timestamp(secs as int, nanos as int),
        days >= 0,
        secs + SECS_PER_DAY * days <= MAX_TIMESTAMP,
    ensures
        (r.0 as int, r.1 as int) == spec_add_days((secs as int, nanos as int), days as int),
{
    let t = (chrono::DateTime::from_timestamp(secs, nanos).expect("timestamp in the calendar's range").naive_utc() + chrono::TimeDelta::days(days)).and_utc();
    (t.timestamp(), t.timestamp_subsec_nanos())
}

/// `end - start` on `chrono` dates and times (`signed_duration_since`), as the
/// whole seconds of the difference (`TimeDelta::num_seconds`).
#[verifier::external_body]
fn naive_difference_seconds(start_secs: i64, start_nanos: u32, end_secs: i64, end_nanos: u32) -> (r: i64)
    requires
        valid_timestamp(start_secs as int, start_nanos as int),
        valid_timestamp(end_secs as int, end_nanos as int),
    ensures
        r == spec_difference((start_secs as int, start_nanos as int), (end_secs as int, end_nanos as int)).0,
{
    let start = chrono::DateTime::from_timestamp(start_secs, start_nanos)
        .expect("timestamp in the calendar's range")
        .naive_utc();
    let end = chrono::DateTime::from_timestamp(end_secs, end_nanos)
        .expect("timestamp in the calendar's range")
        .naive_utc();
    (end - start).num_seconds()
}

} // verus!

verus! {

/// The current date and time of the machine's local time zone
/// (`chrono::Local::now().naive_local()`). Nothing is stated of which instant
/// it is: it depends on the clock and the time zone. Every `chrono` date and
/// time lies in the calendar's range, so the result is a valid `DateTime`.
#[verifier::external_body]
pub(crate) fn local_now() -> (r: DateTime) {
    let t = chrono::Local::now().naive_local().and_utc();
    DateTime { secs: t.timestamp(), nanos: t.timestamp_subsec_nanos() }
}

} // verus!

verus! {

/// The text that `chrono` writes for the date of the instant with the format
/// `"%d de %B, %Y"` in the `pt_BR` locale (for example `05 de março, 2025`).
pub uninterp spec fn long_date_pt_br(secs: int, nanos: int) -> Seq<char>;

/// `and_utc().format_localized("%d de %B, %Y", Locale::pt_BR)` on the `chrono`
/// date and time with these seconds and nanoseconds, as text. Its result is named.
#[verifier::external_body]
fn naive_format_long_date_pt_br(secs: i64, nanos: u32) -> (r: String)
    requires
        valid_timestamp(secs as int, nanos as int),
    ensures
        r@ == long_date_pt_br(secs as int, nanos as int),
{
    chrono::DateTime::from_timestamp(secs, nanos)
        .expect("timestamp in the calendar's range")
        .format_localized("%d de %B, %Y", chrono::Locale::pt_BR)
        .to_string()
}

impl DateTime {
    /// The date written in Portuguese, day first (`05 de março, 2025`).
    pub fn long_date_pt_br(&self) -> (r: String)
        ensures
            r@ == long_date_pt_br(self@.0, self@.1),
    {
        proof {
            use_type_invariant(self);
        }
        naive_format_long_date_pt_br(self.secs, self.nanos)
    }
}

} // verus!
