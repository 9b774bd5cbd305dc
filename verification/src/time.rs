use vstd::prelude::*;

verus! {

/// Microseconds from the Unix epoch (1970-01-01 UTC) to 2000-01-01 UTC, the
/// epoch of MEOS timestamps.
pub const MICROSECONDS_UNTIL_2000: i64 = 946684800000000;

/// Days from the first day of the common era (0001-01-01, day 1) to
/// 2000-01-01, the epoch of MEOS dates.
pub const DAYS_UNTIL_2000: i32 = 730120;

/// Microseconds in one day.
pub open spec fn micros_per_day() -> int {
    86_400_000_000
}

/// Day number of the common era of 1970-01-01, the Unix epoch.
pub const UNIX_EPOCH_CE_DAY: i64 = 719163;

/// Day number of the common era of the first date that `chrono::NaiveDate`
/// holds, January 1 of the year -262143.
pub const MIN_CE_DAY: i32 = -95746129;

/// Day number of the common era of the last date that `chrono::NaiveDate`
/// holds, December 31 of the year 262142.
pub const MAX_CE_DAY: i32 = 95745399;

/// Whether day number `days` of the common era is a date that
/// `chrono::NaiveDate` can hold.
pub open spec fn is_ce_day(days: int) -> bool {
    MIN_CE_DAY <= days <= MAX_CE_DAY
}

/// Whether `micros` microseconds after the Unix epoch is an instant that
/// `chrono::DateTime<Utc>` can hold: whether its day (counted from the Unix
/// epoch, rounding down) is a date that `chrono::NaiveDate` can hold.
pub open spec fn is_utc_micros(micros: int) -> bool {
    is_ce_day(micros / micros_per_day() + UNIX_EPOCH_CE_DAY)
}

/// The first instant, in microseconds after the Unix epoch, that
/// `chrono::DateTime<Utc>` holds: the start of day `MIN_CE_DAY`.
pub const MIN_UTC_MICROS: i64 = -8334601228800000000;

/// The last instant, in microseconds after the Unix epoch, that
/// `chrono::DateTime<Utc>` holds: the end of day `MAX_CE_DAY`.
pub const MAX_UTC_MICROS: i64 = 8210266876799999999;

/// The instants that `chrono::DateTime<Utc>` holds are exactly those from
/// `MIN_UTC_MICROS` to `MAX_UTC_MICROS`.
pub proof fn lemma_utc_micros_range(micros: int)
    ensures
        is_utc_micros(micros) <==> MIN_UTC_MICROS <= micros <= MAX_UTC_MICROS,
{
    let d = micros / micros_per_day();
    assert(d * micros_per_day() <= micros < (d + 1) * micros_per_day()) by (nonlinear_arith)
        requires
            d == micros / 86_400_000_000int,
    {
    }
    if is_utc_micros(micros) {
        assert(MIN_UTC_MICROS <= micros <= MAX_UTC_MICROS) by (nonlinear_arith)
            requires
                d * 86_400_000_000int <= micros < (d + 1) * 86_400_000_000int,
                MIN_CE_DAY <= d + UNIX_EPOCH_CE_DAY <= MAX_CE_DAY,
        {
        }
    }
    if MIN_UTC_MICROS <= micros <= MAX_UTC_MICROS {
        assert(MIN_CE_DAY <= d + UNIX_EPOCH_CE_DAY <= MAX_CE_DAY) by (nonlinear_arith)
            requires
                d * 86_400_000_000int <= micros < (d + 1) * 86_400_000_000int,
                MIN_UTC_MICROS <= micros <= MAX_UTC_MICROS,
        {
        }
    }
}

/// Whether `chrono::DateTime::from_timestamp_micros(micros)` gives an
/// instant.
///
/// Trusted: chrono takes the day of `micros` (Euclidean division by the
/// microseconds of a day, plus the day number of the Unix epoch) and gives
/// an instant exactly where that day is a date it can hold; the time of day
/// is always valid.
#[verifier::external_body]
fn utc_micros_in_range(micros: i64) -> (r: bool)
    ensures
        r == is_utc_micros(micros as int),
{
    chrono::DateTime::from_timestamp_micros(micros).is_some()
}

/// Whether `chrono::NaiveDate::from_num_days_from_ce_opt(days)` gives a
/// date.
///
/// Trusted: chrono gives a date exactly where the day falls in a year from
/// -262143 to 262142, that is from `MIN_CE_DAY` to `MAX_CE_DAY`.
#[verifier::external_body]
fn ce_day_in_range(days: i32) -> (r: bool)
    ensures
        r == is_ce_day(days as int),
{
    chrono::NaiveDate::from_num_days_from_ce_opt(days).is_some()
}

/// Converts microseconds since the Unix epoch into a MEOS timestamp
/// (microseconds since 2000-01-01 UTC).
pub fn to_meos_timestamp(unix_micros: i64) -> (r: i64)
    requires
        unix_micros - MICROSECONDS_UNTIL_2000 >= i64::MIN,
    ensures
        r == unix_micros - MICROSECONDS_UNTIL_2000,
{
    unix_micros - MICROSECONDS_UNTIL_2000
}

/// Converts a MEOS timestamp into microseconds since the Unix epoch, for an
/// instant that `chrono` can hold.
pub fn from_meos_timestamp(timestamp: i64) -> (r: i64)
    requires
        timestamp + MICROSECONDS_UNTIL_2000 <= i64::MAX,
        is_utc_micros(timestamp + MICROSECONDS_UNTIL_2000),
    ensures
        r == timestamp + MICROSECONDS_UNTIL_2000,
{
    timestamp + MICROSECONDS_UNTIL_2000
}

/// Converts a MEOS timestamp into microseconds since the Unix epoch, or
/// `None` where the instant is beyond what `chrono` can hold.
pub fn checked_from_meos_timestamp(timestamp: i64) -> (r: Option<i64>)
    ensures
        r == (if timestamp + MICROSECONDS_UNTIL_2000 <= i64::MAX && is_utc_micros(
            timestamp + MICROSECONDS_UNTIL_2000,
        ) {
            Some((timestamp + MICROSECONDS_UNTIL_2000) as i64)
        } else {
            None
        }),
{
    if timestamp > i64::MAX - MICROSECONDS_UNTIL_2000 {
        return None;
    }
    if !utc_micros_in_range(timestamp + MICROSECONDS_UNTIL_2000) {
        return None;
    }
    Some(from_meos_timestamp(timestamp))
}

/// Converts a MEOS date (days since 2000-01-01) into a day number of the
/// common era, where both are dates that `chrono` can hold.
pub fn date_from_meos(days: i32) -> (r: i32)
    requires
        days + DAYS_UNTIL_2000 <= i32::MAX,
        is_ce_day(days as int),
        is_ce_day(days + DAYS_UNTIL_2000),
    ensures
        r == days + DAYS_UNTIL_2000,
{
    days + DAYS_UNTIL_2000
}

/// Converts a MEOS date into a day number of the common era, or `None`
/// where either day is beyond what `chrono` can hold.
pub fn checked_date_from_meos(days: i32) -> (r: Option<i32>)
    ensures
        r == (if days + DAYS_UNTIL_2000 <= i32::MAX && is_ce_day(days as int) && is_ce_day(
            days + DAYS_UNTIL_2000,
        ) {
            Some((days + DAYS_UNTIL_2000) as i32)
        } else {
            None
        }),
{
    if days > i32::MAX - DAYS_UNTIL_2000 {
        return None;
    }
    if !ce_day_in_range(days) || !ce_day_in_range(days + DAYS_UNTIL_2000) {
        return None;
    }
    Some(date_from_meos(days))
}

/// Converts a day number of the common era into a MEOS date, where the
/// result is a date that `chrono` can hold.
pub fn date_to_meos(ce_days: i32) -> (r: i32)
    requires
        ce_days - DAYS_UNTIL_2000 >= i32::MIN,
        is_ce_day(ce_days - DAYS_UNTIL_2000),
    ensures
        r == ce_days - DAYS_UNTIL_2000,
{
    ce_days - DAYS_UNTIL_2000
}

/// Converts a day number of the common era into a MEOS date, or `None`
/// where that date is beyond what `chrono` can hold.
pub fn checked_date_to_meos(ce_days: i32) -> (r: Option<i32>)
    ensures
        r == (if ce_days - DAYS_UNTIL_2000 >= i32::MIN && is_ce_day(ce_days - DAYS_UNTIL_2000) {
            Some((ce_days - DAYS_UNTIL_2000) as i32)
        } else {
            None
        }),
{
    if ce_days < i32::MIN + DAYS_UNTIL_2000 {
        return None;
    }
    if !ce_day_in_range(ce_days - DAYS_UNTIL_2000) {
        return None;
    }
    Some(date_to_meos(ce_days))
}

/// A MEOS interval: a number of microseconds, days and months, which MEOS
/// adds together (a month counts as 30 days).
#[derive(Clone, Copy, Debug, PartialEq, Eq, Structural)]
pub struct Interval {
    pub time: i64,
    pub day: i32,
    pub month: i32,
}

/// The whole length of an interval in microseconds, with a month as 30
/// days.
pub open spec fn interval_micros(interval: Interval) -> int {
    interval.time + (interval.day + 30 * interval.month) * micros_per_day()
}

/// Builds the MEOS interval for a duration, from the duration's whole
/// microseconds (`None` where they overflow) and its whole days.
///
/// The interval holds the whole duration in microseconds and, beside it,
/// the whole days again (cut to 32 bits); MEOS adds the two, so the whole
/// days of the duration count twice.
pub fn create_interval(micros: Option<i64>, days: i64) -> (r: Interval)
    ensures
        r.time == (match micros {
            Some(m) => m,
            None => 0,
        }),
        r.day == days as i32,
        r.month == 0,
{
    let time = match micros {
        Some(m) => m,
        None => 0,
    };
    Interval { time, day: days as i32, month: 0 }
}

/// The days of an interval, with its months counted as 30 days each; the
/// duration of the interval is its microseconds plus these days.
pub fn interval_days(interval: &Interval) -> (r: i64)
    ensures
        r == interval.day + 30 * interval.month,
        interval_micros(*interval) == interval.time + r * micros_per_day(),
{
    interval.day as i64 + (interval.month as i64) * 30
}

/// A duration of whole days, given as its microseconds and days, makes an
/// interval that MEOS reads as twice that duration.
pub proof fn law_whole_days_counted_twice(days: i64)
    requires
        i32::MIN <= days <= i32::MAX,
    ensures
        ({
            let micros = days * micros_per_day();
            let iv = Interval { time: micros as i64, day: days as i32, month: 0 };
            i64::MIN <= micros <= i64::MAX ==> interval_micros(iv) == 2 * micros
        }),
{
}

/// Converting an instant that `chrono` can hold to a MEOS timestamp and
/// back gives the instant again: the checked conversion back succeeds.
pub proof fn law_timestamp_round_trip(unix_micros: i64)
    requires
        unix_micros - MICROSECONDS_UNTIL_2000 >= i64::MIN,
        is_utc_micros(unix_micros as int),
    ensures
        ({
            let t = unix_micros - MICROSECONDS_UNTIL_2000;
            &&& t + MICROSECONDS_UNTIL_2000 <= i64::MAX
            &&& is_utc_micros(t + MICROSECONDS_UNTIL_2000)
            &&& t + MICROSECONDS_UNTIL_2000 == unix_micros
        }),
{
}

/// Converting a date to a MEOS date and back gives the date again: where the
/// MEOS date is also one that `chrono` can hold, the checked conversion back
/// succeeds.
pub proof fn law_date_round_trip(ce_days: i32)
    requires
        ce_days - DAYS_UNTIL_2000 >= i32::MIN,
        is_ce_day(ce_days as int),
        is_ce_day(ce_days - DAYS_UNTIL_2000),
    ensures
        ({
            let d = ce_days - DAYS_UNTIL_2000;
            &&& d + DAYS_UNTIL_2000 <= i32::MAX
            &&& is_ce_day(d)
            &&& is_ce_day(d + DAYS_UNTIL_2000)
            &&& d + DAYS_UNTIL_2000 == ce_days
        }),
{
}

} // verus!
