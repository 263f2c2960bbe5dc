//! The calendar value that the clock, the display and the schedules share.
use vstd::prelude::*;

verus! {

/// A broken-down date and time.
#[derive(Clone, Copy, PartialEq, Eq, Debug, Structural)]
pub struct DateTime {
    pub year: i32,
    /// Month of the year, 1 to 12.
    pub month: u8,
    /// Day of the month, from 1.
    pub mday: u8,
    /// Day of the week, 0 (Sunday) to 6.
    pub wday: u8,
    pub hour: u8,
    pub minute: u8,
    pub second: u8,
    pub millis: u16,
}

/// Whether `year` is a Gregorian leap year.
pub open spec fn is_leap_year(year: int) -> bool {
    year % 4 == 0 && (year % 100 != 0 || year % 400 == 0)
}

/// Number of days of `month` (1 to 12) in `year`; 0 for any other month.
pub open spec fn days_in_month_spec(month: int, year: int) -> int {
    if month == 2 {
        if is_leap_year(year) { 29 } else { 28 }
    } else if month == 4 || month == 6 || month == 9 || month == 11 {
        30
    } else if 1 <= month <= 12 {
        31
    } else {
        0
    }
}

/// Whether a date and time denote a real calendar instant.
pub open spec fn date_time_valid(dt: DateTime) -> bool {
    &&& 1 <= dt.month <= 12
    &&& 1 <= dt.mday <= days_in_month_spec(dt.month as int, dt.year as int)
    &&& dt.hour < 24
    &&& dt.minute < 60
    &&& dt.second < 60
}

/// Whether `n` is a multiple of `m`.
fn divides(n: i32, m: i32) -> (r: bool)
    requires
        m > 0,
    ensures
        r == (n % m == 0),
{
    let shifted: i64 = n as i64 + (m as i64) * 0x8000_0000i64;
    assert(shifted >= 0) by (nonlinear_arith)
        requires shifted == n + m * 0x8000_0000, m > 0, n >= -0x8000_0000;
    let rem: i64 = shifted % (m as i64);
    proof {
        vstd::arithmetic::div_mod::lemma_mod_multiples_vanish(0x8000_0000int, n as int, m as int);
        assert((m as int) * 0x8000_0000int + (n as int) == shifted as int);
    }
    rem == 0
}

impl DateTime {
    /// The instant used when the clock cannot be read: all fields zero.
    pub fn zero() -> (r: DateTime)
        ensures
            r == (DateTime { year: 0, month: 0, mday: 0, wday: 0, hour: 0, minute: 0, second: 0, millis: 0 }),
    {
        DateTime { year: 0, month: 0, mday: 0, wday: 0, hour: 0, minute: 0, second: 0, millis: 0 }
    }

    /// Number of days of `month` in `year` (see `days_in_month_spec`).
    pub fn days_in_month(month: u8, year: i32) -> (r: u8)
        ensures
            r as int == days_in_month_spec(month as int, year as int),
    {
        if month == 2 {
            if divides(year, 4) && (!divides(year, 100) || divides(year, 400)) { 29 } else { 28 }
        } else if month == 4 || month == 6 || month == 9 || month == 11 {
            30
        } else if 1 <= month && month <= 12 {
            31
        } else {
            0
        }
    }

    /// A date at midnight, when the month and the day exist in that year.
    pub fn new_date(year: i32, month: i32, mday: i32) -> (r: Option<DateTime>)
        ensures
            r is Some <==> (1 <= month <= 12 && 1 <= mday <= days_in_month_spec(month as int, year as int)),
            r matches Some(dt) ==> dt == (DateTime { year, month: month as u8, mday: mday as u8, wday: 0, hour: 0, minute: 0, second: 0, millis: 0 }),
    {
        if month < 1 || month > 12 {
            return None;
        }
        let days = DateTime::days_in_month(month as u8, year);
        if mday < 1 || mday > days as i32 {
            return None;
        }
        Some(DateTime { year, month: month as u8, mday: mday as u8, wday: 0, hour: 0, minute: 0, second: 0, millis: 0 })
    }

    /// A time of day, when the hour, minute and second exist.
    pub fn new_time(hour: i32, minute: i32, second: i32) -> (r: Option<DateTime>)
        ensures
            r is Some <==> (0 <= hour < 24 && 0 <= minute < 60 && 0 <= second < 60),
            r matches Some(dt) ==> dt == (DateTime { year: 0, month: 0, mday: 0, wday: 0, hour: hour as u8, minute: minute as u8, second: second as u8, millis: 0 }),
    {
        if hour < 0 || hour >= 24 || minute < 0 || minute >= 60 || second < 0 || second >= 60 {
            return None;
        }
        Some(DateTime { year: 0, month: 0, mday: 0, wday: 0, hour: hour as u8, minute: minute as u8, second: second as u8, millis: 0 })
    }

    /// Whether the value denotes a real calendar instant.
    pub fn is_valid(&self) -> (r: bool)
        ensures
            r == date_time_valid(*self),
    {
        if self.month < 1 || self.month > 12 {
            return false;
        }
        let days = DateTime::days_in_month(self.month, self.year);
        self.mday >= 1 && self.mday <= days && self.hour < 24 && self.minute < 60 && self.second < 60
    }

    /// Advances the sub-second counter by one display tick of `tick_ms`
    /// milliseconds, restarting from zero once a full second was reached.
    pub fn advance_millis(&mut self, tick_ms: u16)
        requires
            tick_ms <= 1000,
        ensures
            final(self).millis == (if old(self).millis >= 1000 { 0 } else { old(self).millis + tick_ms }),
            *final(self) == (DateTime { millis: final(self).millis, ..*old(self) }),
    {
        if self.millis >= 1000 {
            self.millis = 0;
        } else {
            self.millis = self.millis + tick_ms;
        }
    }
}

/// The Gregorian month lengths: January, March, May, July, August, October
/// and December have 31 days; April, June, September and November 30;
/// February 28, or 29 in a year divisible by 4 that is not a century, or is
/// a century divisible by 400.
pub proof fn lemma_month_lengths(month: int, year: int)
    requires
        1 <= month <= 12,
    ensures
        days_in_month_spec(month, year) == seq![31int, 28, 31, 30, 31, 30, 31, 31, 30, 31, 30, 31][month - 1]
            + if month == 2 && year % 4 == 0 && (year % 100 != 0 || year % 400 == 0) { 1int } else { 0 },
{
}

/// The months of a year add up to 365 days, or 366 in a leap year.
pub proof fn lemma_year_length(year: int)
    ensures
        days_in_month_spec(1, year) + days_in_month_spec(2, year) + days_in_month_spec(3, year)
            + days_in_month_spec(4, year) + days_in_month_spec(5, year) + days_in_month_spec(6, year)
            + days_in_month_spec(7, year) + days_in_month_spec(8, year) + days_in_month_spec(9, year)
            + days_in_month_spec(10, year) + days_in_month_spec(11, year) + days_in_month_spec(12, year)
            == if year % 4 == 0 && (year % 100 != 0 || year % 400 == 0) { 366int } else { 365int },
{
}

/// Every day of every month exists: `new_date` accepts day `mday` of month
/// `month` exactly when it is at most the Gregorian length of that month,
/// and refuses any other month.
pub proof fn lemma_dates_that_exist(month: int, mday: int, year: int)
    ensures
        (1 <= month <= 12 && 1 <= mday <= days_in_month_spec(month, year))
            <==> (1 <= month <= 12 && 1 <= mday && mday <= seq![31int, 28, 31, 30, 31, 30, 31, 31, 30, 31, 30, 31][month - 1]
                + if month == 2 && year % 4 == 0 && (year % 100 != 0 || year % 400 == 0) { 1int } else { 0 }),
{
    if 1 <= month <= 12 {
        lemma_month_lengths(month, year);
    }
}

} // verus!
