//! Calendar dates as plain year/month/day values.
//!
//! The planner's own logic needs only three calendar facts: the ordering
//! of dates, the length of a month, and the day of the week. The first is
//! stated here directly; the other two come from the calendar library
//! behind trusted wrappers.

use vstd::prelude::*;

verus! {

/// Gregorian leap-year rule: divisible by 4, except centuries not
/// divisible by 400.
pub open spec fn spec_is_leap(year: int) -> bool {
    year % 4 == 0 && (year % 100 != 0 || year % 400 == 0)
}

/// Days in a month of the Gregorian calendar.
pub open spec fn spec_month_length(year: int, month: int) -> int
    recommends
        1 <= month <= 12,
{
    if month == 2 {
        if spec_is_leap(year) {
            29
        } else {
            28
        }
    } else if month == 4 || month == 6 || month == 9 || month == 11 {
        30
    } else {
        31
    }
}

/// A calendar date. Day-of-week, when the logic needs it, is looked up
/// through the calendar library; everything else about a date is plain
/// arithmetic on these three fields.
#[derive(Debug, Clone, Copy, PartialEq, Eq, Hash, Structural)]
pub struct Date {
    pub year: i32,
    pub month: i32,
    pub day: i32,
}

impl Date {
    /// A valid calendar date within the range the calendar library
    /// accepts, leaving room for one day past any valid date.
    pub open spec fn wf(self) -> bool {
        &&& -9999 <= self.year <= 9998
        &&& 1 <= self.month <= 12
        &&& 1 <= self.day <= spec_month_length(self.year as int, self.month as int)
    }

    pub fn new(year: i32, month: i32, day: i32) -> (r: Date)
        ensures
            r == (Date { year, month, day }),
    {
        Date { year, month, day }
    }
}

/// Chronological order on dates: year, then month, then day.
pub open spec fn spec_date_le(a: Date, b: Date) -> bool {
    if a.year != b.year {
        a.year < b.year
    } else if a.month != b.month {
        a.month < b.month
    } else {
        a.day <= b.day
    }
}

/// Whether `a` is on or before `b`.
pub fn date_le(a: Date, b: Date) -> (r: bool)
    ensures
        r == spec_date_le(a, b),
{
    if a.year != b.year {
        a.year < b.year
    } else if a.month != b.month {
        a.month < b.month
    } else {
        a.day <= b.day
    }
}

/// A linear measure of a date, strictly increasing with chronological
/// order; used to show that walking a range forward terminates.
pub open spec fn date_ord(d: Date) -> int {
    372 * d.year + 31 * (d.month - 1) + d.day
}

pub proof fn lemma_date_le_ord(a: Date, b: Date)
    requires
        a.wf(),
        b.wf(),
        spec_date_le(a, b),
    ensures
        date_ord(a) <= date_ord(b),
{
}

/// The day after `d`: the next day of the month, or the first day of the
/// next month or year.
pub open spec fn spec_next_day(d: Date) -> Date {
    if d.day < spec_month_length(d.year as int, d.month as int) {
        Date { year: d.year, month: d.month, day: (d.day + 1) as i32 }
    } else if d.month < 12 {
        Date { year: d.year, month: (d.month + 1) as i32, day: 1 }
    } else {
        Date { year: (d.year + 1) as i32, month: 1, day: 1 }
    }
}

pub proof fn lemma_next_day_wf(d: Date)
    requires
        d.wf(),
    ensures
        spec_next_day(d).year == d.year || (spec_next_day(d).year == d.year + 1 && d.year
            < 9998) || (d.year == 9998 && spec_next_day(d).year == 9999),
        -9999 <= spec_next_day(d).year <= 9999,
        1 <= spec_next_day(d).month <= 12,
        1 <= spec_next_day(d).day <= spec_month_length(
            spec_next_day(d).year as int,
            spec_next_day(d).month as int,
        ),
        date_ord(spec_next_day(d)) > date_ord(d),
{
}

/// An inclusive range of dates.
#[derive(Debug, Clone, Copy, PartialEq, Eq, Structural)]
pub struct DateRange {
    pub start_date: Date,
    pub end_date: Date,
}

impl DateRange {
    pub open spec fn wf(self) -> bool {
        &&& self.start_date.wf()
        &&& self.end_date.wf()
    }

    pub fn new(start_date: Date, end_date: Date) -> (r: DateRange)
        ensures
            r == (DateRange { start_date, end_date }),
    {
        DateRange { start_date, end_date }
    }

    pub fn start_date(&self) -> (r: Date)
        ensures
            r == self.start_date,
    {
        self.start_date
    }

    pub fn end_date(&self) -> (r: Date)
        ensures
            r == self.end_date,
    {
        self.end_date
    }

    /// Whether `date` lies within the range, both ends inclusive.
    /// Relies on date_range_rs::DateRange::contains_date, which is
    /// `date >= start && date <= end` in chronological order.
    #[verifier::external_body]
    pub fn contains_date(&self, date: Date) -> (r: bool)
        requires
            self.wf(),
            date.wf(),
        ensures
            r == (spec_date_le(self.start_date, date) && spec_date_le(date, self.end_date)),
    {
        let s = joda_rs::LocalDate::new(self.start_date.year, self.start_date.month, self.start_date.day);
        let e = joda_rs::LocalDate::new(self.end_date.year, self.end_date.month, self.end_date.day);
        let d = joda_rs::LocalDate::new(date.year, date.month, date.day);
        date_range_rs::DateRange::new(s, e).contains_date(d)
    }
}

/// The number of days in the month containing `(year, month)`.
/// Relies on joda_rs::LocalDate::length_of_month, which applies the
/// Gregorian month-length table and leap-year rule.
#[verifier::external_body]
pub fn month_length(year: i32, month: i32) -> (r: i32)
    requires
        -9999 <= year <= 9998,
        1 <= month <= 12,
    ensures
        r == spec_month_length(year as int, month as int),
{
    joda_rs::LocalDate::new(year, month, 1).length_of_month()
}

/// The day of the week of a calendar date, as the calendar library
/// reports it: 1 is Monday through 7 is Sunday. A function of the date
/// alone.
pub uninterp spec fn dow_of(year: int, month: int, day: int) -> int;

/// Day of the week for Sundays in `dow_of` numbering.
pub const SUNDAY: i32 = 7;

/// Relies on joda_rs::LocalDate::day_of_week and DayOfWeek::value:
/// 1 is Monday through 7 is Sunday.
#[verifier::external_body]
pub fn day_of_week_value(date: Date) -> (r: i32)
    requires
        date.wf(),
    ensures
        r == dow_of(date.year as int, date.month as int, date.day as int),
        1 <= r <= 7,
{
    joda_rs::LocalDate::new(date.year, date.month, date.day).day_of_week().value()
}

/// The day after `date`.
/// Relies on joda_rs::LocalDate::plus_days with one day, which steps to
/// the next calendar day.
#[verifier::external_body]
pub fn next_day(date: Date) -> (r: Date)
    requires
        date.wf(),
    ensures
        r == spec_next_day(date),
{
    let n = joda_rs::LocalDate::new(date.year, date.month, date.day).plus_days(1);
    Date { year: n.year(), month: n.month_value(), day: n.day_of_month() }
}

} // verus!
