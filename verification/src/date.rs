//! Calendar dates, and the one place where the clock is read.

use vstd::prelude::*;

verus! {

/// Whether `year` has a 29th of February in the proleptic Gregorian calendar.
/// Year 0 exists and comes before year 1.
pub open spec fn is_leap_year(year: int) -> bool {
    year % 4 == 0 && (year % 100 != 0 || year % 400 == 0)
}

/// The number of days of a month.  Months are numbered from 1 to 12; a month
/// that the calendar lacks has no days.
pub open spec fn days_in_month(year: int, month: int) -> int {
    if month < 1 || month > 12 {
        0
    } else if month == 2 {
        if is_leap_year(year) {
            29
        } else {
            28
        }
    } else if month == 4 || month == 6 || month == 9 || month == 11 {
        30
    } else {
        31
    }
}

/// Whether the calendar has the given day.  Days are numbered from 1.
pub open spec fn is_calendar_date(year: int, month: int, day: int) -> bool {
    1 <= month <= 12 && 1 <= day <= days_in_month(year, month)
}

/// A date as the contracts see it.
pub struct Ymd {
    pub year: int,
    pub month: int,
    pub day: int,
}

impl Ymd {
    /// Whether the calendar has this day.
    pub open spec fn is_valid(self) -> bool {
        is_calendar_date(self.year, self.month, self.day)
    }
}

/// A day of the proleptic Gregorian calendar.  Every value is a day that the
/// calendar has.
#[derive(Clone, Copy, Debug, PartialEq, Eq, Structural)]
pub struct Date {
    year: i32,
    month: u32,
    day: u32,
}

impl View for Date {
    type V = Ymd;

    closed spec fn view(&self) -> Ymd {
        Ymd { year: self.year as int, month: self.month as int, day: self.day as int }
    }
}

/// Whether `year` is a leap year.
pub fn leap_year(year: i32) -> (r: bool)
    ensures
        r == is_leap_year(year as int),
{
    // 2_147_484_000 is a multiple of 400 and at least 2^31, so the sum is not
    // negative and has the remainders of `year`.
    let shifted: i64 = year as i64 + 2_147_484_000;
    let in_cycle: i64 = shifted % 400;
    in_cycle % 4 == 0 && (in_cycle % 100 != 0 || in_cycle == 0)
}

/// The number of days of the given month, which is none for a month that the
/// calendar lacks.
pub fn month_length(year: i32, month: u32) -> (r: u32)
    ensures
        r == days_in_month(year as int, month as int),
{
    if month < 1 || month > 12 {
        0
    } else if month == 2 {
        if leap_year(year) {
            29
        } else {
            28
        }
    } else if month == 4 || month == 6 || month == 9 || month == 11 {
        30
    } else {
        31
    }
}

impl Date {
    /// What holds of every date that a program holds.
    #[verifier::type_invariant]
    pub open spec fn on_calendar(&self) -> bool {
        self@.is_valid()
    }

    /// The date with the given year, month and day, if the calendar has it.
    pub fn new(year: i32, month: u32, day: u32) -> (r: Option<Date>)
        ensures
            r is Some <==> is_calendar_date(year as int, month as int, day as int),
            r matches Some(date) ==> date@ == (Ymd {
                year: year as int,
                month: month as int,
                day: day as int,
            }),
    {
        if 1 <= day && day <= month_length(year, month) {
            Some(Date { year, month, day })
        } else {
            None
        }
    }

    /// Today's date in UTC, as the system clock has it.
    pub fn today() -> (r: Date)
        ensures
            r@.is_valid(),
    {
        let (year, month, day) = utc_today();
        Date { year, month, day }
    }

    /// The year; year 0 comes before year 1.
    pub fn year(&self) -> (r: i32)
        ensures
            r == self@.year,
    {
        self.year
    }

    /// The month, from 1 to 12.
    pub fn month(&self) -> (r: u32)
        ensures
            r == self@.month,
            1 <= r <= 12,
    {
        proof {
            use_type_invariant(self);
        }
        self.month
    }

    /// The day of the month, from 1.
    pub fn day(&self) -> (r: u32)
        ensures
            r == self@.day,
            1 <= r <= days_in_month(self@.year, self@.month),
    {
        proof {
            use_type_invariant(self);
        }
        self.day
    }
}

/// Reads the clock: `std::time::SystemTime::now()`, made a
/// `chrono::DateTime<Utc>` by chrono's `From<SystemTime>`, of which
/// `date_naive` gives the date and `chrono::Datelike` its three numbers.
///
/// The contract claims that the three numbers are a day of the proleptic
/// Gregorian calendar, which is what every `chrono::NaiveDate` is.  Which day
/// it is depends on the clock, so nothing more is said.  The conversion takes
/// a clock that stands before 1970 as it takes one that stands after.  It has
/// no date only for a time more than 262,000 years away, which no system
/// clock holds.
#[verifier::external_body]
fn utc_today() -> (ymd: (i32, u32, u32))
    ensures
        is_calendar_date(ymd.0 as int, ymd.1 as int, ymd.2 as int),
{
    let today = chrono::DateTime::<chrono::Utc>::from(std::time::SystemTime::now()).date_naive();
    (
        chrono::Datelike::year(&today),
        chrono::Datelike::month(&today),
        chrono::Datelike::day(&today),
    )
}

} // verus!
