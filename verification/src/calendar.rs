//! Calendar dates of the proleptic Gregorian calendar.
//!
//! A [`Date`] is a valid year, month and day. Its mathematical model is a
//! [`CivilDate`], over which the day of the year, the running day number and
//! the day of the week are defined. Shifting a date by days and reading its
//! weekday are done by `chrono`.
use vstd::prelude::*;

verus! {

/// The earliest year a [`Date`] can hold.
pub const MIN_YEAR: i32 = -262_143;

/// The latest year a [`Date`] can hold.
pub const MAX_YEAR: i32 = 262_142;

/// Day of the week.
#[derive(Debug, Clone, Copy, PartialEq, Eq, Hash, Structural)]
pub enum Weekday {
    Mon,
    Tue,
    Wed,
    Thu,
    Fri,
    Sat,
    Sun,
}

/// A year, a month and a day as mathematical integers.
pub struct CivilDate {
    pub year: int,
    pub month: int,
    pub day: int,
}

/// Whether `year` has a 29th of February.
pub open spec fn is_leap_year(year: int) -> bool {
    year % 4 == 0 && (year % 100 != 0 || year % 400 == 0)
}

/// Number of days of `month` in `year`; 0 where `month` is no month.
pub open spec fn days_in_month(year: int, month: int) -> int {
    if month == 2 {
        if is_leap_year(year) {
            29
        } else {
            28
        }
    } else if month == 4 || month == 6 || month == 9 || month == 11 {
        30
    } else if 1 <= month <= 12 {
        31
    } else {
        0
    }
}

/// Number of days of `year` that lie before the first of `month`.
pub open spec fn days_before_month(year: int, month: int) -> int
    decreases month,
{
    if month <= 1 {
        0
    } else {
        days_before_month(year, month - 1) + days_in_month(year, month - 1)
    }
}

/// Number of days from 1 January of year 1 up to, and without, 1 January of `year`.
pub open spec fn days_before_year(year: int) -> int {
    365 * (year - 1) + (year - 1) / 4 - (year - 1) / 100 + (year - 1) / 400
}

impl CivilDate {
    /// The month is one of the twelve and the day exists in it.
    pub open spec fn is_valid(self) -> bool {
        1 <= self.month <= 12 && 1 <= self.day <= days_in_month(self.year, self.month)
    }

    /// Day of the year: 1 for 1 January.
    pub open spec fn ordinal(self) -> int {
        days_before_month(self.year, self.month) + self.day
    }

    /// Running day number: 1 for 1 January of year 1.
    pub open spec fn day_number(self) -> int {
        days_before_year(self.year) + self.ordinal()
    }

    /// Day of the week: day number 1 is a Monday.
    pub open spec fn weekday(self) -> Weekday {
        let r = self.day_number() % 7;
        if r == 1 {
            Weekday::Mon
        } else if r == 2 {
            Weekday::Tue
        } else if r == 3 {
            Weekday::Wed
        } else if r == 4 {
            Weekday::Thu
        } else if r == 5 {
            Weekday::Fri
        } else if r == 6 {
            Weekday::Sat
        } else {
            Weekday::Sun
        }
    }
}

/// A valid calendar date with a year from [`MIN_YEAR`] to [`MAX_YEAR`].
#[derive(Debug, Clone, Copy, PartialEq, Eq, Hash, Structural)]
pub struct Date {
    year: i32,
    month: u32,
    day: u32,
}

impl View for Date {
    type V = CivilDate;

    closed spec fn view(&self) -> CivilDate {
        CivilDate { year: self.year as int, month: self.month as int, day: self.day as int }
    }
}

/// The values of `days_before_month` for each month, spelled out.
pub proof fn lemma_days_before_month(year: int)
    ensures
        days_before_month(year, 1) == 0,
        days_before_month(year, 2) == 31,
        days_before_month(year, 3) == 59 + if is_leap_year(year) { 1int } else { 0 },
        days_before_month(year, 4) == days_before_month(year, 3) + 31,
        days_before_month(year, 5) == days_before_month(year, 3) + 61,
        days_before_month(year, 6) == days_before_month(year, 3) + 92,
        days_before_month(year, 7) == days_before_month(year, 3) + 122,
        days_before_month(year, 8) == days_before_month(year, 3) + 153,
        days_before_month(year, 9) == days_before_month(year, 3) + 184,
        days_before_month(year, 10) == days_before_month(year, 3) + 214,
        days_before_month(year, 11) == days_before_month(year, 3) + 245,
        days_before_month(year, 12) == days_before_month(year, 3) + 275,
{
    reveal_with_fuel(days_before_month, 13);
}

/// Two valid dates of one year with the same day of the year are the same date.
pub proof fn lemma_ordinal_determines_date(a: CivilDate, b: CivilDate)
    requires
        a.is_valid(),
        b.is_valid(),
        a.year == b.year,
        a.ordinal() == b.ordinal(),
    ensures
        a == b,
{
    lemma_days_before_month(a.year);
}

/// Two dates are the same value exactly when they stand for the same day.
pub proof fn lemma_view_determines_date(a: Date, b: Date)
    ensures
        (a@ == b@) == (a == b),
{
}

impl Date {
    #[verifier::type_invariant]
    closed spec fn well_formed(self) -> bool {
        self@.is_valid() && MIN_YEAR <= self.year <= MAX_YEAR
    }

    /// The date of the given year, month and day, if there is such a day and
    /// the year lies from [`MIN_YEAR`] to [`MAX_YEAR`].
    pub fn from_ymd_opt(year: i32, month: u32, day: u32) -> (date: Option<Date>)
        ensures
            date is Some <==> (CivilDate {
                year: year as int,
                month: month as int,
                day: day as int,
            }).is_valid() && MIN_YEAR <= year <= MAX_YEAR,
            date matches Some(d) ==> d@ == (CivilDate {
                year: year as int,
                month: month as int,
                day: day as int,
            }),
    {
        if year < MIN_YEAR || year > MAX_YEAR || month < 1 || month > 12 || day < 1 {
            return None;
        }
        let shifted: i32 = year + 262_400;
        let leap: bool = shifted % 4 == 0 && (shifted % 100 != 0 || shifted % 400 == 0);
        let length: u32 = if month == 2 {
            if leap {
                29
            } else {
                28
            }
        } else if month == 4 || month == 6 || month == 9 || month == 11 {
            30
        } else {
            31
        };
        if day > length {
            return None;
        }
        Some(Date { year, month, day })
    }

    /// The date of the given year, month and day, where there is such a day.
    pub(crate) fn from_valid_ymd(year: i32, month: u32, day: u32) -> (date: Date)
        requires
            (CivilDate { year: year as int, month: month as int, day: day as int }).is_valid(),
            MIN_YEAR <= year <= MAX_YEAR,
        ensures
            date@ == (CivilDate { year: year as int, month: month as int, day: day as int }),
    {
        Date { year, month, day }
    }

    /// The year.
    pub fn year(&self) -> (year: i32)
        ensures
            year == self@.year,
            MIN_YEAR <= year <= MAX_YEAR,
    {
        proof {
            use_type_invariant(self);
        }
        self.year
    }

    /// The month, from 1 to 12.
    pub fn month(&self) -> (month: u32)
        ensures
            month == self@.month,
            1 <= month <= 12,
    {
        proof {
            use_type_invariant(self);
        }
        self.month
    }

    /// The day of the month, from 1.
    pub fn day(&self) -> (day: u32)
        ensures
            day == self@.day,
            1 <= day <= days_in_month(self@.year, self@.month),
    {
        proof {
            use_type_invariant(self);
        }
        self.day
    }

    /// The day of the week.
    pub fn weekday(&self) -> (weekday: Weekday)
        ensures
            weekday == self@.weekday(),
    {
        weekday_of(*self)
    }
}

/// `chrono::NaiveDate + chrono::Duration::days(days)`, for a shift that stays
/// within the date's year: the result is the date of the same year whose day
/// of the year is `days` more. chrono adds whole days along the proleptic
/// Gregorian calendar.
#[verifier::external_body]
pub(crate) fn add_days(date: Date, days: i64) -> (shifted: Date)
    requires
        1 <= date@.ordinal() + days <= 365,
    ensures
        shifted@.is_valid(),
        shifted@.year == date@.year,
        shifted@.ordinal() == date@.ordinal() + days,
{
    let start = chrono::NaiveDate::from_ymd_opt(date.year, date.month, date.day).unwrap();
    let end = start + chrono::Duration::days(days);
    Date {
        year: chrono::Datelike::year(&end),
        month: chrono::Datelike::month(&end),
        day: chrono::Datelike::day(&end),
    }
}

/// `chrono::Datelike::weekday` of a `chrono::NaiveDate`: the day of the week
/// of the date, where 1 January of year 1 is a Monday.
#[verifier::external_body]
pub(crate) fn weekday_of(date: Date) -> (weekday: Weekday)
    ensures
        weekday == date@.weekday(),
{
    let day = chrono::NaiveDate::from_ymd_opt(date.year, date.month, date.day).unwrap();
    match chrono::Datelike::weekday(&day) {
        chrono::Weekday::Mon => Weekday::Mon,
        chrono::Weekday::Tue => Weekday::Tue,
        chrono::Weekday::Wed => Weekday::Wed,
        chrono::Weekday::Thu => Weekday::Thu,
        chrono::Weekday::Fri => Weekday::Fri,
        chrono::Weekday::Sat => Weekday::Sat,
        chrono::Weekday::Sun => Weekday::Sun,
    }
}

} // verus!
