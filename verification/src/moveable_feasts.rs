//! Moveable feasts: Easter Sunday of a Gregorian year, and the feasts that
//! lie a fixed number of days before or after it.
use vstd::prelude::*;
use crate::calendar::{
    add_days, days_before_year, is_leap_year, lemma_days_before_month, CivilDate, Date, Weekday,
    MAX_YEAR,
};

verus! {

/// The first year of the Gregorian calendar.
pub const FIRST_YEAR: i32 = 1582;

/// Days from Easter Sunday to Giovedì Grasso.
pub const GIOVEDI_GRASSO_OFFSET: i64 = -52;

/// Days from Easter Sunday to Martedì Grasso.
pub const MARTEDI_GRASSO_OFFSET: i64 = -47;

/// Days from Easter Sunday to Mercoledì delle Ceneri.
pub const MERCOLEDI_CENERI_OFFSET: i64 = -46;

/// Days from Easter Sunday to Domenica delle Palme.
pub const DOMENICA_DELLE_PALME_OFFSET: i64 = -7;

/// Days from Easter Sunday to Pasquetta.
pub const PASQUETTA_OFFSET: i64 = 1;

/// Days from Easter Sunday to Ascensione.
pub const ASCENSIONE_OFFSET: i64 = 42;

/// Days from Easter Sunday to Pentecoste.
pub const PENTECOSTE_OFFSET: i64 = 49;

/// Days from Easter Sunday to Santissima Trinità.
pub const SANTISSIMA_TRINITA_OFFSET: i64 = 56;

/// Days from Easter Sunday to Corpus Domini.
pub const CORPUS_DOMINI_OFFSET: i64 = 63;

/// Days from Corpus Domini to Sacro Cuore di Gesù.
pub const SACRO_CUORE_DI_GESU_AFTER_CORPUS_DOMINI: i64 = 5;

/// Days from Corpus Domini to Cuore Immacolato di Maria.
pub const CUORE_IMMACOLATO_DI_MARIA_AFTER_CORPUS_DOMINI: i64 = 6;

/// Days from 21 March to the Paschal full moon of `year`, before full moons
/// that fall too late are moved a week back.
pub open spec fn paschal_full_moon(year: int) -> int {
    let century = year / 100;
    let solar = century / 4;
    let lunar = (century - (century + 8) / 25 + 1) / 3;
    (19 * (year % 19) + century - solar - lunar + 15) % 30
}

/// Days from the day after the Paschal full moon of `year` to the first
/// Sunday from that day on.
pub open spec fn days_to_sunday(year: int) -> int {
    let century = year / 100;
    let rest = year % 100;
    (32 + 2 * (century % 4) + 2 * (rest / 4) - paschal_full_moon(year) - rest % 4) % 7
}

/// Days from 22 March to Easter Sunday of `year`, by the Gregorian computus:
/// the first Sunday after the Paschal full moon.
pub open spec fn easter_after_22_march(year: int) -> int {
    let moon = paschal_full_moon(year);
    let sunday = days_to_sunday(year);
    moon + sunday - 7 * ((year % 19 + 11 * moon + 22 * sunday) / 451)
}

/// Easter Sunday of `year`.
pub open spec fn easter(year: int) -> CivilDate {
    let n = easter_after_22_march(year);
    if n < 10 {
        CivilDate { year, month: 3, day: 22 + n }
    } else {
        CivilDate { year, month: 4, day: n - 9 }
    }
}

/// The date of `year` that lies `days` days after Easter Sunday: the valid
/// date of that year whose day of the year is that of Easter plus `days`.
pub open spec fn is_days_after_easter(date: CivilDate, year: int, days: int) -> bool {
    &&& date.is_valid()
    &&& date.year == year
    &&& date.ordinal() == easter(year).ordinal() + days
}

/// Easter Sunday falls from 22 March to 25 April, in every year from 0 on.
#[verifier::rlimit(50)]
pub proof fn lemma_easter_in_march_or_april(year: int)
    requires
        0 <= year,
    ensures
        0 <= easter_after_22_march(year) <= 34,
        easter(year).is_valid(),
        easter(year).year == year,
        easter(year).month == 3 || easter(year).month == 4,
        easter(year).month == 3 ==> 22 <= easter(year).day <= 31,
        easter(year).month == 4 ==> 1 <= easter(year).day <= 25,
        81 <= easter(year).ordinal() <= 116,
{
    lemma_days_before_month(year);
}

/// The leap days up to and with that of `year` itself, counted by the
/// centuries of the year and the rest.
proof fn lemma_leap_days(year: int)
    requires
        0 <= year,
    ensures
        (year - 1) / 4 - (year - 1) / 100 + (year - 1) / 400 + (if is_leap_year(year) {
            1int
        } else {
            0
        }) == 25 * (year / 100) + (year % 100) / 4 - year / 100 + (year / 100) / 4,
{
    let century = year / 100;
    let rest = year % 100;
    assert(year == 100 * century + rest);
    assert(year / 4 == 25 * century + rest / 4);
    assert(year / 400 == century / 4);
    assert((year - 1) / 4 + (if year % 4 == 0 {
        1int
    } else {
        0
    }) == year / 4);
    assert((year - 1) / 100 + (if year % 100 == 0 {
        1int
    } else {
        0
    }) == year / 100);
    assert((year - 1) / 400 + (if year % 400 == 0 {
        1int
    } else {
        0
    }) == year / 400);
}

/// A day number built as that of Easter Sunday is a multiple of 7, whatever
/// the full moon and the weeks taken off.
proof fn lemma_sunday_arithmetic(century: int, rest: int, moon: int, sunday: int, late: int)
    requires
        0 <= century,
        0 <= rest < 100,
        sunday == (32 + 2 * (century % 4) + 2 * (rest / 4) - moon - rest % 4) % 7,
    ensures
        (365 * (100 * century + rest - 1) + 25 * century + rest / 4 - century + century / 4 + 81
            + moon + sunday - 7 * late) % 7 == 0,
{
    let quarter = century / 4;
    let century_rest = century % 4;
    let leap_years = rest / 4;
    let year_rest = rest % 4;
    let weeks = (32 + 2 * century_rest + 2 * leap_years - moon - year_rest) / 7;
    assert(sunday == 32 + 2 * century_rest + 2 * leap_years - moon - year_rest - 7 * weeks);
    assert(century == 4 * quarter + century_rest);
    assert(rest == 4 * leap_years + year_rest);
    assert(365 * (100 * century + rest - 1) + 25 * century + rest / 4 - century + century / 4 + 81
        + moon + sunday - 7 * late == 7 * (20871 * quarter + 5218 * century_rest + 209
        * leap_years + 52 * year_rest - 36 - weeks - late));
}

/// The day number of Easter Sunday, counted from the centuries of the year
/// and the rest.
#[verifier::rlimit(50)]
proof fn lemma_easter_day_number(year: int)
    requires
        0 <= year,
    ensures
        easter(year).day_number() == 365 * (year - 1) + 25 * (year / 100) + (year % 100) / 4 - year
            / 100 + (year / 100) / 4 + 81 + easter_after_22_march(year),
{
    lemma_easter_in_march_or_april(year);
    lemma_days_before_month(year);
    lemma_leap_days(year);
}

/// Easter Sunday is a Sunday.
#[verifier::rlimit(50)]
pub proof fn lemma_easter_is_a_sunday(year: int)
    requires
        0 <= year,
    ensures
        easter(year).weekday() == Weekday::Sun,
{
    lemma_easter_day_number(year);
    let moon = paschal_full_moon(year);
    let sunday = days_to_sunday(year);
    let late = (year % 19 + 11 * moon + 22 * sunday) / 451;
    lemma_sunday_arithmetic(year / 100, year % 100, moon, sunday, late);
    assert(year == 100 * (year / 100) + year % 100);
}

/// A day that lies `days` days after a Sunday of its year has a day number
/// that leaves the same rest as `days` when divided by 7.
proof fn lemma_days_after_a_sunday(date: CivilDate, sunday: CivilDate, days: int)
    requires
        date.year == sunday.year,
        date.ordinal() == sunday.ordinal() + days,
        sunday.weekday() == Weekday::Sun,
    ensures
        date.day_number() == sunday.day_number() + days,
        date.day_number() % 7 == days % 7,
{
    assert(sunday.day_number() % 7 == 0);
}

/// A feast falls on the day of the week that lies as many days after Sunday
/// as the feast lies after Easter Sunday, counted in whole weeks and a rest.
#[verifier::rlimit(50)]
pub proof fn lemma_feast_weekday(date: CivilDate, year: int, days: int)
    requires
        0 <= year,
        is_days_after_easter(date, year, days),
    ensures
        date.day_number() % 7 == days % 7,
{
    lemma_easter_is_a_sunday(year);
    lemma_days_after_a_sunday(date, easter(year), days);
}

/// A feast that lies `days` days from Easter Sunday of `year` is that many
/// days from it by the running day number too.
pub proof fn lemma_feast_offset_is_exact(date: CivilDate, year: int, days: int)
    requires
        is_days_after_easter(date, year, days),
    ensures
        date.day_number() == easter(year).day_number() + days,
{
}

/// Easter Sunday of `year`.
#[verifier::rlimit(50)]
pub fn easter_date(year: i32) -> (date: Date)
    requires
        FIRST_YEAR <= year <= MAX_YEAR,
    ensures
        date@ == easter(year as int),
        date@.month == 3 || date@.month == 4,
{
    let golden: i32 = year % 19;
    let century: i32 = year / 100;
    let rest: i32 = year % 100;
    let solar: i32 = century / 4;
    let lunar: i32 = (century - (century + 8) / 25 + 1) / 3;
    let moon: i32 = (19 * golden + century - solar - lunar + 15) % 30;
    let sunday: i32 = (32 + 2 * (century % 4) + 2 * (rest / 4) - moon - rest % 4) % 7;
    let n: i32 = moon + sunday - 7 * ((golden + 11 * moon + 22 * sunday) / 451);
    proof {
        lemma_easter_in_march_or_april(year as int);
        assert(moon == paschal_full_moon(year as int));
        assert(sunday == days_to_sunday(year as int));
        assert(n == easter_after_22_march(year as int));
    }
    if n < 10 {
        Date::from_valid_ymd(year, 3, (22 + n) as u32)
    } else {
        Date::from_valid_ymd(year, 4, (n - 9) as u32)
    }
}

/// The date `days` days from Easter Sunday of `year`, for a feast from
/// Giovedì Grasso to Cuore Immacolato di Maria.
fn feast_date(year: i32, days: i64) -> (date: Date)
    requires
        FIRST_YEAR <= year <= MAX_YEAR,
        -52 <= days <= 69,
    ensures
        is_days_after_easter(date@, year as int, days as int),
{
    let easter = easter_date(year);
    proof {
        lemma_easter_in_march_or_april(year as int);
    }
    add_days(easter, days)
}

/// Domenica delle Palme of `year`: 7 days before Easter Sunday.
pub fn domenica_delle_palme_date(year: i32) -> (date: Date)
    requires
        FIRST_YEAR <= year <= MAX_YEAR,
    ensures
        is_days_after_easter(date@, year as int, DOMENICA_DELLE_PALME_OFFSET as int),
{
    feast_date(year, DOMENICA_DELLE_PALME_OFFSET)
}

/// Pasquetta of `year`: the day after Easter Sunday.
pub fn pasquetta_date(year: i32) -> (date: Date)
    requires
        FIRST_YEAR <= year <= MAX_YEAR,
    ensures
        is_days_after_easter(date@, year as int, PASQUETTA_OFFSET as int),
{
    feast_date(year, PASQUETTA_OFFSET)
}

/// Giovedì Grasso of `year`: 52 days before Easter Sunday.
pub fn giovedi_grasso_date(year: i32) -> (date: Date)
    requires
        FIRST_YEAR <= year <= MAX_YEAR,
    ensures
        is_days_after_easter(date@, year as int, GIOVEDI_GRASSO_OFFSET as int),
{
    feast_date(year, GIOVEDI_GRASSO_OFFSET)
}

/// Martedì Grasso of `year`: 47 days before Easter Sunday.
pub fn martedi_grasso_date(year: i32) -> (date: Date)
    requires
        FIRST_YEAR <= year <= MAX_YEAR,
    ensures
        is_days_after_easter(date@, year as int, MARTEDI_GRASSO_OFFSET as int),
{
    feast_date(year, MARTEDI_GRASSO_OFFSET)
}

/// Mercoledì delle Ceneri of `year`: 46 days before Easter Sunday.
pub fn mercoled_ceneri_date(year: i32) -> (date: Date)
    requires
        FIRST_YEAR <= year <= MAX_YEAR,
    ensures
        is_days_after_easter(date@, year as int, MERCOLEDI_CENERI_OFFSET as int),
{
    feast_date(year, MERCOLEDI_CENERI_OFFSET)
}

/// Ascensione of `year`: 42 days after Easter Sunday.
pub fn ascensione_date(year: i32) -> (date: Date)
    requires
        FIRST_YEAR <= year <= MAX_YEAR,
    ensures
        is_days_after_easter(date@, year as int, ASCENSIONE_OFFSET as int),
{
    feast_date(year, ASCENSIONE_OFFSET)
}

/// Pentecoste of `year`: 49 days after Easter Sunday.
pub fn pentecoste_date(year: i32) -> (date: Date)
    requires
        FIRST_YEAR <= year <= MAX_YEAR,
    ensures
        is_days_after_easter(date@, year as int, PENTECOSTE_OFFSET as int),
{
    feast_date(year, PENTECOSTE_OFFSET)
}

/// Santissima Trinità of `year`: 56 days after Easter Sunday.
pub fn santissima_trinita_date(year: i32) -> (date: Date)
    requires
        FIRST_YEAR <= year <= MAX_YEAR,
    ensures
        is_days_after_easter(date@, year as int, SANTISSIMA_TRINITA_OFFSET as int),
{
    feast_date(year, SANTISSIMA_TRINITA_OFFSET)
}

/// Corpus Domini of `year`: 63 days after Easter Sunday.
pub fn corpus_domini_date(year: i32) -> (date: Date)
    requires
        FIRST_YEAR <= year <= MAX_YEAR,
    ensures
        is_days_after_easter(date@, year as int, CORPUS_DOMINI_OFFSET as int),
{
    feast_date(year, CORPUS_DOMINI_OFFSET)
}

/// Sacro Cuore di Gesù of `year`: 5 days after Corpus Domini.
pub fn sacro_cuore_di_gesu_date(year: i32) -> (date: Date)
    requires
        FIRST_YEAR <= year <= MAX_YEAR,
    ensures
        is_days_after_easter(
            date@,
            year as int,
            CORPUS_DOMINI_OFFSET + SACRO_CUORE_DI_GESU_AFTER_CORPUS_DOMINI,
        ),
{
    let corpus_domini = corpus_domini_date(year);
    proof {
        lemma_easter_in_march_or_april(year as int);
    }
    add_days(corpus_domini, SACRO_CUORE_DI_GESU_AFTER_CORPUS_DOMINI)
}

/// Cuore Immacolato di Maria of `year`: 6 days after Corpus Domini.
pub fn cuore_immacolato_di_maria_date(year: i32) -> (date: Date)
    requires
        FIRST_YEAR <= year <= MAX_YEAR,
    ensures
        is_days_after_easter(
            date@,
            year as int,
            CORPUS_DOMINI_OFFSET + CUORE_IMMACOLATO_DI_MARIA_AFTER_CORPUS_DOMINI,
        ),
{
    let corpus_domini = corpus_domini_date(year);
    proof {
        lemma_easter_in_march_or_april(year as int);
    }
    add_days(corpus_domini, CUORE_IMMACOLATO_DI_MARIA_AFTER_CORPUS_DOMINI)
}

} // verus!
