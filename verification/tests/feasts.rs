use buongiornissimo_rs::calendar::MAX_YEAR;
use buongiornissimo_rs::moveable_feasts::{
    ascensione_date, corpus_domini_date, cuore_immacolato_di_maria_date, domenica_delle_palme_date,
    easter_date, giovedi_grasso_date, martedi_grasso_date, mercoled_ceneri_date, pasquetta_date,
    pentecoste_date, sacro_cuore_di_gesu_date, santissima_trinita_date, FIRST_YEAR,
};
use buongiornissimo_rs::{Date, Weekday};

fn feast_day(year: i32, month: u32, day: u32) -> Date {
    Date::from_ymd_opt(year, month, day).unwrap()
}

fn as_chrono(date: Date) -> chrono::NaiveDate {
    chrono::NaiveDate::from_ymd_opt(date.year(), date.month(), date.day()).unwrap()
}

#[test]
fn easter_of_known_years() {
    assert_eq!(easter_date(1583), feast_day(1583, 4, 10));
    assert_eq!(easter_date(1961), feast_day(1961, 4, 2));
    assert_eq!(easter_date(2000), feast_day(2000, 4, 23));
    assert_eq!(easter_date(2019), feast_day(2019, 4, 21));
    assert_eq!(easter_date(2022), feast_day(2022, 4, 17));
    assert_eq!(easter_date(2024), feast_day(2024, 3, 31));
    assert_eq!(easter_date(2025), feast_day(2025, 4, 20));
}

#[test]
fn easter_of_the_first_gregorian_year() {
    assert_eq!(easter_date(FIRST_YEAR), feast_day(1582, 4, 18));
}

#[test]
fn easter_of_the_last_supported_year() {
    assert_eq!(easter_date(MAX_YEAR), feast_day(262_142, 4, 8));
}

#[test]
fn easter_at_its_earliest_and_latest() {
    assert_eq!(easter_date(1818), feast_day(1818, 3, 22));
    assert_eq!(easter_date(2285), feast_day(2285, 3, 22));
    assert_eq!(easter_date(1943), feast_day(1943, 4, 25));
    assert_eq!(easter_date(2038), feast_day(2038, 4, 25));
}

#[test]
fn easter_of_far_years() {
    assert_eq!(easter_date(3401), feast_day(3401, 3, 22));
    assert_eq!(easter_date(4332), feast_day(4332, 3, 27));
}

#[test]
fn easter_falls_in_march_or_april_on_a_sunday() {
    for year in (1582..=6000).chain(262_000..=MAX_YEAR) {
        let easter = easter_date(year);
        assert_eq!(easter.year(), year);
        assert!(easter.month() == 3 || easter.month() == 4, "year {}", year);
        if easter.month() == 3 {
            assert!(easter.day() >= 22, "year {}", year);
        } else {
            assert!(easter.day() <= 25, "year {}", year);
        }
        assert_eq!(easter.weekday(), Weekday::Sun, "year {}", year);
    }
}

#[test]
fn feasts_lie_at_their_offsets_from_easter() {
    for year in [1582, 1600, 1818, 1900, 1943, 2000, 2023, 2024, 2038, 2100, 2285, 4332, MAX_YEAR] {
        let easter = as_chrono(easter_date(year));
        let after = |days: i64| easter + chrono::Duration::days(days);
        assert_eq!(as_chrono(giovedi_grasso_date(year)), after(-52));
        assert_eq!(as_chrono(martedi_grasso_date(year)), after(-47));
        assert_eq!(as_chrono(mercoled_ceneri_date(year)), after(-46));
        assert_eq!(as_chrono(domenica_delle_palme_date(year)), after(-7));
        assert_eq!(as_chrono(pasquetta_date(year)), after(1));
        assert_eq!(as_chrono(ascensione_date(year)), after(42));
        assert_eq!(as_chrono(pentecoste_date(year)), after(49));
        assert_eq!(as_chrono(santissima_trinita_date(year)), after(56));
        assert_eq!(as_chrono(corpus_domini_date(year)), after(63));
        assert_eq!(as_chrono(sacro_cuore_di_gesu_date(year)), after(68));
        assert_eq!(as_chrono(cuore_immacolato_di_maria_date(year)), after(69));
    }
}

#[test]
fn feasts_of_a_leap_year() {
    assert_eq!(easter_date(2024), feast_day(2024, 3, 31));
    assert_eq!(giovedi_grasso_date(2024), feast_day(2024, 2, 8));
    assert_eq!(martedi_grasso_date(2024), feast_day(2024, 2, 13));
    assert_eq!(mercoled_ceneri_date(2024), feast_day(2024, 2, 14));
    assert_eq!(domenica_delle_palme_date(2024), feast_day(2024, 3, 24));
    assert_eq!(pasquetta_date(2024), feast_day(2024, 4, 1));
    assert_eq!(ascensione_date(2024), feast_day(2024, 5, 12));
    assert_eq!(pentecoste_date(2024), feast_day(2024, 5, 19));
    assert_eq!(santissima_trinita_date(2024), feast_day(2024, 5, 26));
    assert_eq!(corpus_domini_date(2024), feast_day(2024, 6, 2));
    assert_eq!(sacro_cuore_di_gesu_date(2024), feast_day(2024, 6, 7));
    assert_eq!(cuore_immacolato_di_maria_date(2024), feast_day(2024, 6, 8));
}

#[test]
fn feasts_at_the_edges_of_the_year() {
    assert_eq!(giovedi_grasso_date(1818), feast_day(1818, 1, 29));
    assert_eq!(giovedi_grasso_date(2008), feast_day(2008, 1, 31));
    assert_eq!(cuore_immacolato_di_maria_date(2038), feast_day(2038, 7, 3));
}

#[test]
fn feasts_are_the_same_when_asked_twice() {
    assert_eq!(easter_date(2023), easter_date(2023));
    assert_eq!(corpus_domini_date(2023), corpus_domini_date(2023));
}

#[test]
fn easter_agrees_with_bdays_through_the_year_3400() {
    for year in 1582..=3400 {
        assert_eq!(
            as_chrono(easter_date(year)),
            bdays::easter::easter_naive_date(year).unwrap(),
            "year {}",
            year
        );
    }
}
