use buongiornissimo_rs::{greeting_of_the_day, greeting_of_the_day_with, Date, Greeting, Weekday};

fn rule_day(year: i32, month: u32, day: u32) -> Date {
    Date::from_ymd_opt(year, month, day).unwrap()
}

#[test]
fn first_of_january_is_capodanno_in_every_year() {
    for year in [-262_143, -1, 0, 1, 1000, 1581, 1582, 2022, 2023, 2024, 262_142] {
        assert_eq!(greeting_of_the_day(rule_day(year, 1, 1), true), Greeting::Capodanno);
        assert_eq!(greeting_of_the_day(rule_day(year, 1, 1), false), Greeting::Capodanno);
        assert_eq!(greeting_of_the_day_with(rule_day(year, 1, 1), true, false), Greeting::Capodanno);
    }
}

#[test]
fn ordinary_days_get_the_good_morning() {
    assert_eq!(greeting_of_the_day(rule_day(2023, 7, 12), false), Greeting::BuonGiorno);
    assert_eq!(
        greeting_of_the_day(rule_day(2023, 7, 12), true),
        Greeting::BuonGiornoWeekday(Weekday::Wed)
    );
    assert_eq!(
        greeting_of_the_day(rule_day(2023, 7, 15), true),
        Greeting::BuonGiornoWeekday(Weekday::Sat)
    );
    assert_eq!(
        greeting_of_the_day(rule_day(2023, 7, 16), true),
        Greeting::BuonGiornoWeekday(Weekday::Sun)
    );
}

#[test]
fn the_same_inputs_give_the_same_greeting() {
    for (date, flag) in [(rule_day(2023, 4, 9), true), (rule_day(2022, 12, 5), true), (rule_day(2022, 12, 5), false)] {
        assert_eq!(greeting_of_the_day(date, flag), greeting_of_the_day(date, flag));
    }
}

#[test]
fn pentecoste_is_found() {
    assert_eq!(greeting_of_the_day(rule_day(2023, 5, 28), true), Greeting::Pentecoste);
}

#[test]
fn easter_wins_over_liberazione() {
    // Easter Sunday of 1943 and of 2038 falls on 25 April.
    assert_eq!(greeting_of_the_day(rule_day(2038, 4, 25), false), Greeting::Pasqua);
    assert_eq!(greeting_of_the_day(rule_day(1943, 4, 25), true), Greeting::Pasqua);
    assert_eq!(greeting_of_the_day_with(rule_day(2038, 4, 25), false, false), Greeting::Liberazione);
}

#[test]
fn san_valentino_wins_over_mercoledi_delle_ceneri() {
    // Ash Wednesday of 2024 falls on 14 February.
    assert_eq!(greeting_of_the_day(rule_day(2024, 2, 14), true), Greeting::SanValentino);
}

#[test]
fn festa_delle_donne_wins_over_martedi_grasso() {
    // Shrove Tuesday of 2011 falls on 8 March.
    assert_eq!(greeting_of_the_day(rule_day(2011, 3, 8), true), Greeting::FestaDelleDonne);
}

#[test]
fn ascensione_wins_over_festa_della_repubblica() {
    // Easter Sunday of 2019 falls on 21 April, so the Ascension falls on 2 June.
    assert_eq!(greeting_of_the_day(rule_day(2019, 6, 2), true), Greeting::Ascensione);
    assert_eq!(
        greeting_of_the_day_with(rule_day(2019, 6, 2), true, false),
        Greeting::FestaDellaRepubblica
    );
}

#[test]
fn festa_della_repubblica_wins_over_corpus_domini() {
    // Easter Sunday of 2024 falls on 31 March, so Corpus Domini falls on 2 June.
    assert_eq!(greeting_of_the_day(rule_day(2024, 6, 2), true), Greeting::FestaDellaRepubblica);
}

#[test]
fn without_moveable_feasts_only_fixed_dates_count() {
    assert_eq!(greeting_of_the_day_with(rule_day(2023, 4, 9), false, false), Greeting::BuonGiorno);
    assert_eq!(
        greeting_of_the_day_with(rule_day(2023, 4, 10), true, false),
        Greeting::BuonGiornoWeekday(Weekday::Mon)
    );
    assert_eq!(greeting_of_the_day_with(rule_day(2023, 6, 11), false, false), Greeting::BuonGiorno);
    assert_eq!(greeting_of_the_day_with(rule_day(2023, 12, 25), false, false), Greeting::Natale);
    assert_eq!(greeting_of_the_day_with(rule_day(2023, 4, 9), false, true), Greeting::Pasqua);
}

#[test]
fn before_the_gregorian_calendar_only_fixed_dates_count() {
    assert_eq!(greeting_of_the_day(rule_day(1581, 3, 26), false), Greeting::BuonGiorno);
    assert_eq!(greeting_of_the_day(rule_day(1500, 12, 25), true), Greeting::Natale);
    assert_eq!(greeting_of_the_day(rule_day(-50, 8, 15), true), Greeting::Ferragosto);
    assert_eq!(
        greeting_of_the_day(rule_day(1, 1, 2), true),
        Greeting::BuonGiornoWeekday(Weekday::Tue)
    );
}

#[test]
fn the_first_gregorian_year_has_its_feasts() {
    assert_eq!(greeting_of_the_day(rule_day(1582, 4, 18), true), Greeting::Pasqua);
    assert_eq!(greeting_of_the_day(rule_day(1582, 4, 19), true), Greeting::Pasquetta);
}

#[test]
fn every_moveable_feast_of_a_leap_year_is_found() {
    assert_eq!(greeting_of_the_day(rule_day(2024, 2, 8), false), Greeting::GiovediGrasso);
    assert_eq!(greeting_of_the_day(rule_day(2024, 2, 13), false), Greeting::MartediGrasso);
    assert_eq!(greeting_of_the_day(rule_day(2024, 3, 24), false), Greeting::DomenicaDellePalme);
    assert_eq!(greeting_of_the_day(rule_day(2024, 3, 31), false), Greeting::Pasqua);
    assert_eq!(greeting_of_the_day(rule_day(2024, 4, 1), false), Greeting::Pasquetta);
    assert_eq!(greeting_of_the_day(rule_day(2024, 5, 12), false), Greeting::Ascensione);
    assert_eq!(greeting_of_the_day(rule_day(2024, 5, 19), false), Greeting::Pentecoste);
    assert_eq!(greeting_of_the_day(rule_day(2024, 5, 26), false), Greeting::SantissimaTrinita);
    assert_eq!(greeting_of_the_day(rule_day(2024, 6, 7), false), Greeting::SacroCuoreDiGesu);
    assert_eq!(greeting_of_the_day(rule_day(2024, 6, 8), false), Greeting::CuoreImmacolatoDiMaria);
}

#[test]
fn mercoledi_delle_ceneri_of_2025() {
    assert_eq!(greeting_of_the_day(rule_day(2025, 3, 5), false), Greeting::MercolediCeneri);
}

#[test]
fn days_next_to_an_observance_are_ordinary() {
    assert_eq!(greeting_of_the_day(rule_day(2023, 12, 23), false), Greeting::BuonGiorno);
    assert_eq!(greeting_of_the_day(rule_day(2023, 12, 27), false), Greeting::BuonGiorno);
    assert_eq!(greeting_of_the_day(rule_day(2023, 1, 2), false), Greeting::BuonGiorno);
    assert_eq!(greeting_of_the_day(rule_day(2023, 4, 11), false), Greeting::BuonGiorno);
}
