use buongiornissimo_rs::moveable_feasts::{
    ascensione_date, corpus_domini_date, cuore_immacolato_di_maria_date, domenica_delle_palme_date,
    easter_date, giovedi_grasso_date, martedi_grasso_date, mercoled_ceneri_date, pasquetta_date,
    pentecoste_date, sacro_cuore_di_gesu_date, santissima_trinita_date,
};
use buongiornissimo_rs::Date;

#[test]
fn should_calc_easter_date() {
    assert_eq!(
        easter_date(2023),
        Date::from_ymd_opt(2023, 4, 9).unwrap()
    );
}

#[test]
fn should_calc_palme_date() {
    assert_eq!(
        domenica_delle_palme_date(2023),
        Date::from_ymd_opt(2023, 4, 2).unwrap()
    );
}

#[test]
fn should_calc_pasquetta_date() {
    assert_eq!(
        pasquetta_date(2023),
        Date::from_ymd_opt(2023, 4, 10).unwrap()
    );
}

#[test]
fn should_calc_giovedi_grasso_date() {
    assert_eq!(
        giovedi_grasso_date(2023),
        Date::from_ymd_opt(2023, 2, 16).unwrap()
    );
}

#[test]
fn should_calc_martedi_grasso_date() {
    assert_eq!(
        martedi_grasso_date(2023),
        Date::from_ymd_opt(2023, 2, 21).unwrap()
    );
}

#[test]
fn should_calc_mercoledi_ceneri_date() {
    assert_eq!(
        mercoled_ceneri_date(2023),
        Date::from_ymd_opt(2023, 2, 22).unwrap()
    );
}

#[test]
fn should_calc_ascensione_date() {
    assert_eq!(
        ascensione_date(2023),
        Date::from_ymd_opt(2023, 5, 21).unwrap()
    );
}

#[test]
fn should_calc_pentecoste_date() {
    assert_eq!(
        pentecoste_date(2023),
        Date::from_ymd_opt(2023, 5, 28).unwrap()
    );
}

#[test]
fn should_calc_santissima_trinita_date() {
    assert_eq!(
        santissima_trinita_date(2023),
        Date::from_ymd_opt(2023, 6, 4).unwrap()
    );
}

#[test]
fn should_calc_corpus_domini_date() {
    assert_eq!(
        corpus_domini_date(2023),
        Date::from_ymd_opt(2023, 6, 11).unwrap()
    );
}

#[test]
fn should_calc_sacro_cuore_di_gesu_date() {
    assert_eq!(
        sacro_cuore_di_gesu_date(2023),
        Date::from_ymd_opt(2023, 6, 16).unwrap()
    );
}

#[test]
fn should_calc_cuore_immacolato_di_maria_date() {
    assert_eq!(
        cuore_immacolato_di_maria_date(2023),
        Date::from_ymd_opt(2023, 6, 17).unwrap()
    );
}
