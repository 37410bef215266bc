//! The greeting that a calendar date calls for.
//!
//! Observances are tried in a fixed order and the first that matches wins;
//! a date that matches none gets the plain good morning.
use vstd::prelude::*;
use crate::calendar::{
    lemma_ordinal_determines_date, lemma_view_determines_date, CivilDate, Date, Weekday,
};
use crate::moveable_feasts::{
    ascensione_date, corpus_domini_date, cuore_immacolato_di_maria_date, domenica_delle_palme_date,
    easter_date, giovedi_grasso_date, is_days_after_easter, martedi_grasso_date,
    mercoled_ceneri_date, pasquetta_date, pentecoste_date, sacro_cuore_di_gesu_date,
    santissima_trinita_date, ASCENSIONE_OFFSET, CORPUS_DOMINI_OFFSET,
    CUORE_IMMACOLATO_DI_MARIA_AFTER_CORPUS_DOMINI, DOMENICA_DELLE_PALME_OFFSET, FIRST_YEAR,
    GIOVEDI_GRASSO_OFFSET, MARTEDI_GRASSO_OFFSET, MERCOLEDI_CENERI_OFFSET, PASQUETTA_OFFSET,
    PENTECOSTE_OFFSET, SACRO_CUORE_DI_GESU_AFTER_CORPUS_DOMINI, SANTISSIMA_TRINITA_OFFSET,
};

verus! {

/// A kind of greeting.
#[derive(Debug, Copy, Clone, Eq, PartialEq, Hash, Structural)]
pub enum Greeting {
    BuonGiorno,
    /// Good morning that names the day of the week.
    BuonGiornoWeekday(Weekday),
    Weekend,
    BuonPomeriggio,
    BuonPranzo,
    BuonaNotte,
    BuonaSerata,
    BuonaCena,
    Compleanno,
    Capodanno,
    Epifania,
    SanValentino,
    GiovediGrasso,
    MartediGrasso,
    MercolediCeneri,
    FestaDelleDonne,
    FestaDelPapa,
    FestaDellaMamma,
    DomenicaDellePalme,
    Pasqua,
    Pasquetta,
    Liberazione,
    FestaDeiLavoratori,
    Ascensione,
    Pentecoste,
    DueGiugno,
    SantissimaTrinita,
    FestaDellaRepubblica,
    SacroCuoreDiGesu,
    CuoreImmacolatoDiMaria,
    CorpusDomini,
    Ferragosto,
    Halloween,
    /// 1 November.
    Ognissanti,
    /// 2 November.
    Defunti,
    /// 6 December.
    SanNicola,
    /// 7 December.
    SantAmbrogio,
    /// 8 December.
    ImmacolataConcenzione,
    /// 13 December.
    SantaLucia,
    VigiliaDiNatale,
    Natale,
    SantoStefano,
    /// 31 December.
    SanSilvestro,
}

/// Whether `date` is the feast `days` days after Easter Sunday of its year.
/// No feast is known before the first Gregorian year.
pub open spec fn is_feast(date: CivilDate, days: int) -> bool {
    FIRST_YEAR <= date.year && is_days_after_easter(date, date.year, days)
}

/// The observances with a fixed date that come before the feasts of the
/// Easter cycle.
pub open spec fn winter_observance(month: int, day: int) -> Option<Greeting> {
    if month == 1 && day == 1 {
        Some(Greeting::Capodanno)
    } else if month == 1 && day == 6 {
        Some(Greeting::Epifania)
    } else if month == 2 && day == 14 {
        Some(Greeting::SanValentino)
    } else if month == 3 && day == 8 {
        Some(Greeting::FestaDelleDonne)
    } else {
        None
    }
}

/// The feasts from Giovedì Grasso to Santissima Trinità, in their order of
/// precedence.
pub open spec fn easter_cycle_feast(date: CivilDate) -> Option<Greeting> {
    if is_feast(date, GIOVEDI_GRASSO_OFFSET as int) {
        Some(Greeting::GiovediGrasso)
    } else if is_feast(date, MARTEDI_GRASSO_OFFSET as int) {
        Some(Greeting::MartediGrasso)
    } else if is_feast(date, MERCOLEDI_CENERI_OFFSET as int) {
        Some(Greeting::MercolediCeneri)
    } else if is_feast(date, DOMENICA_DELLE_PALME_OFFSET as int) {
        Some(Greeting::DomenicaDellePalme)
    } else if is_feast(date, 0) {
        Some(Greeting::Pasqua)
    } else if is_feast(date, PASQUETTA_OFFSET as int) {
        Some(Greeting::Pasquetta)
    } else if is_feast(date, ASCENSIONE_OFFSET as int) {
        Some(Greeting::Ascensione)
    } else if is_feast(date, PENTECOSTE_OFFSET as int) {
        Some(Greeting::Pentecoste)
    } else if is_feast(date, SANTISSIMA_TRINITA_OFFSET as int) {
        Some(Greeting::SantissimaTrinita)
    } else {
        None
    }
}

/// The observances with a fixed date from 25 April to 2 June.
pub open spec fn spring_observance(month: int, day: int) -> Option<Greeting> {
    if month == 4 && day == 25 {
        Some(Greeting::Liberazione)
    } else if month == 5 && day == 1 {
        Some(Greeting::FestaDeiLavoratori)
    } else if month == 6 && day == 2 {
        Some(Greeting::FestaDellaRepubblica)
    } else {
        None
    }
}

/// The feasts from Corpus Domini on, in their order of precedence.
pub open spec fn corpus_domini_feast(date: CivilDate) -> Option<Greeting> {
    if is_feast(date, CORPUS_DOMINI_OFFSET as int) {
        Some(Greeting::CorpusDomini)
    } else if is_feast(date, CORPUS_DOMINI_OFFSET + SACRO_CUORE_DI_GESU_AFTER_CORPUS_DOMINI) {
        Some(Greeting::SacroCuoreDiGesu)
    } else if is_feast(date, CORPUS_DOMINI_OFFSET + CUORE_IMMACOLATO_DI_MARIA_AFTER_CORPUS_DOMINI) {
        Some(Greeting::CuoreImmacolatoDiMaria)
    } else {
        None
    }
}

/// The observances with a fixed date from 15 August on.
pub open spec fn late_observance(month: int, day: int) -> Option<Greeting> {
    if month == 8 && day == 15 {
        Some(Greeting::Ferragosto)
    } else if month == 10 && day == 31 {
        Some(Greeting::Halloween)
    } else if month == 11 && day == 1 {
        Some(Greeting::Ognissanti)
    } else if month == 11 && day == 2 {
        Some(Greeting::Defunti)
    } else if month == 12 && day == 8 {
        Some(Greeting::ImmacolataConcenzione)
    } else if month == 12 && day == 24 {
        Some(Greeting::VigiliaDiNatale)
    } else if month == 12 && day == 25 {
        Some(Greeting::Natale)
    } else if month == 12 && day == 26 {
        Some(Greeting::SantoStefano)
    } else {
        None
    }
}

/// The observance of `date`, if it has one: the first, in the order of
/// precedence, that falls on it. The moveable feasts count only where
/// `moveable_feasts` is set.
pub open spec fn observance(date: CivilDate, moveable_feasts: bool) -> Option<Greeting> {
    if winter_observance(date.month, date.day) is Some {
        winter_observance(date.month, date.day)
    } else if moveable_feasts && easter_cycle_feast(date) is Some {
        easter_cycle_feast(date)
    } else if spring_observance(date.month, date.day) is Some {
        spring_observance(date.month, date.day)
    } else if moveable_feasts && corpus_domini_feast(date) is Some {
        corpus_domini_feast(date)
    } else {
        late_observance(date.month, date.day)
    }
}

/// The greeting for `date`: its observance, or else the good morning, which
/// names the day of the week where `use_weekday` is set.
pub open spec fn greeting_for(
    date: CivilDate,
    use_weekday: bool,
    moveable_feasts: bool,
) -> Greeting {
    match observance(date, moveable_feasts) {
        Some(greeting) => greeting,
        None => if use_weekday {
            Greeting::BuonGiornoWeekday(date.weekday())
        } else {
            Greeting::BuonGiorno
        },
    }
}

/// The greeting of a date does not depend on anything but the date and the
/// two flags: two results for the same inputs are the same greeting.
pub proof fn lemma_greeting_is_determined(
    date: CivilDate,
    use_weekday: bool,
    moveable_feasts: bool,
    first: Greeting,
    second: Greeting,
)
    requires
        first == greeting_for(date, use_weekday, moveable_feasts),
        second == greeting_for(date, use_weekday, moveable_feasts),
    ensures
        first == second,
{
}

/// 1 January is Capodanno, whatever the year, the day of the week and the
/// flags.
pub proof fn lemma_first_of_january_is_capodanno(
    date: CivilDate,
    use_weekday: bool,
    moveable_feasts: bool,
)
    requires
        date.month == 1,
        date.day == 1,
    ensures
        greeting_for(date, use_weekday, moveable_feasts) == Greeting::Capodanno,
{
}

/// A date on which no observance falls gets the good morning: the plain one,
/// or the one that names its day of the week.
pub proof fn lemma_ordinary_day_is_buongiorno(date: CivilDate, moveable_feasts: bool)
    requires
        winter_observance(date.month, date.day) is None,
        spring_observance(date.month, date.day) is None,
        late_observance(date.month, date.day) is None,
        moveable_feasts ==> easter_cycle_feast(date) is None && corpus_domini_feast(date) is None,
    ensures
        greeting_for(date, false, moveable_feasts) == Greeting::BuonGiorno,
        greeting_for(date, true, moveable_feasts) == Greeting::BuonGiornoWeekday(date.weekday()),
{
}

/// An observance with a fixed date in January, February or early March wins
/// over any moveable feast that falls on the same day.
pub proof fn lemma_winter_observance_wins(date: CivilDate, use_weekday: bool, moveable_feasts: bool)
    requires
        winter_observance(date.month, date.day) is Some,
    ensures
        Some(greeting_for(date, use_weekday, moveable_feasts)) == winter_observance(
            date.month,
            date.day,
        ),
{
}

/// No day is two moveable feasts at once: a date lies a single number of days
/// from Easter Sunday of its year.
pub proof fn lemma_feasts_do_not_coincide(date: CivilDate, first: int, second: int)
    requires
        is_feast(date, first),
        is_feast(date, second),
    ensures
        first == second,
{
}

/// Whether `date` is the day `feast`, which lies `days` days after Easter
/// Sunday of the year of `date`.
fn falls_on(date: Date, feast: Date, Ghost(days): Ghost<int>) -> (hit: bool)
    requires
        date@.is_valid(),
        FIRST_YEAR <= date@.year,
        is_days_after_easter(feast@, date@.year, days),
    ensures
        hit == is_feast(date@, days),
{
    proof {
        lemma_view_determines_date(date, feast);
        if is_feast(date@, days) {
            lemma_ordinal_determines_date(date@, feast@);
        }
    }
    date == feast
}

/// The feast from Giovedì Grasso to Santissima Trinità that falls on `date`.
fn find_easter_cycle_feast(date: Date) -> (found: Option<Greeting>)
    ensures
        found == easter_cycle_feast(date@),
{
    let year = date.year();
    let _month = date.month();
    let _day = date.day();
    if year < FIRST_YEAR {
        return None;
    }
    if falls_on(date, giovedi_grasso_date(year), Ghost(GIOVEDI_GRASSO_OFFSET as int)) {
        return Some(Greeting::GiovediGrasso);
    }
    if falls_on(date, martedi_grasso_date(year), Ghost(MARTEDI_GRASSO_OFFSET as int)) {
        return Some(Greeting::MartediGrasso);
    }
    if falls_on(date, mercoled_ceneri_date(year), Ghost(MERCOLEDI_CENERI_OFFSET as int)) {
        return Some(Greeting::MercolediCeneri);
    }
    if falls_on(date, domenica_delle_palme_date(year), Ghost(DOMENICA_DELLE_PALME_OFFSET as int)) {
        return Some(Greeting::DomenicaDellePalme);
    }
    let easter = easter_date(year);
    proof {
        crate::moveable_feasts::lemma_easter_in_march_or_april(year as int);
    }
    if falls_on(date, easter, Ghost(0)) {
        return Some(Greeting::Pasqua);
    }
    if falls_on(date, pasquetta_date(year), Ghost(PASQUETTA_OFFSET as int)) {
        return Some(Greeting::Pasquetta);
    }
    if falls_on(date, ascensione_date(year), Ghost(ASCENSIONE_OFFSET as int)) {
        return Some(Greeting::Ascensione);
    }
    if falls_on(date, pentecoste_date(year), Ghost(PENTECOSTE_OFFSET as int)) {
        return Some(Greeting::Pentecoste);
    }
    if falls_on(date, santissima_trinita_date(year), Ghost(SANTISSIMA_TRINITA_OFFSET as int)) {
        return Some(Greeting::SantissimaTrinita);
    }
    None
}

/// The feast from Corpus Domini on that falls on `date`.
fn find_corpus_domini_feast(date: Date) -> (found: Option<Greeting>)
    ensures
        found == corpus_domini_feast(date@),
{
    let year = date.year();
    let _month = date.month();
    let _day = date.day();
    if year < FIRST_YEAR {
        return None;
    }
    if falls_on(date, corpus_domini_date(year), Ghost(CORPUS_DOMINI_OFFSET as int)) {
        return Some(Greeting::CorpusDomini);
    }
    if falls_on(
        date,
        sacro_cuore_di_gesu_date(year),
        Ghost(CORPUS_DOMINI_OFFSET + SACRO_CUORE_DI_GESU_AFTER_CORPUS_DOMINI),
    ) {
        return Some(Greeting::SacroCuoreDiGesu);
    }
    if falls_on(
        date,
        cuore_immacolato_di_maria_date(year),
        Ghost(CORPUS_DOMINI_OFFSET + CUORE_IMMACOLATO_DI_MARIA_AFTER_CORPUS_DOMINI),
    ) {
        return Some(Greeting::CuoreImmacolatoDiMaria);
    }
    None
}

/// The observance with a fixed date before the Easter cycle on `month` and `day`.
fn find_winter_observance(month: u32, day: u32) -> (found: Option<Greeting>)
    ensures
        found == winter_observance(month as int, day as int),
{
    if month == 1 && day == 1 {
        Some(Greeting::Capodanno)
    } else if month == 1 && day == 6 {
        Some(Greeting::Epifania)
    } else if month == 2 && day == 14 {
        Some(Greeting::SanValentino)
    } else if month == 3 && day == 8 {
        Some(Greeting::FestaDelleDonne)
    } else {
        None
    }
}

/// The observance with a fixed date from 25 April to 2 June on `month` and `day`.
fn find_spring_observance(month: u32, day: u32) -> (found: Option<Greeting>)
    ensures
        found == spring_observance(month as int, day as int),
{
    if month == 4 && day == 25 {
        Some(Greeting::Liberazione)
    } else if month == 5 && day == 1 {
        Some(Greeting::FestaDeiLavoratori)
    } else if month == 6 && day == 2 {
        Some(Greeting::FestaDellaRepubblica)
    } else {
        None
    }
}

/// The observance with a fixed date from 15 August on, on `month` and `day`.
fn find_late_observance(month: u32, day: u32) -> (found: Option<Greeting>)
    ensures
        found == late_observance(month as int, day as int),
{
    if month == 8 && day == 15 {
        Some(Greeting::Ferragosto)
    } else if month == 10 && day == 31 {
        Some(Greeting::Halloween)
    } else if month == 11 && day == 1 {
        Some(Greeting::Ognissanti)
    } else if month == 11 && day == 2 {
        Some(Greeting::Defunti)
    } else if month == 12 && day == 8 {
        Some(Greeting::ImmacolataConcenzione)
    } else if month == 12 && day == 24 {
        Some(Greeting::VigiliaDiNatale)
    } else if month == 12 && day == 25 {
        Some(Greeting::Natale)
    } else if month == 12 && day == 26 {
        Some(Greeting::SantoStefano)
    } else {
        None
    }
}

/// The greeting for `date`, with the moveable feasts taken into account or
/// left out.
pub fn greeting_of_the_day_with(date: Date, use_weekday: bool, moveable_feasts: bool) -> (greeting:
    Greeting)
    ensures
        greeting == greeting_for(date@, use_weekday, moveable_feasts),
{
    let month = date.month();
    let day = date.day();
    if let Some(greeting) = find_winter_observance(month, day) {
        return greeting;
    }
    if moveable_feasts {
        if let Some(greeting) = find_easter_cycle_feast(date) {
            return greeting;
        }
    }
    if let Some(greeting) = find_spring_observance(month, day) {
        return greeting;
    }
    if moveable_feasts {
        if let Some(greeting) = find_corpus_domini_feast(date) {
            return greeting;
        }
    }
    if let Some(greeting) = find_late_observance(month, day) {
        return greeting;
    }
    if use_weekday {
        Greeting::BuonGiornoWeekday(date.weekday())
    } else {
        Greeting::BuonGiorno
    }
}

/// The greeting for `date`, holidays and moveable feasts taken into account.
///
/// On a day without an observance the greeting is `BuonGiornoWeekday` with
/// the date's day of the week if `use_weekday` is set, and `BuonGiorno`
/// otherwise.
pub fn greeting_of_the_day(date: Date, use_weekday: bool) -> (greeting: Greeting)
    ensures
        greeting == greeting_for(date@, use_weekday, true),
{
    greeting_of_the_day_with(date, use_weekday, true)
}

} // verus!
