//! The provider <https://ilmondodigrazia.com>.
use vstd::prelude::*;
use vstd::string::StringExecFns;
use crate::calendar::Weekday;
use crate::error::{Failure, ScrapeError};
use crate::greeting::Greeting;
use crate::markup::{fetched_images, outcome, scrape_page, Layout, PageLayout};

verus! {

/// Page for `BuonGiorno`.
pub const BUONGIORNO_URL: &'static str = "https://ilmondodigrazia.com/buongiorno";

/// Page for `BuonGiornoWeekday(Sat)`.
pub const BUON_SABATO_URL: &'static str = "https://ilmondodigrazia.com/sabato";

/// Page for `BuonGiornoWeekday(Sun)`.
pub const BUONA_DOMENICA_URL: &'static str = "https://ilmondodigrazia.com/buona-domenica";

/// Start of the page for a good morning on a day of the week, before the
/// day's name.
pub const BUONGIORNO_WEEKDAY_BASE_URL: &'static str =
    "https://ilmondodigrazia.com/buongiorno/buongiorno-";

/// Page for `BuonPomeriggio`.
pub const BUON_POMERIGGIO_URL: &'static str = "https://ilmondodigrazia.com/buon-pomeriggio";

/// Page for `BuonaNotte`.
pub const BUONA_NOTTE_URL: &'static str = "https://ilmondodigrazia.com/buonanotte";

/// Page for `Compleanno`.
pub const AUGURI_URL: &'static str = "https://ilmondodigrazia.com/compleanno";

/// Page for `GiovediGrasso`.
pub const GIOVEDI_GRASSO_URL: &'static str =
    "https://ilmondodigrazia.com/buongiorno/buongiorno-giovedi/buon-giovedi-grasso";

/// Page for `Pentecoste`.
pub const PENTECOSTE_URL: &'static str =
    "https://ilmondodigrazia.com/buona-domenica/domenica-di-pentecoste";

/// Page for `FestaDellaRepubblica`.
pub const DUE_GIUGNO_URL: &'static str = "https://ilmondodigrazia.com/festa/festa-della-repubblica";

/// Page for `SacroCuoreDiGesu`.
pub const SACRO_CUORE_DI_GESU_URL: &'static str = "https://ilmondodigrazia.com/sacro-cuore-di-gesu";

/// Page for `CorpusDomini`.
pub const CORPUS_DOMINI_URL: &'static str = "https://ilmondodigrazia.com/corpus-domini";

/// Page for `Ferragosto`.
pub const FERRAGOSTO_URL: &'static str = "https://ilmondodigrazia.com/buon-ferragosto";

/// Page for `Halloween`.
pub const HALLOWEEN_URL: &'static str =
    "https://ilmondodigrazia.com/halloween-31-ottobre-immagini-buongiorno";

/// Page for `Ognissanti`.
pub const OGNISSANTI_URL: &'static str =
    "https://ilmondodigrazia.com/tutti-i-santi-immagini-festa-di-ognissanti";

/// Page for `Defunti`.
pub const DUE_NOVEMBRE_URL: &'static str =
    "https://ilmondodigrazia.com/commemorazione-dei-defunti-2-novembre";

/// Page for `ImmacolataConcenzione`.
pub const IMMACOLATA_CONCEZIONE_URL: &'static str =
    "https://ilmondodigrazia.com/immacolata-concezione-8-dicembre-buongiorno";

/// Page for `VigiliaDiNatale`.
pub const VIGILIA_URL: &'static str =
    "https://ilmondodigrazia.com/buongiorno/buongiorno-vigilia-di-natale-per-il-24-dicembre";

/// Page for `Natale`.
pub const BUON_NATALE_URL: &'static str =
    "https://ilmondodigrazia.com/frasi-di-buon-natale-immagini-da-condividere";

/// Provider of the pictures listed on <https://ilmondodigrazia.com>.
#[derive(Debug, Clone, Copy, Default)]
pub struct IlMondoDiGrazia;

impl IlMondoDiGrazia {
    /// The name of a day of the week as the site spells it in its addresses.
    pub open spec fn weekday_name(weekday: Weekday) -> Seq<char> {
        match weekday {
            Weekday::Mon => "lunedi"@,
            Weekday::Tue => "martedi"@,
            Weekday::Wed => "mercoledi"@,
            Weekday::Thu => "giovedi"@,
            Weekday::Fri => "venerdi"@,
            Weekday::Sat => "sabato"@,
            Weekday::Sun => "domenica"@,
        }
    }

    /// The address of the page that lists the pictures for a good morning on
    /// a day of the week.
    pub open spec fn weekday_page(weekday: Weekday) -> Seq<char> {
        match weekday {
            Weekday::Sat => BUON_SABATO_URL@,
            Weekday::Sun => BUONA_DOMENICA_URL@,
            _ => BUONGIORNO_WEEKDAY_BASE_URL@ + Self::weekday_name(weekday),
        }
    }

    /// The address of the page that lists the pictures for a greeting, for the
    /// greetings that the site has a page for.
    pub open spec fn page(greeting: Greeting) -> Option<Seq<char>> {
        match greeting {
            Greeting::BuonGiorno => Some(BUONGIORNO_URL@),
            Greeting::BuonGiornoWeekday(weekday) => Some(Self::weekday_page(weekday)),
            Greeting::BuonPomeriggio => Some(BUON_POMERIGGIO_URL@),
            Greeting::BuonaNotte => Some(BUONA_NOTTE_URL@),
            Greeting::Compleanno => Some(AUGURI_URL@),
            Greeting::GiovediGrasso => Some(GIOVEDI_GRASSO_URL@),
            Greeting::Pentecoste => Some(PENTECOSTE_URL@),
            Greeting::FestaDellaRepubblica => Some(DUE_GIUGNO_URL@),
            Greeting::SacroCuoreDiGesu => Some(SACRO_CUORE_DI_GESU_URL@),
            Greeting::CorpusDomini => Some(CORPUS_DOMINI_URL@),
            Greeting::Ferragosto => Some(FERRAGOSTO_URL@),
            Greeting::Halloween => Some(HALLOWEEN_URL@),
            Greeting::Ognissanti => Some(OGNISSANTI_URL@),
            Greeting::Defunti => Some(DUE_NOVEMBRE_URL@),
            Greeting::ImmacolataConcenzione => Some(IMMACOLATA_CONCEZIONE_URL@),
            Greeting::VigiliaDiNatale => Some(VIGILIA_URL@),
            Greeting::Natale => Some(BUON_NATALE_URL@),
            _ => None,
        }
    }

    /// Where the site's pages list their pictures.
    pub open spec fn page_layout() -> Layout {
        Layout {
            anchor: "div[class=\"entry-content\"]"@,
            gallery: None,
            attribute: "src"@,
            domain: Some("ilmondodigrazia.com"@),
        }
    }

    /// The name of a day of the week as the site spells it in its addresses.
    pub fn weekday(weekday: Weekday) -> (name: &'static str)
        ensures
            name@ == Self::weekday_name(weekday),
    {
        match weekday {
            Weekday::Mon => "lunedi",
            Weekday::Tue => "martedi",
            Weekday::Wed => "mercoledi",
            Weekday::Thu => "giovedi",
            Weekday::Fri => "venerdi",
            Weekday::Sat => "sabato",
            Weekday::Sun => "domenica",
        }
    }

    /// The address of the page for a good morning on a day from Monday to Friday.
    pub fn buongiorno_weekday_url(weekday: Weekday) -> (url: String)
        ensures
            url@ == BUONGIORNO_WEEKDAY_BASE_URL@ + Self::weekday_name(weekday),
    {
        String::from_str(BUONGIORNO_WEEKDAY_BASE_URL).concat(Self::weekday(weekday))
    }

    /// The address of the page that lists the pictures for `greeting`, or
    /// `UnsupportedGreeting` where the site has no page for it.
    pub fn get_url(greeting: Greeting) -> (url: Result<String, ScrapeError>)
        ensures
            match url {
                Ok(address) => Self::page(greeting) == Some(address@),
                Err(error) => Self::page(greeting) is None && error@
                    == Failure::UnsupportedGreeting,
            },
    {
        match greeting {
            Greeting::BuonGiorno => Ok(String::from_str(BUONGIORNO_URL)),
            Greeting::BuonGiornoWeekday(Weekday::Sat) => Ok(String::from_str(BUON_SABATO_URL)),
            Greeting::BuonGiornoWeekday(Weekday::Sun) => Ok(String::from_str(BUONA_DOMENICA_URL)),
            Greeting::BuonGiornoWeekday(weekday) => Ok(Self::buongiorno_weekday_url(weekday)),
            Greeting::BuonPomeriggio => Ok(String::from_str(BUON_POMERIGGIO_URL)),
            Greeting::BuonaNotte => Ok(String::from_str(BUONA_NOTTE_URL)),
            Greeting::Compleanno => Ok(String::from_str(AUGURI_URL)),
            Greeting::GiovediGrasso => Ok(String::from_str(GIOVEDI_GRASSO_URL)),
            Greeting::Pentecoste => Ok(String::from_str(PENTECOSTE_URL)),
            Greeting::FestaDellaRepubblica => Ok(String::from_str(DUE_GIUGNO_URL)),
            Greeting::SacroCuoreDiGesu => Ok(String::from_str(SACRO_CUORE_DI_GESU_URL)),
            Greeting::CorpusDomini => Ok(String::from_str(CORPUS_DOMINI_URL)),
            Greeting::Ferragosto => Ok(String::from_str(FERRAGOSTO_URL)),
            Greeting::Halloween => Ok(String::from_str(HALLOWEEN_URL)),
            Greeting::Ognissanti => Ok(String::from_str(OGNISSANTI_URL)),
            Greeting::Defunti => Ok(String::from_str(DUE_NOVEMBRE_URL)),
            Greeting::ImmacolataConcenzione => Ok(String::from_str(IMMACOLATA_CONCEZIONE_URL)),
            Greeting::VigiliaDiNatale => Ok(String::from_str(VIGILIA_URL)),
            Greeting::Natale => Ok(String::from_str(BUON_NATALE_URL)),
            _ => Err(ScrapeError::UnsupportedGreeting),
        }
    }

    /// Where the site's pages list their pictures.
    pub fn layout() -> (layout: PageLayout)
        ensures
            layout@ == Self::page_layout(),
    {
        PageLayout {
            anchor: "div[class=\"entry-content\"]",
            gallery: None,
            attribute: "src",
            domain: Some("ilmondodigrazia.com"),
        }
    }

    /// The addresses of the pictures on a page of the site, from what fetching
    /// the page gave: its body, or the description of why it could not be had.
    pub fn scrape_page(fetched: Result<String, String>) -> (result: Result<
        Vec<url::Url>,
        ScrapeError,
    >)
        ensures
            outcome(result) == fetched_images(fetched, Self::page_layout()),
    {
        scrape_page(fetched, &Self::layout())
    }

    /// The addresses of the pictures that the site lists for `greeting`, with
    /// the page fetched by `fetch`: it is handed the address of the page and
    /// gives the body, or the description of why the page could not be had.
    /// Where the site has no page for the greeting nothing is fetched.
    pub fn scrape_with<F: FnOnce(String) -> Result<String, String>>(
        greeting: Greeting,
        fetch: F,
    ) -> (result: Result<Vec<url::Url>, ScrapeError>)
        requires
            forall|url: String| fetch.requires((url,)),
        ensures
            match Self::page(greeting) {
                None => outcome(result) == Err::<Seq<url::Url>, Failure>(
                    Failure::UnsupportedGreeting,
                ),
                Some(address) => exists|url: String, fetched: Result<String, String>|
                    url@ == address && fetch.ensures((url,), fetched) && outcome(result)
                        == fetched_images(fetched, Self::page_layout()),
            },
    {
        match Self::get_url(greeting) {
            Err(error) => Err(error),
            Ok(url) => Self::scrape_page(fetch(url)),
        }
    }
}

} // verus!
