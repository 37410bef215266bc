//! The provider <https://www.buongiornissimocaffe.it>.
use vstd::prelude::*;
use vstd::string::StringExecFns;
use crate::calendar::Weekday;
use crate::error::{Failure, ScrapeError};
use crate::greeting::Greeting;
use crate::markup::{fetched_images, outcome, scrape_page, Layout, PageLayout};

verus! {

/// Page for `BuonGiorno`.
pub const BUONGIORNO_URL: &'static str =
    "https://www.buongiornissimocaffe.it/category/immagini-buongiorno/";

/// Page for `BuonGiornoWeekday(Sun)`.
pub const BUONA_DOMENICA_URL: &'static str =
    "https://www.buongiornissimocaffe.it/category/buona-domenica/";

/// Start of the page for a good morning on a day of the week, before the
/// day's name.
pub const BUONGIORNO_WEEKDAY_BASE_URL: &'static str =
    "https://www.buongiornissimocaffe.it/category/buon-";

/// Page for `BuonaNotte`.
pub const BUONA_NOTTE_URL: &'static str =
    "https://www.buongiornissimocaffe.it/category/immagini-buonanotte/";

/// Page for `BuonaSerata`.
pub const BUONA_SERATA_URL: &'static str =
    "https://www.buongiornissimocaffe.it/category/buona-serata/";

/// Page for `Capodanno`.
pub const CAPODANNO_URL: &'static str = "https://www.buongiornissimocaffe.it/category/buon-anno/";

/// Page for `Epifania`.
pub const BEFANA_URL: &'static str = "https://www.buongiornissimocaffe.it/category/befana/";

/// Page for `SanValentino`.
pub const SAN_VALENTINO_URL: &'static str =
    "https://www.buongiornissimocaffe.it/category/auguri-san-valentino/";

/// Page for `GiovediGrasso`.
pub const GIOVEDI_GRASSO_URL: &'static str =
    "https://www.buongiornissimocaffe.it/category/buon-giovedi-grasso/";

/// Page for `MartediGrasso`.
pub const MARTEDI_GRASSO_URL: &'static str =
    "https://www.buongiornissimocaffe.it/category/buon-martedi-grasso/";

/// Page for `FestaDelleDonne`.
pub const FESTA_DELLE_DONNE: &'static str =
    "https://www.buongiornissimocaffe.it/category/auguri-festa-delle-donne/";

/// Page for `DomenicaDellePalme`.
pub const PALME_URL: &'static str =
    "https://www.buongiornissimocaffe.it/category/buona-domenica-delle-palme/";

/// Page for `Pasqua`.
pub const PASQUA_URL: &'static str = "https://www.buongiornissimocaffe.it/category/buona-pasqua/";

/// Page for `Pasquetta`.
pub const PASQUETTA_URL: &'static str = "https://www.buongiornissimocaffe.it/category/pasquetta/";

/// Page for `Liberazione`.
pub const LIBERAZIONE_URL: &'static str =
    "https://www.buongiornissimocaffe.it/category/buon-25-aprile/";

/// Page for `FestaDeiLavoratori`.
pub const PRIMO_MAGGIO_URL: &'static str =
    "https://www.buongiornissimocaffe.it/category/buon-1-maggio/";

/// Page for `Halloween`.
pub const HALLOWEEN_URL: &'static str = "https://www.buongiornissimocaffe.it/category/halloween/";

/// Page for `Ognissanti`.
pub const OGNISSANTI_URL: &'static str = "https://www.buongiornissimocaffe.it/category/ognissanti/";

/// Page for `Defunti`.
pub const DEFUNTI_URL: &'static str =
    "https://www.buongiornissimocaffe.it/category/commemorazione-dei-defunti/";

/// Page for `ImmacolataConcenzione`.
pub const IMMACOLATA_CONCEZIONE_URL: &'static str =
    "https://www.buongiornissimocaffe.it/category/8-dicembre/";

/// Page for `VigiliaDiNatale`.
pub const VIGILIA_URL: &'static str = "https://www.buongiornissimocaffe.it/category/24-dicembre/";

/// Page for `Natale`.
pub const NATALE_URL: &'static str = "https://www.buongiornissimocaffe.it/category/buon-natale/";

/// Page for `SantoStefano`.
pub const SANTO_STEFANO_URL: &'static str =
    "https://www.buongiornissimocaffe.it/category/santo-stefano/";

/// Provider of the pictures listed on <https://www.buongiornissimocaffe.it>.
#[derive(Debug, Clone, Copy, Default)]
pub struct BuongiornissimoCaffe;

impl BuongiornissimoCaffe {
    /// The name of a day of the week as the site spells it in its addresses.
    pub open spec fn weekday_name(weekday: Weekday) -> Seq<char> {
        match weekday {
            Weekday::Mon => "lunedi"@,
            Weekday::Tue => "martedi"@,
            Weekday::Wed => "mercoledi"@,
            Weekday::Thu => "giovedi"@,
            Weekday::Fri => "venerdi"@,
            Weekday::Sat => "sabato"@,
            Weekday::Sun => "domenica"@,
        }
    }

    /// The address of the page that lists the pictures for a good morning on
    /// a day of the week.
    pub open spec fn weekday_page(weekday: Weekday) -> Seq<char> {
        match weekday {
            Weekday::Sun => BUONA_DOMENICA_URL@,
            _ => BUONGIORNO_WEEKDAY_BASE_URL@ + Self::weekday_name(weekday) + "/"@,
        }
    }

    /// The address of the page that lists the pictures for a greeting, for the
    /// greetings that the site has a page for.
    pub open spec fn page(greeting: Greeting) -> Option<Seq<char>> {
        match greeting {
            Greeting::BuonGiorno => Some(BUONGIORNO_URL@),
            Greeting::BuonGiornoWeekday(weekday) => Some(Self::weekday_page(weekday)),
            Greeting::BuonaNotte => Some(BUONA_NOTTE_URL@),
            Greeting::BuonaSerata => Some(BUONA_SERATA_URL@),
            Greeting::Capodanno => Some(CAPODANNO_URL@),
            Greeting::Epifania => Some(BEFANA_URL@),
            Greeting::SanValentino => Some(SAN_VALENTINO_URL@),
            Greeting::GiovediGrasso => Some(GIOVEDI_GRASSO_URL@),
            Greeting::MartediGrasso => Some(MARTEDI_GRASSO_URL@),
            Greeting::FestaDelleDonne => Some(FESTA_DELLE_DONNE@),
            Greeting::DomenicaDellePalme => Some(PALME_URL@),
            Greeting::Pasqua => Some(PASQUA_URL@),
            Greeting::Pasquetta => Some(PASQUETTA_URL@),
            Greeting::Liberazione => Some(LIBERAZIONE_URL@),
            Greeting::FestaDeiLavoratori => Some(PRIMO_MAGGIO_URL@),
            Greeting::Halloween => Some(HALLOWEEN_URL@),
            Greeting::Ognissanti => Some(OGNISSANTI_URL@),
            Greeting::Defunti => Some(DEFUNTI_URL@),
            Greeting::ImmacolataConcenzione => Some(IMMACOLATA_CONCEZIONE_URL@),
            Greeting::VigiliaDiNatale => Some(VIGILIA_URL@),
            Greeting::Natale => Some(NATALE_URL@),
            Greeting::SantoStefano => Some(SANTO_STEFANO_URL@),
            _ => None,
        }
    }

    /// Where the site's pages list their pictures.
    pub open spec fn page_layout() -> Layout {
        Layout {
            anchor: "main"@,
            gallery: Some(("div[class=\"masonry\"]"@, "div[class=\"thumbnail\"]"@)),
            attribute: "src"@,
            domain: None,
        }
    }

    /// The name of a day of the week as the site spells it in its addresses.
    pub fn weekday(weekday: Weekday) -> (name: &'static str)
        ensures
            name@ == Self::weekday_name(weekday),
    {
        match weekday {
            Weekday::Mon => "lunedi",
            Weekday::Tue => "martedi",
            Weekday::Wed => "mercoledi",
            Weekday::Thu => "giovedi",
            Weekday::Fri => "venerdi",
            Weekday::Sat => "sabato",
            Weekday::Sun => "domenica",
        }
    }

    /// The address of the page that lists the pictures for `greeting`, or
    /// `UnsupportedGreeting` where the site has no page for it.
    pub fn get_url(greeting: Greeting) -> (url: Result<String, ScrapeError>)
        ensures
            match url {
                Ok(address) => Self::page(greeting) == Some(address@),
                Err(error) => Self::page(greeting) is None && error@
                    == Failure::UnsupportedGreeting,
            },
    {
        match greeting {
            Greeting::BuonGiorno => Ok(String::from_str(BUONGIORNO_URL)),
            Greeting::BuonGiornoWeekday(Weekday::Sun) => Ok(String::from_str(BUONA_DOMENICA_URL)),
            Greeting::BuonGiornoWeekday(weekday) => Ok(
                String::from_str(BUONGIORNO_WEEKDAY_BASE_URL)
                    .concat(Self::weekday(weekday))
                    .concat("/"),
            ),
            Greeting::BuonaNotte => Ok(String::from_str(BUONA_NOTTE_URL)),
            Greeting::BuonaSerata => Ok(String::from_str(BUONA_SERATA_URL)),
            Greeting::Capodanno => Ok(String::from_str(CAPODANNO_URL)),
            Greeting::Epifania => Ok(String::from_str(BEFANA_URL)),
            Greeting::SanValentino => Ok(String::from_str(SAN_VALENTINO_URL)),
            Greeting::GiovediGrasso => Ok(String::from_str(GIOVEDI_GRASSO_URL)),
            Greeting::MartediGrasso => Ok(String::from_str(MARTEDI_GRASSO_URL)),
            Greeting::FestaDelleDonne => Ok(String::from_str(FESTA_DELLE_DONNE)),
            Greeting::DomenicaDellePalme => Ok(String::from_str(PALME_URL)),
            Greeting::Pasqua => Ok(String::from_str(PASQUA_URL)),
            Greeting::Pasquetta => Ok(String::from_str(PASQUETTA_URL)),
            Greeting::Liberazione => Ok(String::from_str(LIBERAZIONE_URL)),
            Greeting::FestaDeiLavoratori => Ok(String::from_str(PRIMO_MAGGIO_URL)),
            Greeting::Halloween => Ok(String::from_str(HALLOWEEN_URL)),
            Greeting::Ognissanti => Ok(String::from_str(OGNISSANTI_URL)),
            Greeting::Defunti => Ok(String::from_str(DEFUNTI_URL)),
            Greeting::ImmacolataConcenzione => Ok(String::from_str(IMMACOLATA_CONCEZIONE_URL)),
            Greeting::VigiliaDiNatale => Ok(String::from_str(VIGILIA_URL)),
            Greeting::Natale => Ok(String::from_str(NATALE_URL)),
            Greeting::SantoStefano => Ok(String::from_str(SANTO_STEFANO_URL)),
            _ => Err(ScrapeError::UnsupportedGreeting),
        }
    }

    /// Where the site's pages list their pictures.
    pub fn layout() -> (layout: PageLayout)
        ensures
            layout@ == Self::page_layout(),
    {
        PageLayout {
            anchor: "main",
            gallery: Some(("div[class=\"masonry\"]", "div[class=\"thumbnail\"]")),
            attribute: "src",
            domain: None,
        }
    }

    /// The addresses of the pictures on a page of the site, from what fetching
    /// the page gave: its body, or the description of why it could not be had.
    pub fn scrape_page(fetched: Result<String, String>) -> (result: Result<
        Vec<url::Url>,
        ScrapeError,
    >)
        ensures
            outcome(result) == fetched_images(fetched, Self::page_layout()),
    {
        scrape_page(fetched, &Self::layout())
    }

    /// The addresses of the pictures that the site lists for `greeting`, with
    /// the page fetched by `fetch`: it is handed the address of the page and
    /// gives the body, or the description of why the page could not be had.
    /// Where the site has no page for the greeting nothing is fetched.
    pub fn scrape_with<F: FnOnce(String) -> Result<String, String>>(
        greeting: Greeting,
        fetch: F,
    ) -> (result: Result<Vec<url::Url>, ScrapeError>)
        requires
            forall|url: String| fetch.requires((url,)),
        ensures
            match Self::page(greeting) {
                None => outcome(result) == Err::<Seq<url::Url>, Failure>(
                    Failure::UnsupportedGreeting,
                ),
                Some(address) => exists|url: String, fetched: Result<String, String>|
                    url@ == address && fetch.ensures((url,), fetched) && outcome(result)
                        == fetched_images(fetched, Self::page_layout()),
            },
    {
        match Self::get_url(greeting) {
            Err(error) => Err(error),
            Ok(url) => Self::scrape_page(fetch(url)),
        }
    }
}

} // verus!
