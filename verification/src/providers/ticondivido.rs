//! The provider <https://ticondivido.it>.
use vstd::prelude::*;
use vstd::string::StringExecFns;
use crate::calendar::Weekday;
use crate::error::{Failure, ScrapeError};
use crate::greeting::Greeting;
use crate::markup::{fetched_images, outcome, scrape_page, Layout, PageLayout};

verus! {

/// Page for `BuonGiorno`.
pub const BUONGIORNO_URL: &'static str = "https://ticondivido.it/immagini-buongiorno/";

/// Page for `BuonGiornoWeekday(Mon)`.
pub const BUONGIORNO_LUNEDI_URL: &'static str = "https://ticondivido.it/immagini-buon-lunedi/";

/// Page for `BuonGiornoWeekday(Tue)`.
pub const BUONGIORNO_MARTEDI_URL: &'static str = "https://ticondivido.it/immagini-buon-martedi/";

/// Page for `BuonGiornoWeekday(Wed)`.
pub const BUONGIORNO_MERCOLEDI_URL: &'static str =
    "https://ticondivido.it/immagini-buon-mercoledi/";

/// Page for `BuonGiornoWeekday(Thu)`.
pub const BUONGIORNO_GIOVEDI_URL: &'static str = "https://ticondivido.it/immagini-buon-giovedi/";

/// Page for `BuonGiornoWeekday(Fri)`.
pub const BUONGIORNO_VENERDI_URL: &'static str = "https://ticondivido.it/immagini-buon-venerdi/";

/// Page for `BuonGiornoWeekday(Sat)`.
pub const BUONGIORNO_SABATO_URL: &'static str = "https://ticondivido.it/immagini-buon-sabato/";

/// Page for `BuonGiornoWeekday(Sun)`.
pub const BUONGIORNO_DOMENICA_URL: &'static str = "https://ticondivido.it/buona-domenica/";

/// Page for `Weekend`.
pub const WEEKEND_URL: &'static str = "https://ticondivido.it/buon-weekend/";

/// Page for `BuonPomeriggio`.
pub const BUON_POMERIGGIO_URL: &'static str = "https://ticondivido.it/immagini-buon-pomeriggio/";

/// Page for `BuonaNotte`.
pub const BUONA_NOTTE_URL: &'static str = "https://ticondivido.it/immagini-buonanotte/";

/// Page for `BuonaSerata`.
pub const BUONA_SERATA_URL: &'static str = "https://ticondivido.it/immagini-buona-serata/";

/// Page for `Compleanno`.
pub const BUON_COMPLEANNO_URL: &'static str = "https://ticondivido.it/buon-compleanno/";

/// Page for `Capodanno`.
pub const CAPODANNO_URL: &'static str = "https://ticondivido.it/immagini-buon-anno-nuovo/";

/// Page for `Epifania`.
pub const BEFANA_URL: &'static str = "https://ticondivido.it/immagini-befana/";

/// Page for `SanValentino`.
pub const SAN_VALENTINO_URL: &'static str = "https://ticondivido.it/immagini-buon-san-valentino/";

/// Page for `GiovediGrasso` and `MartediGrasso`.
pub const CARNEVALE_URL: &'static str = "https://ticondivido.it/immagini-buon-carnevale/";

/// Page for `FestaDelleDonne`.
pub const FESTA_DELLA_DONNA_URL: &'static str =
    "https://ticondivido.it/immagini-festa-della-donna/";

/// Page for `FestaDelPapa`.
pub const FESTA_DEL_PAPA_URL: &'static str = "https://ticondivido.it/immagini-festa-del-papa/";

/// Page for `FestaDellaMamma`.
pub const FESTA_DELLA_MAMMA_URL: &'static str =
    "https://ticondivido.it/immagini-festa-della-mamma/";

/// Page for `DomenicaDellePalme`.
pub const PALME_URL: &'static str = "https://ticondivido.it/immagini-domenica-delle-palme/";

/// Page for `Pasqua`.
pub const PASQUA_URL: &'static str = "https://ticondivido.it/immagini-buona-pasqua/";

/// Page for `Pasquetta`.
pub const PASQUETTA_URL: &'static str = "https://ticondivido.it/immagini-buona-pasquetta/";

/// Page for `Liberazione`.
pub const URL_25_APRILE_URL: &'static str = "https://ticondivido.it/immagini-buon-25-aprile/";

/// Page for `FestaDeiLavoratori`.
pub const PRIMO_MAGGIO_URL: &'static str = "https://ticondivido.it/immagini-buon-1-maggio/";

/// Page for `DueGiugno`.
pub const DUE_GIUGNO_URL: &'static str = "https://ticondivido.it/immagini-buon-2-giugno/";

/// Page for `Ferragosto`.
pub const FERRAGOSTO_URL: &'static str = "https://ticondivido.it/immagini-buon-ferragosto/";

/// Page for `Halloween`.
pub const HALLOWEEEN_URL: &'static str = "https://ticondivido.it/immagini-halloween/";

/// Page for `Ognissanti`.
pub const OGNISSANTI_URL: &'static str = "https://ticondivido.it/immagini-1-novembre/";

/// Page for `Defunti`.
pub const DEFUNTI_URL: &'static str = "https://ticondivido.it/immagini-2-novembre/";

/// Page for `SanNicola`.
pub const SAN_NICOLA_URL: &'static str = "https://ticondivido.it/immagini-san-nicola/";

/// Page for `SantAmbrogio`.
pub const SANTAMBROGIO_URL: &'static str = "https://ticondivido.it/immagini-sant-ambrogio/";

/// Page for `ImmacolataConcenzione`.
pub const IMMACOLATA_URL: &'static str = "https://ticondivido.it/immagini-immacolata-concezione/";

/// Page for `SantaLucia`.
pub const SANTA_LUCIA_URL: &'static str = "https://ticondivido.it/immagini-santa-lucia/";

/// Page for `Natale`.
pub const BUON_NATALE_URL: &'static str = "https://ticondivido.it/buon-natale/";

/// Page for `SantoStefano`.
pub const SANTO_STEFANO_URL: &'static str =
    "https://ticondivido.it/immagini-santo-stefano-26-dicembre/";

/// Page for `SanSilvestro`.
pub const SAN_SILVESTRO_URL: &'static str = "https://ticondivido.it/immagini-vigilia-di-capodanno/";

/// Provider of the pictures listed on <https://ticondivido.it>.
#[derive(Debug, Clone, Copy, Default)]
pub struct TiCondivido;

impl TiCondivido {
    /// The address of the page that lists the pictures for a good morning on
    /// a day of the week.
    pub open spec fn weekday_page(weekday: Weekday) -> Seq<char> {
        match weekday {
            Weekday::Mon => BUONGIORNO_LUNEDI_URL@,
            Weekday::Tue => BUONGIORNO_MARTEDI_URL@,
            Weekday::Wed => BUONGIORNO_MERCOLEDI_URL@,
            Weekday::Thu => BUONGIORNO_GIOVEDI_URL@,
            Weekday::Fri => BUONGIORNO_VENERDI_URL@,
            Weekday::Sat => BUONGIORNO_SABATO_URL@,
            Weekday::Sun => BUONGIORNO_DOMENICA_URL@,
        }
    }

    /// The address of the page that lists the pictures for a greeting, for the
    /// greetings that the site has a page for.
    pub open spec fn page(greeting: Greeting) -> Option<Seq<char>> {
        match greeting {
            Greeting::BuonGiorno => Some(BUONGIORNO_URL@),
            Greeting::BuonGiornoWeekday(weekday) => Some(Self::weekday_page(weekday)),
            Greeting::Weekend => Some(WEEKEND_URL@),
            Greeting::BuonPomeriggio => Some(BUON_POMERIGGIO_URL@),
            Greeting::BuonaNotte => Some(BUONA_NOTTE_URL@),
            Greeting::BuonaSerata => Some(BUONA_SERATA_URL@),
            Greeting::Compleanno => Some(BUON_COMPLEANNO_URL@),
            Greeting::Capodanno => Some(CAPODANNO_URL@),
            Greeting::Epifania => Some(BEFANA_URL@),
            Greeting::SanValentino => Some(SAN_VALENTINO_URL@),
            Greeting::GiovediGrasso => Some(CARNEVALE_URL@),
            Greeting::MartediGrasso => Some(CARNEVALE_URL@),
            Greeting::FestaDelleDonne => Some(FESTA_DELLA_DONNA_URL@),
            Greeting::FestaDelPapa => Some(FESTA_DEL_PAPA_URL@),
            Greeting::FestaDellaMamma => Some(FESTA_DELLA_MAMMA_URL@),
            Greeting::DomenicaDellePalme => Some(PALME_URL@),
            Greeting::Pasqua => Some(PASQUA_URL@),
            Greeting::Pasquetta => Some(PASQUETTA_URL@),
            Greeting::Liberazione => Some(URL_25_APRILE_URL@),
            Greeting::FestaDeiLavoratori => Some(PRIMO_MAGGIO_URL@),
            Greeting::DueGiugno => Some(DUE_GIUGNO_URL@),
            Greeting::Ferragosto => Some(FERRAGOSTO_URL@),
            Greeting::Halloween => Some(HALLOWEEEN_URL@),
            Greeting::Ognissanti => Some(OGNISSANTI_URL@),
            Greeting::Defunti => Some(DEFUNTI_URL@),
            Greeting::SanNicola => Some(SAN_NICOLA_URL@),
            Greeting::SantAmbrogio => Some(SANTAMBROGIO_URL@),
            Greeting::ImmacolataConcenzione => Some(IMMACOLATA_URL@),
            Greeting::SantaLucia => Some(SANTA_LUCIA_URL@),
            Greeting::Natale => Some(BUON_NATALE_URL@),
            Greeting::SantoStefano => Some(SANTO_STEFANO_URL@),
            Greeting::SanSilvestro => Some(SAN_SILVESTRO_URL@),
            _ => None,
        }
    }

    /// Where the site's pages list their pictures.
    pub open spec fn page_layout() -> Layout {
        Layout {
            anchor: "div[class=\"entry-content clear\"]"@,
            gallery: None,
            attribute: "data-src"@,
            domain: None,
        }
    }

    /// The address of the page that lists the pictures for `greeting`, or
    /// `UnsupportedGreeting` where the site has no page for it.
    pub fn get_url(greeting: Greeting) -> (url: Result<String, ScrapeError>)
        ensures
            match url {
                Ok(address) => Self::page(greeting) == Some(address@),
                Err(error) => Self::page(greeting) is None && error@
                    == Failure::UnsupportedGreeting,
            },
    {
        match greeting {
            Greeting::BuonGiorno => Ok(String::from_str(BUONGIORNO_URL)),
            Greeting::BuonGiornoWeekday(Weekday::Mon) => Ok(
                String::from_str(BUONGIORNO_LUNEDI_URL),
            ),
            Greeting::BuonGiornoWeekday(Weekday::Tue) => Ok(
                String::from_str(BUONGIORNO_MARTEDI_URL),
            ),
            Greeting::BuonGiornoWeekday(Weekday::Wed) => Ok(
                String::from_str(BUONGIORNO_MERCOLEDI_URL),
            ),
            Greeting::BuonGiornoWeekday(Weekday::Thu) => Ok(
                String::from_str(BUONGIORNO_GIOVEDI_URL),
            ),
            Greeting::BuonGiornoWeekday(Weekday::Fri) => Ok(
                String::from_str(BUONGIORNO_VENERDI_URL),
            ),
            Greeting::BuonGiornoWeekday(Weekday::Sat) => Ok(
                String::from_str(BUONGIORNO_SABATO_URL),
            ),
            Greeting::BuonGiornoWeekday(Weekday::Sun) => Ok(
                String::from_str(BUONGIORNO_DOMENICA_URL),
            ),
            Greeting::Weekend => Ok(String::from_str(WEEKEND_URL)),
            Greeting::BuonPomeriggio => Ok(String::from_str(BUON_POMERIGGIO_URL)),
            Greeting::BuonaNotte => Ok(String::from_str(BUONA_NOTTE_URL)),
            Greeting::BuonaSerata => Ok(String::from_str(BUONA_SERATA_URL)),
            Greeting::Compleanno => Ok(String::from_str(BUON_COMPLEANNO_URL)),
            Greeting::Capodanno => Ok(String::from_str(CAPODANNO_URL)),
            Greeting::Epifania => Ok(String::from_str(BEFANA_URL)),
            Greeting::SanValentino => Ok(String::from_str(SAN_VALENTINO_URL)),
            Greeting::GiovediGrasso => Ok(String::from_str(CARNEVALE_URL)),
            Greeting::MartediGrasso => Ok(String::from_str(CARNEVALE_URL)),
            Greeting::FestaDelleDonne => Ok(String::from_str(FESTA_DELLA_DONNA_URL)),
            Greeting::FestaDelPapa => Ok(String::from_str(FESTA_DEL_PAPA_URL)),
            Greeting::FestaDellaMamma => Ok(String::from_str(FESTA_DELLA_MAMMA_URL)),
            Greeting::DomenicaDellePalme => Ok(String::from_str(PALME_URL)),
            Greeting::Pasqua => Ok(String::from_str(PASQUA_URL)),
            Greeting::Pasquetta => Ok(String::from_str(PASQUETTA_URL)),
            Greeting::Liberazione => Ok(String::from_str(URL_25_APRILE_URL)),
            Greeting::FestaDeiLavoratori => Ok(String::from_str(PRIMO_MAGGIO_URL)),
            Greeting::DueGiugno => Ok(String::from_str(DUE_GIUGNO_URL)),
            Greeting::Ferragosto => Ok(String::from_str(FERRAGOSTO_URL)),
            Greeting::Halloween => Ok(String::from_str(HALLOWEEEN_URL)),
            Greeting::Ognissanti => Ok(String::from_str(OGNISSANTI_URL)),
            Greeting::Defunti => Ok(String::from_str(DEFUNTI_URL)),
            Greeting::SanNicola => Ok(String::from_str(SAN_NICOLA_URL)),
            Greeting::SantAmbrogio => Ok(String::from_str(SANTAMBROGIO_URL)),
            Greeting::ImmacolataConcenzione => Ok(String::from_str(IMMACOLATA_URL)),
            Greeting::SantaLucia => Ok(String::from_str(SANTA_LUCIA_URL)),
            Greeting::Natale => Ok(String::from_str(BUON_NATALE_URL)),
            Greeting::SantoStefano => Ok(String::from_str(SANTO_STEFANO_URL)),
            Greeting::SanSilvestro => Ok(String::from_str(SAN_SILVESTRO_URL)),
            _ => Err(ScrapeError::UnsupportedGreeting),
        }
    }

    /// Where the site's pages list their pictures.
    pub fn layout() -> (layout: PageLayout)
        ensures
            layout@ == Self::page_layout(),
    {
        PageLayout {
            anchor: "div[class=\"entry-content clear\"]",
            gallery: None,
            attribute: "data-src",
            domain: None,
        }
    }

    /// The addresses of the pictures on a page of the site, from what fetching
    /// the page gave: its body, or the description of why it could not be had.
    pub fn scrape_page(fetched: Result<String, String>) -> (result: Result<
        Vec<url::Url>,
        ScrapeError,
    >)
        ensures
            outcome(result) == fetched_images(fetched, Self::page_layout()),
    {
        scrape_page(fetched, &Self::layout())
    }

    /// The addresses of the pictures that the site lists for `greeting`, with
    /// the page fetched by `fetch`: it is handed the address of the page and
    /// gives the body, or the description of why the page could not be had.
    /// Where the site has no page for the greeting nothing is fetched.
    pub fn scrape_with<F: FnOnce(String) -> Result<String, String>>(
        greeting: Greeting,
        fetch: F,
    ) -> (result: Result<Vec<url::Url>, ScrapeError>)
        requires
            forall|url: String| fetch.requires((url,)),
        ensures
            match Self::page(greeting) {
                None => outcome(result) == Err::<Seq<url::Url>, Failure>(
                    Failure::UnsupportedGreeting,
                ),
                Some(address) => exists|url: String, fetched: Result<String, String>|
                    url@ == address && fetch.ensures((url,), fetched) && outcome(result)
                        == fetched_images(fetched, Self::page_layout()),
            },
    {
        match Self::get_url(greeting) {
            Err(error) => Err(error),
            Ok(url) => Self::scrape_page(fetch(url)),
        }
    }
}

} // verus!
