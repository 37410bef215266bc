//! The provider <https://buongiornoimmagini.it>.
use vstd::prelude::*;
use vstd::string::StringExecFns;
use crate::calendar::Weekday;
use crate::error::{Failure, ScrapeError};
use crate::greeting::Greeting;
use crate::markup::{fetched_images, outcome, scrape_page, Layout, PageLayout};

verus! {

/// Page for `BuonGiorno`.
pub const BUONGIORNO_URL: &'static str = "https://buongiornoimmagini.it/immagini-buongiorno/";

/// Page for `BuonGiornoWeekday(Mon)`.
pub const BUONGIORNO_LUNEDI_URL: &'static str = "https://buongiornoimmagini.it/buon-giorno-lunedi/";

/// Page for `BuonGiornoWeekday(Tue)`.
pub const BUONGIORNO_MARTEDI_URL: &'static str =
    "https://buongiornoimmagini.it/buon-giorno-buon-martedi/";

/// Page for `BuonGiornoWeekday(Wed)`.
pub const BUONGIORNO_MERCOLEDI_URL: &'static str =
    "https://buongiornoimmagini.it/buon-giorno-mercoledi/";

/// Page for `BuonGiornoWeekday(Thu)`.
pub const BUONGIORNO_GIOVEDI_URL: &'static str =
    "https://buongiornoimmagini.it/buon-giorno-buon-giovedi/";

/// Page for `BuonGiornoWeekday(Fri)`.
pub const BUONGIORNO_VENERDI_URL: &'static str =
    "https://buongiornoimmagini.it/buon-giorno-buon-venerdi/";

/// Page for `BuonGiornoWeekday(Sat)`.
pub const BUONGIORNO_SABATO_URL: &'static str =
    "https://buongiornoimmagini.it/buon-giorno-buon-sabato/";

/// Page for `BuonGiornoWeekday(Sun)`.
pub const BUONGIORNO_DOMENICA_URL: &'static str = "https://buongiornoimmagini.it/buona-domenica/";

/// Page for `Weekend`.
pub const WEEKEND_URL: &'static str = "https://buongiornoimmagini.it/buon-weekend/";

/// Page for `BuonPranzo`.
pub const BUON_PRANZO_URL: &'static str = "https://buongiornoimmagini.it/buon-pranzo/";

/// Page for `BuonaNotte`.
pub const BUONA_NOTTE_URL: &'static str = "https://buongiornoimmagini.it/buonanotte/";

/// Page for `BuonaSerata`.
pub const BUONA_SERATA_URL: &'static str = "https://buongiornoimmagini.it/buona-serata/";

/// Page for `BuonaCena`.
pub const BUONA_CENA_URL: &'static str = "https://buongiornoimmagini.it/buona-cena/";

/// Provider of the pictures listed on <https://buongiornoimmagini.it>.
#[derive(Debug, Clone, Copy, Default)]
pub struct BuongiornoImmagini;

impl BuongiornoImmagini {
    /// The address of the page that lists the pictures for a good morning on
    /// a day of the week.
    pub open spec fn weekday_page(weekday: Weekday) -> Seq<char> {
        match weekday {
            Weekday::Mon => BUONGIORNO_LUNEDI_URL@,
            Weekday::Tue => BUONGIORNO_MARTEDI_URL@,
            Weekday::Wed => BUONGIORNO_MERCOLEDI_URL@,
            Weekday::Thu => BUONGIORNO_GIOVEDI_URL@,
            Weekday::Fri => BUONGIORNO_VENERDI_URL@,
            Weekday::Sat => BUONGIORNO_SABATO_URL@,
            Weekday::Sun => BUONGIORNO_DOMENICA_URL@,
        }
    }

    /// The address of the page that lists the pictures for a greeting, for the
    /// greetings that the site has a page for.
    pub open spec fn page(greeting: Greeting) -> Option<Seq<char>> {
        match greeting {
            Greeting::BuonGiorno => Some(BUONGIORNO_URL@),
            Greeting::BuonGiornoWeekday(weekday) => Some(Self::weekday_page(weekday)),
            Greeting::Weekend => Some(WEEKEND_URL@),
            Greeting::BuonPranzo => Some(BUON_PRANZO_URL@),
            Greeting::BuonaNotte => Some(BUONA_NOTTE_URL@),
            Greeting::BuonaSerata => Some(BUONA_SERATA_URL@),
            Greeting::BuonaCena => Some(BUONA_CENA_URL@),
            _ => None,
        }
    }

    /// Where the site's pages list their pictures.
    pub open spec fn page_layout() -> Layout {
        Layout {
            anchor: "main"@,
            gallery: None,
            attribute: "src"@,
            domain: None,
        }
    }

    /// The address of the page that lists the pictures for `greeting`, or
    /// `UnsupportedGreeting` where the site has no page for it.
    pub fn get_url(greeting: Greeting) -> (url: Result<String, ScrapeError>)
        ensures
            match url {
                Ok(address) => Self::page(greeting) == Some(address@),
                Err(error) => Self::page(greeting) is None && error@
                    == Failure::UnsupportedGreeting,
            },
    {
        match greeting {
            Greeting::BuonGiorno => Ok(String::from_str(BUONGIORNO_URL)),
            Greeting::BuonGiornoWeekday(Weekday::Mon) => Ok(
                String::from_str(BUONGIORNO_LUNEDI_URL),
            ),
            Greeting::BuonGiornoWeekday(Weekday::Tue) => Ok(
                String::from_str(BUONGIORNO_MARTEDI_URL),
            ),
            Greeting::BuonGiornoWeekday(Weekday::Wed) => Ok(
                String::from_str(BUONGIORNO_MERCOLEDI_URL),
            ),
            Greeting::BuonGiornoWeekday(Weekday::Thu) => Ok(
                String::from_str(BUONGIORNO_GIOVEDI_URL),
            ),
            Greeting::BuonGiornoWeekday(Weekday::Fri) => Ok(
                String::from_str(BUONGIORNO_VENERDI_URL),
            ),
            Greeting::BuonGiornoWeekday(Weekday::Sat) => Ok(
                String::from_str(BUONGIORNO_SABATO_URL),
            ),
            Greeting::BuonGiornoWeekday(Weekday::Sun) => Ok(
                String::from_str(BUONGIORNO_DOMENICA_URL),
            ),
            Greeting::Weekend => Ok(String::from_str(WEEKEND_URL)),
            Greeting::BuonPranzo => Ok(String::from_str(BUON_PRANZO_URL)),
            Greeting::BuonaNotte => Ok(String::from_str(BUONA_NOTTE_URL)),
            Greeting::BuonaSerata => Ok(String::from_str(BUONA_SERATA_URL)),
            Greeting::BuonaCena => Ok(String::from_str(BUONA_CENA_URL)),
            _ => Err(ScrapeError::UnsupportedGreeting),
        }
    }

    /// Where the site's pages list their pictures.
    pub fn layout() -> (layout: PageLayout)
        ensures
            layout@ == Self::page_layout(),
    {
        PageLayout {
            anchor: "main",
            gallery: None,
            attribute: "src",
            domain: None,
        }
    }

    /// The addresses of the pictures on a page of the site, from what fetching
    /// the page gave: its body, or the description of why it could not be had.
    pub fn scrape_page(fetched: Result<String, String>) -> (result: Result<
        Vec<url::Url>,
        ScrapeError,
    >)
        ensures
            outcome(result) == fetched_images(fetched, Self::page_layout()),
    {
        scrape_page(fetched, &Self::layout())
    }

    /// The addresses of the pictures that the site lists for `greeting`, with
    /// the page fetched by `fetch`: it is handed the address of the page and
    /// gives the body, or the description of why the page could not be had.
    /// Where the site has no page for the greeting nothing is fetched.
    pub fn scrape_with<F: FnOnce(String) -> Result<String, String>>(
        greeting: Greeting,
        fetch: F,
    ) -> (result: Result<Vec<url::Url>, ScrapeError>)
        requires
            forall|url: String| fetch.requires((url,)),
        ensures
            match Self::page(greeting) {
                None => outcome(result) == Err::<Seq<url::Url>, Failure>(
                    Failure::UnsupportedGreeting,
                ),
                Some(address) => exists|url: String, fetched: Result<String, String>|
                    url@ == address && fetch.ensures((url,), fetched) && outcome(result)
                        == fetched_images(fetched, Self::page_layout()),
            },
    {
        match Self::get_url(greeting) {
            Err(error) => Err(error),
            Ok(url) => Self::scrape_page(fetch(url)),
        }
    }
}

} // verus!
