//! Why a provider's page gave no pictures.
use vstd::prelude::*;
use vstd::string::StringExecFns;

verus! {

/// Why scraping failed.
#[derive(Debug, Eq, PartialEq)]
pub enum ScrapeError {
    /// The provider has no page for the greeting.
    UnsupportedGreeting,
    /// The page could not be fetched.
    Http(String),
    /// A selector could not be parsed.
    Css(String),
    /// The page does not hold the element under which the pictures are listed.
    UnexpectedHtml(String),
    /// The page lists no picture.
    NoImages,
}

/// What scraping gives: a value, or why there is none.
pub type ScrapeResult<T> = Result<T, ScrapeError>;

/// A [`ScrapeError`] with its texts as sequences of characters.
pub enum Failure {
    UnsupportedGreeting,
    Http(Seq<char>),
    Css(Seq<char>),
    UnexpectedHtml(Seq<char>),
    NoImages,
}

impl View for ScrapeError {
    type V = Failure;

    open spec fn view(&self) -> Failure {
        match self {
            ScrapeError::UnsupportedGreeting => Failure::UnsupportedGreeting,
            ScrapeError::Http(text) => Failure::Http(text@),
            ScrapeError::Css(text) => Failure::Css(text@),
            ScrapeError::UnexpectedHtml(text) => Failure::UnexpectedHtml(text@),
            ScrapeError::NoImages => Failure::NoImages,
        }
    }
}

impl Failure {
    /// The text that describes the failure.
    pub open spec fn message(self) -> Seq<char> {
        match self {
            Failure::UnsupportedGreeting => "this scraper doesn't support this greeting type"@,
            Failure::Http(text) => "http error: "@ + text,
            Failure::Css(text) => "css parser error: "@ + text,
            Failure::UnexpectedHtml(text) => "unexpected HTML: "@ + text,
            Failure::NoImages => "could not find any image in the page"@,
        }
    }
}

impl ScrapeError {
    /// The text that describes the error.
    pub fn message(&self) -> (text: String)
        ensures
            text@ == self@.message(),
    {
        match self {
            ScrapeError::UnsupportedGreeting => String::from_str(
                "this scraper doesn't support this greeting type",
            ),
            ScrapeError::Http(text) => String::from_str("http error: ").concat(text.as_str()),
            ScrapeError::Css(text) => String::from_str("css parser error: ").concat(text.as_str()),
            ScrapeError::UnexpectedHtml(text) => String::from_str("unexpected HTML: ").concat(
                text.as_str(),
            ),
            ScrapeError::NoImages => String::from_str("could not find any image in the page"),
        }
    }
}

} // verus!
