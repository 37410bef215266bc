//! Pictures listed on a provider's page.
//!
//! The page is parsed and queried by `scraper`, and addresses are parsed by
//! `url`. What those calls return is named here; which elements are looked
//! at, which addresses are kept and which failure is reported is decided in
//! verified code, and stated over those names.
use vstd::prelude::*;
use vstd::string::StringExecFns;
use crate::error::{Failure, ScrapeError};

verus! {

/// A parsed document of `scraper`, carried as it is.
#[verifier::external_type_specification]
#[verifier::external_body]
pub struct ExHtml(scraper::Html);

/// A parsed selector of `scraper`, carried as it is.
#[verifier::external_type_specification]
#[verifier::external_body]
pub struct ExSelector(scraper::Selector);

/// An element of a parsed document of `scraper`, carried as it is.
#[verifier::external_type_specification]
#[verifier::external_body]
pub struct ExElementRef<'a>(scraper::ElementRef<'a>);

/// A parsed address of `url`, carried as it is.
#[verifier::external_type_specification]
#[verifier::external_body]
pub struct ExUrl(url::Url);

/// The document that `scraper::Html::parse_document` builds from a text.
pub uninterp spec fn parsed_document(text: Seq<char>) -> scraper::Html;

/// What `scraper::Selector::parse` makes of a selector's text: the selector,
/// or the description of the error.
pub uninterp spec fn parsed_selector(css: Seq<char>) -> Result<scraper::Selector, Seq<char>>;

/// The elements that `scraper::Html::select` yields, in the order in which
/// it yields them.
pub uninterp spec fn document_matches(
    document: scraper::Html,
    selector: scraper::Selector,
) -> Seq<scraper::ElementRef<'static>>;

/// The elements that `scraper::ElementRef::select` yields, in the order in
/// which it yields them.
pub uninterp spec fn element_matches(
    element: scraper::ElementRef,
    selector: scraper::Selector,
) -> Seq<scraper::ElementRef>;

/// The value that `scraper::node::Element::attr` finds for an attribute's
/// name on an element, if it has that attribute.
pub uninterp spec fn element_attribute(element: scraper::ElementRef, name: Seq<char>) -> Option<
    Seq<char>,
>;

/// The address that `url::Url::from_str` reads from a text, if it accepts it.
pub uninterp spec fn parsed_url(text: Seq<char>) -> Option<url::Url>;

/// The scheme that `url::Url::scheme` gives for an address.
pub uninterp spec fn url_scheme(address: url::Url) -> Seq<char>;

/// The domain that `url::Url::domain` gives for an address, if it has one.
pub uninterp spec fn url_domain(address: url::Url) -> Option<Seq<char>>;

/// A selector or an error text, the text as a sequence of characters.
pub open spec fn selector_outcome(parsed: Result<scraper::Selector, String>) -> Result<
    scraper::Selector,
    Seq<char>,
> {
    match parsed {
        Ok(selector) => Ok(selector),
        Err(text) => Err(text@),
    }
}

/// `scraper::Html::parse_document`: the document built from `text`. Parsing
/// never fails and depends on the text alone.
#[verifier::external_body]
fn parse_document(text: &str) -> (document: scraper::Html)
    ensures
        document == parsed_document(text@),
{
    scraper::Html::parse_document(text)
}

/// `scraper::Selector::parse`: the selector that `css` denotes, or the
/// description of the error where `css` is no selector.
#[verifier::external_body]
fn parse_selector(css: &str) -> (parsed: Result<scraper::Selector, String>)
    ensures
        selector_outcome(parsed) == parsed_selector(css@),
{
    match scraper::Selector::parse(css) {
        Ok(selector) => Ok(selector),
        Err(error) => Err(error.to_string()),
    }
}

/// `scraper::Html::select`: every element of the document that the selector
/// matches, in the order of the iterator.
#[verifier::external_body]
fn select_in_document<'a>(document: &'a scraper::Html, selector: &scraper::Selector) -> (found: Vec<
    scraper::ElementRef<'a>,
>)
    ensures
        found@ == document_matches(*document, *selector),
{
    document.select(selector).collect()
}

/// `scraper::ElementRef::select`: every element below `element` that the
/// selector matches, in the order of the iterator.
#[verifier::external_body]
fn select_in_element<'a>(element: &scraper::ElementRef<'a>, selector: &scraper::Selector) -> (found:
    Vec<scraper::ElementRef<'a>>)
    ensures
        found@ == element_matches(*element, *selector),
{
    element.select(selector).collect()
}

/// `scraper::node::Element::attr`: the value of the element's attribute
/// `name`, or nothing where the element has no such attribute.
#[verifier::external_body]
fn attribute(element: &scraper::ElementRef, name: &str) -> (value: Option<String>)
    ensures
        value.deep_view() == element_attribute(*element, name@),
{
    element.value().attr(name).map(String::from)
}

/// `url::Url::from_str`: the address that `text` spells, or nothing where
/// `text` is no absolute address.
#[verifier::external_body]
fn parse_url(text: &str) -> (address: Option<url::Url>)
    ensures
        address == parsed_url(text@),
{
    <url::Url as std::str::FromStr>::from_str(text).ok()
}

/// `url::Url::scheme`: the scheme of the address, in lower case and without
/// the colon.
#[verifier::external_body]
fn scheme_of(address: &url::Url) -> (scheme: String)
    ensures
        scheme@ == url_scheme(*address),
{
    String::from(address.scheme())
}

/// `url::Url::domain`: the domain name of the address's host, or nothing
/// where the host is no domain name.
#[verifier::external_body]
fn domain_of(address: &url::Url) -> (domain: Option<String>)
    ensures
        domain.deep_view() == url_domain(*address),
{
    address.domain().map(String::from)
}

/// Selector of the elements that hold a picture.
pub const IMAGE_SELECTOR: &'static str = "img";

/// Scheme of an address that is kept.
pub const HTTP: &'static str = "http";

/// Scheme of an address that is kept.
pub const HTTPS: &'static str = "https";

/// The text reported where the page lacks the element that lists the pictures.
pub const MISSING_CONTENT: &'static str = "could not find a div with class entry-content";

/// Where a provider's page lists its pictures.
pub struct PageLayout {
    /// Selector of the element that holds the listing: its first match counts.
    pub anchor: &'static str,
    /// For a page whose pictures lie in thumbnails: the selector of the
    /// gallery below the anchor, whose first match counts, and the selector
    /// of the thumbnails in it.
    pub gallery: Option<(&'static str, &'static str)>,
    /// Name of the attribute that holds a picture's address.
    pub attribute: &'static str,
    /// Where set, only addresses of this domain are kept.
    pub domain: Option<&'static str>,
}

/// A [`PageLayout`] with its texts as sequences of characters.
pub struct Layout {
    pub anchor: Seq<char>,
    pub gallery: Option<(Seq<char>, Seq<char>)>,
    pub attribute: Seq<char>,
    pub domain: Option<Seq<char>>,
}

impl View for PageLayout {
    type V = Layout;

    open spec fn view(&self) -> Layout {
        Layout {
            anchor: self.anchor@,
            gallery: match self.gallery {
                Some((gallery, thumbnail)) => Some((gallery@, thumbnail@)),
                None => None,
            },
            attribute: self.attribute@,
            domain: match self.domain {
                Some(domain) => Some(domain@),
                None => None,
            },
        }
    }
}

/// The addresses found, or the failure, the error's texts as sequences of
/// characters.
pub open spec fn outcome(result: Result<Vec<url::Url>, ScrapeError>) -> Result<
    Seq<url::Url>,
    Failure,
> {
    match result {
        Ok(addresses) => Ok(addresses@),
        Err(error) => Err(error@),
    }
}

/// Whether the scheme of `address` is `http` or `https`.
pub open spec fn is_web_address(address: url::Url) -> bool {
    url_scheme(address) == HTTP@ || url_scheme(address) == HTTPS@
}

/// The address that a picture element contributes: the value of its
/// attribute, where it has the attribute, the value parses as an absolute
/// address whose scheme is `http` or `https`, and the address is of the
/// wanted domain, if one is wanted.
pub open spec fn image_address(
    image: scraper::ElementRef,
    attribute: Seq<char>,
    domain: Option<Seq<char>>,
) -> Option<url::Url> {
    match element_attribute(image, attribute) {
        None => None,
        Some(value) => match parsed_url(value) {
            None => None,
            Some(address) => if !is_web_address(address) {
                None
            } else if domain is Some && url_domain(address) != domain {
                None
            } else {
                Some(address)
            },
        },
    }
}

/// The addresses that the picture elements contribute, in the order of the
/// elements.
pub open spec fn image_addresses(
    images: Seq<scraper::ElementRef>,
    attribute: Seq<char>,
    domain: Option<Seq<char>>,
) -> Seq<url::Url>
    decreases images.len(),
{
    if images.len() == 0 {
        Seq::empty()
    } else {
        let before = image_addresses(images.drop_last(), attribute, domain);
        match image_address(images.last(), attribute, domain) {
            Some(address) => before.push(address),
            None => before,
        }
    }
}

/// The addresses of the pictures below each of the elements, in the order of
/// the elements.
pub open spec fn addresses_below(
    scopes: Seq<scraper::ElementRef>,
    images: scraper::Selector,
    attribute: Seq<char>,
    domain: Option<Seq<char>>,
) -> Seq<url::Url>
    decreases scopes.len(),
{
    if scopes.len() == 0 {
        Seq::empty()
    } else {
        addresses_below(scopes.drop_last(), images, attribute, domain) + image_addresses(
            element_matches(scopes.last(), images),
            attribute,
            domain,
        )
    }
}

/// The element that holds the listing: the first that the selector `css`
/// matches in the document. A selector that does not parse and a document
/// without a match are failures.
pub open spec fn anchor_of(document: scraper::Html, css: Seq<char>) -> Result<
    scraper::ElementRef<'static>,
    Failure,
> {
    match parsed_selector(css) {
        Err(text) => Err(Failure::Css(text)),
        Ok(selector) => if document_matches(document, selector).len() == 0 {
            Err(Failure::UnexpectedHtml(MISSING_CONTENT@))
        } else {
            Ok(document_matches(document, selector)[0])
        },
    }
}

/// The gallery: the first element below `anchor` that the selector `css`
/// matches. A selector that does not parse and an anchor without a match are
/// failures.
pub open spec fn gallery_of(anchor: scraper::ElementRef, css: Seq<char>) -> Result<
    scraper::ElementRef,
    Failure,
> {
    match parsed_selector(css) {
        Err(text) => Err(Failure::Css(text)),
        Ok(selector) => if element_matches(anchor, selector).len() == 0 {
            Err(Failure::UnexpectedHtml(MISSING_CONTENT@))
        } else {
            Ok(element_matches(anchor, selector)[0])
        },
    }
}

/// The thumbnails: every element below `gallery` that the selector `css`
/// matches. A selector that does not parse is a failure.
pub open spec fn thumbnails_of(gallery: scraper::ElementRef, css: Seq<char>) -> Result<
    Seq<scraper::ElementRef>,
    Failure,
> {
    match parsed_selector(css) {
        Err(text) => Err(Failure::Css(text)),
        Ok(selector) => Ok(element_matches(gallery, selector)),
    }
}

/// The elements below which the pictures are looked for: the anchor itself,
/// or the thumbnails of the gallery below it.
pub open spec fn picture_scopes(document: scraper::Html, layout: Layout) -> Result<
    Seq<scraper::ElementRef<'static>>,
    Failure,
> {
    match anchor_of(document, layout.anchor) {
        Err(failure) => Err(failure),
        Ok(anchor) => match layout.gallery {
            None => Ok(seq![anchor]),
            Some((gallery, thumbnail)) => match gallery_of(anchor, gallery) {
                Err(failure) => Err(failure),
                Ok(gallery) => thumbnails_of(gallery, thumbnail),
            },
        },
    }
}

/// What a page gives: the addresses of its pictures in the order in which
/// they are found, with nothing left out for being there twice; or the
/// failure.
pub open spec fn page_images(body: Seq<char>, layout: Layout) -> Result<Seq<url::Url>, Failure> {
    match picture_scopes(parsed_document(body), layout) {
        Err(failure) => Err(failure),
        Ok(scopes) => match parsed_selector(IMAGE_SELECTOR@) {
            Err(text) => Err(Failure::Css(text)),
            Ok(images) => {
                let found = addresses_below(scopes, images, layout.attribute, layout.domain);
                if found.len() == 0 {
                    Err(Failure::NoImages)
                } else {
                    Ok(found)
                }
            },
        },
    }
}

/// What fetching and reading a page gives: the failure of the transport,
/// with its description, where the page could not be had, and else what the
/// page gives.
pub open spec fn fetched_images(fetched: Result<String, String>, layout: Layout) -> Result<
    Seq<url::Url>,
    Failure,
> {
    match fetched {
        Err(text) => Err(Failure::Http(text@)),
        Ok(body) => page_images(body@, layout),
    }
}

/// A page that gives addresses gives at least one.
pub proof fn lemma_images_are_not_empty(body: Seq<char>, layout: Layout)
    ensures
        page_images(body, layout) matches Ok(found) ==> found.len() > 0,
{
}

/// A page in which nothing matches the anchor's selector fails as unexpected
/// markup.
pub proof fn lemma_missing_anchor(body: Seq<char>, layout: Layout, anchor: scraper::Selector)
    requires
        parsed_selector(layout.anchor) == Ok::<scraper::Selector, Seq<char>>(anchor),
        document_matches(parsed_document(body), anchor).len() == 0,
    ensures
        page_images(body, layout) == Err::<Seq<url::Url>, Failure>(
            Failure::UnexpectedHtml(MISSING_CONTENT@),
        ),
{
}

/// A page with the anchor, and the gallery where one is asked for, gives the
/// addresses found below it where there is at least one, and fails for want
/// of pictures where there is none.
pub proof fn lemma_anchor_present(
    body: Seq<char>,
    layout: Layout,
    scopes: Seq<scraper::ElementRef<'static>>,
    images: scraper::Selector,
)
    requires
        picture_scopes(parsed_document(body), layout) == Ok::<
            Seq<scraper::ElementRef<'static>>,
            Failure,
        >(scopes),
        parsed_selector(IMAGE_SELECTOR@) == Ok::<scraper::Selector, Seq<char>>(images),
    ensures
        addresses_below(scopes, images, layout.attribute, layout.domain).len() > 0
            ==> page_images(body, layout) == Ok::<Seq<url::Url>, Failure>(
            addresses_below(scopes, images, layout.attribute, layout.domain),
        ),
        addresses_below(scopes, images, layout.attribute, layout.domain).len() == 0
            ==> page_images(body, layout) == Err::<Seq<url::Url>, Failure>(Failure::NoImages),
{
}

/// Whether the scheme of `address` is `http` or `https`.
fn has_web_scheme(address: &url::Url) -> (yes: bool)
    ensures
        yes == is_web_address(*address),
{
    let scheme = scheme_of(address);
    scheme == String::from_str(HTTP) || scheme == String::from_str(HTTPS)
}

/// Whether `address` is of the domain `wanted`.
fn has_domain(address: &url::Url, wanted: &str) -> (yes: bool)
    ensures
        yes == (url_domain(*address) == Some(wanted@)),
{
    match domain_of(address) {
        None => false,
        Some(domain) => {
            let wanted = String::from_str(wanted);
            domain == wanted
        },
    }
}

/// The address that a picture element contributes, if any.
fn read_image_address(image: &scraper::ElementRef, layout: &PageLayout) -> (address: Option<
    url::Url,
>)
    ensures
        address == image_address(*image, layout@.attribute, layout@.domain),
{
    let value = match attribute(image, layout.attribute) {
        None => {
            return None;
        },
        Some(value) => value,
    };
    let address = match parse_url(value.as_str()) {
        None => {
            return None;
        },
        Some(address) => address,
    };
    if !has_web_scheme(&address) {
        return None;
    }
    match layout.domain {
        None => Some(address),
        Some(wanted) => if has_domain(&address, wanted) {
            Some(address)
        } else {
            None
        },
    }
}

/// Appends to `found` the addresses of the pictures below `scope`.
fn collect_below(
    scope: &scraper::ElementRef,
    images: &scraper::Selector,
    layout: &PageLayout,
    found: &mut Vec<url::Url>,
)
    ensures
        final(found)@ == old(found)@ + image_addresses(
            element_matches(*scope, *images),
            layout@.attribute,
            layout@.domain,
        ),
{
    let pictures = select_in_element(scope, images);
    let ghost before = found@;
    let mut i: usize = 0;
    while i < pictures.len()
        invariant
            i <= pictures.len(),
            pictures@ == element_matches(*scope, *images),
            found@ == before + image_addresses(
                pictures@.take(i as int),
                layout@.attribute,
                layout@.domain,
            ),
        decreases pictures.len() - i,
    {
        let address = read_image_address(&pictures[i], layout);
        proof {
            assert(pictures@.take(i + 1).drop_last() =~= pictures@.take(i as int));
        }
        if let Some(address) = address {
            found.push(address);
        }
        i = i + 1;
    }
    proof {
        assert(pictures@.take(pictures.len() as int) =~= pictures@);
    }
}

/// The addresses of the pictures below each of `scopes`, in order.
fn collect_all(
    scopes: &Vec<scraper::ElementRef>,
    images: &scraper::Selector,
    layout: &PageLayout,
) -> (found: Vec<url::Url>)
    ensures
        found@ == addresses_below(scopes@, *images, layout@.attribute, layout@.domain),
{
    let mut found: Vec<url::Url> = Vec::new();
    let mut i: usize = 0;
    while i < scopes.len()
        invariant
            i <= scopes.len(),
            found@ == addresses_below(
                scopes@.take(i as int),
                *images,
                layout@.attribute,
                layout@.domain,
            ),
        decreases scopes.len() - i,
    {
        proof {
            assert(scopes@.take(i + 1).drop_last() =~= scopes@.take(i as int));
        }
        collect_below(&scopes[i], images, layout, &mut found);
        i = i + 1;
    }
    proof {
        assert(scopes@.take(scopes.len() as int) =~= scopes@);
    }
    found
}

/// The error for a page that lacks the element that lists the pictures.
fn missing_content() -> (error: ScrapeError)
    ensures
        error@ == Failure::UnexpectedHtml(MISSING_CONTENT@),
{
    ScrapeError::UnexpectedHtml(String::from_str(MISSING_CONTENT))
}

/// The addresses below `scopes`, or the failure for want of pictures.
fn gather(scopes: &Vec<scraper::ElementRef>, layout: &PageLayout) -> (result: Result<
    Vec<url::Url>,
    ScrapeError,
>)
    ensures
        outcome(result) == match parsed_selector(IMAGE_SELECTOR@) {
            Err(text) => Err::<Seq<url::Url>, Failure>(Failure::Css(text)),
            Ok(images) => if addresses_below(
                scopes@,
                images,
                layout@.attribute,
                layout@.domain,
            ).len() == 0 {
                Err(Failure::NoImages)
            } else {
                Ok(addresses_below(scopes@, images, layout@.attribute, layout@.domain))
            },
        },
{
    let images = match parse_selector(IMAGE_SELECTOR) {
        Err(text) => {
            return Err(ScrapeError::Css(text));
        },
        Ok(images) => images,
    };
    let found = collect_all(scopes, &images, layout);
    if found.len() == 0 {
        Err(ScrapeError::NoImages)
    } else {
        Ok(found)
    }
}

/// The addresses of the pictures that the page `body` lists, for a page laid
/// out as `layout` says; or why there are none.
pub fn extract_images(body: &str, layout: &PageLayout) -> (result: Result<
    Vec<url::Url>,
    ScrapeError,
>)
    ensures
        outcome(result) == page_images(body@, layout@),
{
    let document = parse_document(body);
    let anchor = match parse_selector(layout.anchor) {
        Err(text) => {
            return Err(ScrapeError::Css(text));
        },
        Ok(anchor) => anchor,
    };
    let mut anchors = select_in_document(&document, &anchor);
    if anchors.len() == 0 {
        return Err(missing_content());
    }
    match layout.gallery {
        None => {
            anchors.truncate(1);
            proof {
                assert(anchors@ =~= seq![document_matches(document, anchor)[0]]);
            }
            gather(&anchors, layout)
        },
        Some((gallery, thumbnail)) => {
            let gallery = match parse_selector(gallery) {
                Err(text) => {
                    return Err(ScrapeError::Css(text));
                },
                Ok(gallery) => gallery,
            };
            let galleries = select_in_element(&anchors[0], &gallery);
            if galleries.len() == 0 {
                return Err(missing_content());
            }
            let thumbnail = match parse_selector(thumbnail) {
                Err(text) => {
                    return Err(ScrapeError::Css(text));
                },
                Ok(thumbnail) => thumbnail,
            };
            let thumbnails = select_in_element(&galleries[0], &thumbnail);
            gather(&thumbnails, layout)
        },
    }
}

/// The addresses of the pictures on a page, from what fetching the page
/// gave: its body, or the description of why it could not be had.
pub fn scrape_page(fetched: Result<String, String>, layout: &PageLayout) -> (result: Result<
    Vec<url::Url>,
    ScrapeError,
>)
    ensures
        outcome(result) == fetched_images(fetched, layout@),
{
    match fetched {
        Err(text) => Err(ScrapeError::Http(text)),
        Ok(body) => extract_images(body.as_str(), layout),
    }
}

} // verus!
