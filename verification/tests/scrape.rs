use buongiornissimo_rs::markup::{extract_images, scrape_page, PageLayout};
use buongiornissimo_rs::{
    Augurando, BuongiornissimoCaffe, BuongiornoImmagini, Greeting, IlMondoDiGrazia, ScrapeError,
    TiCondivido, Weekday,
};

fn addresses(result: Result<Vec<url::Url>, ScrapeError>) -> Vec<String> {
    result.unwrap().iter().map(|address| address.as_str().to_string()).collect()
}

fn page(body: &str) -> Result<String, String> {
    Ok(body.to_string())
}

#[test]
fn pictures_below_the_anchor_are_found_in_order() {
    let body = "<html><body><main>\
        <img src=\"https://a.example/one.png\">\
        <p><img src=\"https://b.example/two.png\"></p>\
        <img src=\"https://a.example/three.png\">\
        </main></body></html>";
    assert_eq!(
        addresses(BuongiornoImmagini::scrape_page(page(body))),
        vec![
            "https://a.example/one.png",
            "https://b.example/two.png",
            "https://a.example/three.png"
        ]
    );
}

#[test]
fn pictures_outside_the_anchor_are_left_out() {
    let body = "<html><body><img src=\"https://a.example/before.png\"><main>\
        <img src=\"https://a.example/in.png\"></main>\
        <img src=\"https://a.example/after.png\"></body></html>";
    assert_eq!(
        addresses(BuongiornoImmagini::scrape_page(page(body))),
        vec!["https://a.example/in.png"]
    );
}

#[test]
fn only_the_first_anchor_counts() {
    let body = "<html><body><main><img src=\"https://a.example/first.png\"></main>\
        <main><img src=\"https://a.example/second.png\"></main></body></html>";
    assert_eq!(
        addresses(BuongiornoImmagini::scrape_page(page(body))),
        vec!["https://a.example/first.png"]
    );
}

#[test]
fn a_picture_listed_twice_is_given_twice() {
    let body = "<main><img src=\"https://a.example/x.png\"><img src=\"https://a.example/x.png\"></main>";
    assert_eq!(
        addresses(BuongiornoImmagini::scrape_page(page(body))),
        vec!["https://a.example/x.png", "https://a.example/x.png"]
    );
}

#[test]
fn addresses_that_are_not_absolute_are_skipped() {
    let body = "<main><img src=\"/relative.png\"><img src=\"pictures/x.png\">\
        <img src=\"data:image/png;base64,AAAA\"><img src=\"ftp://a.example/x.png\">\
        <img alt=\"no source\"><img src=\"\">\
        <img src=\"http://a.example/plain.png\"><img src=\"https://a.example/safe.png\"></main>";
    assert_eq!(
        addresses(BuongiornoImmagini::scrape_page(page(body))),
        vec!["http://a.example/plain.png", "https://a.example/safe.png"]
    );
    assert_eq!(
        addresses(Augurando::scrape_page(page(
            "<div class=\"entry-content clear\"><img src=\"/relative.png\">\
            <img src=\"data:image/png;base64,AAAA\"><img src=\"https://a.example/x.png\"></div>"
        ))),
        vec!["https://a.example/x.png"]
    );
}

#[test]
fn addresses_that_do_not_parse_are_skipped() {
    let body = "<main><img src=\"http://\"><img src=\"https://[::1\">\
        <img src=\"https://a.example/ok.png\"></main>";
    assert_eq!(
        addresses(BuongiornoImmagini::scrape_page(page(body))),
        vec!["https://a.example/ok.png"]
    );
}

#[test]
fn an_address_is_given_as_the_parser_reads_it() {
    let body = "<main><img src=\"https://A.Example/a b.png\"><img src=\"https://a.example\"></main>";
    assert_eq!(
        addresses(BuongiornoImmagini::scrape_page(page(body))),
        vec!["https://a.example/a%20b.png", "https://a.example/"]
    );
}

#[test]
fn a_page_without_the_anchor_is_unexpected() {
    let expected = ScrapeError::UnexpectedHtml(
        "could not find a div with class entry-content".to_string(),
    );
    let body = "<html><body><div><img src=\"https://a.example/x.png\"></div></body></html>";
    assert_eq!(BuongiornoImmagini::scrape_page(page(body)).err().unwrap(), expected);
    assert_eq!(BuongiornissimoCaffe::scrape_page(page(body)).err().unwrap(), expected);
    assert_eq!(Augurando::scrape_page(page(body)).err().unwrap(), expected);
    assert_eq!(TiCondivido::scrape_page(page(body)).err().unwrap(), expected);
    assert_eq!(IlMondoDiGrazia::scrape_page(page(body)).err().unwrap(), expected);
    assert_eq!(BuongiornoImmagini::scrape_page(page("")).err().unwrap(), expected);
}

#[test]
fn a_page_without_pictures_has_no_images() {
    assert_eq!(
        BuongiornoImmagini::scrape_page(page("<main><p>nothing</p></main>")).err().unwrap(),
        ScrapeError::NoImages
    );
    assert_eq!(
        BuongiornoImmagini::scrape_page(page("<main><img src=\"/relative.png\"></main>"))
            .err()
            .unwrap(),
        ScrapeError::NoImages
    );
    assert_eq!(
        Augurando::scrape_page(page("<div class=\"entry-content clear\"></div>")).err().unwrap(),
        ScrapeError::NoImages
    );
}

#[test]
fn a_page_that_could_not_be_fetched_is_an_http_error() {
    let failed = || Err("connection refused".to_string());
    let expected = ScrapeError::Http("connection refused".to_string());
    assert_eq!(BuongiornoImmagini::scrape_page(failed()).err().unwrap(), expected);
    assert_eq!(BuongiornissimoCaffe::scrape_page(failed()).err().unwrap(), expected);
    assert_eq!(Augurando::scrape_page(failed()).err().unwrap(), expected);
    assert_eq!(TiCondivido::scrape_page(failed()).err().unwrap(), expected);
    assert_eq!(IlMondoDiGrazia::scrape_page(failed()).err().unwrap(), expected);
}

#[test]
fn the_anchor_class_must_be_exact() {
    let body = "<div class=\"entry-content\"><img src=\"https://a.example/x.png\"></div>";
    assert_eq!(
        Augurando::scrape_page(page(body)).err().unwrap(),
        ScrapeError::UnexpectedHtml("could not find a div with class entry-content".to_string())
    );
    let body = "<div class=\"entry-content clear\"><img src=\"https://a.example/x.png\"></div>";
    assert_eq!(addresses(Augurando::scrape_page(page(body))), vec!["https://a.example/x.png"]);
}

#[test]
fn ticondivido_reads_the_lazy_attribute() {
    let body = "<div class=\"entry-content clear\">\
        <img src=\"https://a.example/placeholder.gif\" data-src=\"https://a.example/real.jpg\">\
        <img src=\"https://a.example/only-src.jpg\">\
        <img data-src=\"/relative.jpg\">\
        <img data-src=\"https://b.example/other.jpg\"></div>";
    assert_eq!(
        addresses(TiCondivido::scrape_page(page(body))),
        vec!["https://a.example/real.jpg", "https://b.example/other.jpg"]
    );
    assert_eq!(
        addresses(Augurando::scrape_page(page(body))),
        vec!["https://a.example/placeholder.gif", "https://a.example/only-src.jpg"]
    );
}

#[test]
fn ilmondodigrazia_keeps_its_own_domain_only() {
    let body = "<div class=\"entry-content\">\
        <img src=\"https://ilmondodigrazia.com/wp-content/a.jpg\">\
        <img src=\"https://cdn.example.com/b.jpg\">\
        <img src=\"https://www.ilmondodigrazia.com/c.jpg\">\
        <img src=\"https://127.0.0.1/d.jpg\">\
        <img src=\"http://ilmondodigrazia.com/e.jpg\"></div>";
    assert_eq!(
        addresses(IlMondoDiGrazia::scrape_page(page(body))),
        vec!["https://ilmondodigrazia.com/wp-content/a.jpg", "http://ilmondodigrazia.com/e.jpg"]
    );
}

#[test]
fn ilmondodigrazia_without_a_picture_of_its_own_has_no_images() {
    let body = "<div class=\"entry-content\"><img src=\"https://cdn.example.com/b.jpg\"></div>";
    assert_eq!(IlMondoDiGrazia::scrape_page(page(body)).err().unwrap(), ScrapeError::NoImages);
}

#[test]
fn buongiornissimo_caffe_reads_the_thumbnails_of_the_gallery() {
    let body = "<html><body><main>\
        <img src=\"https://a.example/banner.png\">\
        <div class=\"masonry\">\
        <img src=\"https://a.example/loose.png\">\
        <div class=\"thumbnail\"><a><img src=\"https://a.example/one.png\"></a></div>\
        <div class=\"thumbnail\"><img src=\"/relative.png\"><img src=\"https://a.example/two.png\">\
        <img src=\"https://a.example/three.png\"></div>\
        <div class=\"other\"><img src=\"https://a.example/other.png\"></div>\
        </div>\
        <div class=\"masonry\"><div class=\"thumbnail\"><img src=\"https://a.example/late.png\"></div></div>\
        </main></body></html>";
    assert_eq!(
        addresses(BuongiornissimoCaffe::scrape_page(page(body))),
        vec!["https://a.example/one.png", "https://a.example/two.png", "https://a.example/three.png"]
    );
}

#[test]
fn buongiornissimo_caffe_without_the_gallery_is_unexpected() {
    let body = "<main><div class=\"thumbnail\"><img src=\"https://a.example/one.png\"></div></main>";
    assert_eq!(
        BuongiornissimoCaffe::scrape_page(page(body)).err().unwrap(),
        ScrapeError::UnexpectedHtml("could not find a div with class entry-content".to_string())
    );
}

#[test]
fn buongiornissimo_caffe_without_thumbnails_has_no_images() {
    let body = "<main><div class=\"masonry\"><img src=\"https://a.example/loose.png\"></div></main>";
    assert_eq!(BuongiornissimoCaffe::scrape_page(page(body)).err().unwrap(), ScrapeError::NoImages);
}

#[test]
fn a_selector_that_does_not_parse_is_a_css_error() {
    let layout = PageLayout { anchor: "div[", gallery: None, attribute: "src", domain: None };
    let result = extract_images("<main><img src=\"https://a.example/x.png\"></main>", &layout);
    assert!(matches!(result, Err(ScrapeError::Css(_))));
    let layout = PageLayout {
        anchor: "main",
        gallery: Some(("div[", "div")),
        attribute: "src",
        domain: None,
    };
    let result = extract_images("<main><img src=\"https://a.example/x.png\"></main>", &layout);
    assert!(matches!(result, Err(ScrapeError::Css(_))));
    let layout = PageLayout {
        anchor: "main",
        gallery: Some(("div", "div[")),
        attribute: "src",
        domain: None,
    };
    let result = extract_images("<main><div></div></main>", &layout);
    assert!(matches!(result, Err(ScrapeError::Css(_))));
}

#[test]
fn a_layout_of_ones_own() {
    let layout = PageLayout {
        anchor: "section#gallery",
        gallery: Some(("ul", "li.picture")),
        attribute: "data-full",
        domain: Some("pictures.example"),
    };
    let body = "<section id=\"gallery\"><ul>\
        <li class=\"picture\"><img data-full=\"https://pictures.example/1.jpg\"></li>\
        <li><img data-full=\"https://pictures.example/2.jpg\"></li>\
        <li class=\"picture\"><img data-full=\"https://elsewhere.example/3.jpg\"></li>\
        <li class=\"picture\"><img data-full=\"https://pictures.example/4.jpg\"></li>\
        </ul></section>";
    assert_eq!(
        addresses(extract_images(body, &layout)),
        vec!["https://pictures.example/1.jpg", "https://pictures.example/4.jpg"]
    );
    assert_eq!(
        addresses(scrape_page(Ok(body.to_string()), &layout)),
        vec!["https://pictures.example/1.jpg", "https://pictures.example/4.jpg"]
    );
}

#[test]
fn the_scheme_decides_not_the_spelling() {
    let body = "<main><img src=\"HTTPS://a.example/upper.png\"><img src=\"httpx://a.example/x.png\">\
        <img src=\"http:a.example/short.png\"><img src=\"mailto:http@a.example\">\
        <img src=\" https://a.example/padded.png \"></main>";
    assert_eq!(
        addresses(BuongiornoImmagini::scrape_page(page(body))),
        vec![
            "https://a.example/upper.png",
            "http://a.example/short.png",
            "https://a.example/padded.png"
        ]
    );
}

#[test]
fn an_unsupported_greeting_is_not_fetched() {
    let mut asked: Vec<String> = Vec::new();
    let fetch = |url: String| {
        asked.push(url);
        Ok("<main><img src=\"https://a.example/x.png\"></main>".to_string())
    };
    let result = BuongiornoImmagini::scrape_with(Greeting::Natale, fetch);
    assert_eq!(result.err().unwrap(), ScrapeError::UnsupportedGreeting);
    assert!(asked.is_empty());
}

#[test]
fn no_provider_fetches_for_a_greeting_without_a_page() {
    let mut fetched = 0;
    let result = Augurando::scrape_with(Greeting::CorpusDomini, |_| {
        fetched += 1;
        Ok(String::new())
    });
    assert_eq!(result.err().unwrap(), ScrapeError::UnsupportedGreeting);
    let result = BuongiornissimoCaffe::scrape_with(Greeting::Compleanno, |_| {
        fetched += 1;
        Ok(String::new())
    });
    assert_eq!(result.err().unwrap(), ScrapeError::UnsupportedGreeting);
    let result = IlMondoDiGrazia::scrape_with(Greeting::Pasqua, |_| {
        fetched += 1;
        Ok(String::new())
    });
    assert_eq!(result.err().unwrap(), ScrapeError::UnsupportedGreeting);
    let result = TiCondivido::scrape_with(Greeting::Pentecoste, |_| {
        fetched += 1;
        Ok(String::new())
    });
    assert_eq!(result.err().unwrap(), ScrapeError::UnsupportedGreeting);
    assert_eq!(fetched, 0);
}

#[test]
fn a_greeting_with_a_page_is_fetched_once_at_that_page() {
    let mut asked: Vec<String> = Vec::new();
    let result = BuongiornoImmagini::scrape_with(Greeting::BuonGiorno, |url: String| {
        asked.push(url);
        Ok("<main><img src=\"https://a.example/x.png\"></main>".to_string())
    });
    assert_eq!(addresses(result), vec!["https://a.example/x.png"]);
    assert_eq!(asked, vec!["https://buongiornoimmagini.it/immagini-buongiorno/"]);
}

#[test]
fn the_weekday_page_is_the_one_fetched() {
    let mut asked: Vec<String> = Vec::new();
    let result = BuongiornissimoCaffe::scrape_with(
        Greeting::BuonGiornoWeekday(Weekday::Fri),
        |url: String| {
            asked.push(url);
            Ok("<main><div class=\"masonry\"><div class=\"thumbnail\">\
                <img src=\"https://a.example/friday.png\"></div></div></main>"
                .to_string())
        },
    );
    assert_eq!(addresses(result), vec!["https://a.example/friday.png"]);
    assert_eq!(asked, vec!["https://www.buongiornissimocaffe.it/category/buon-venerdi/"]);
}

#[test]
fn a_fetch_that_fails_is_an_http_error() {
    let result = TiCondivido::scrape_with(Greeting::BuonGiorno, |_| Err("timed out".to_string()));
    assert_eq!(result.err().unwrap(), ScrapeError::Http("timed out".to_string()));
    let result = Augurando::scrape_with(Greeting::BuonGiorno, |_| Err(String::new()));
    assert_eq!(result.err().unwrap(), ScrapeError::Http(String::new()));
}

#[test]
fn what_is_fetched_is_read_as_the_provider_lays_it_out() {
    let body = "<div class=\"entry-content\">\
        <img src=\"https://ilmondodigrazia.com/a.jpg\"><img src=\"https://b.example/b.jpg\"></div>";
    let result = IlMondoDiGrazia::scrape_with(Greeting::Natale, |_| Ok(body.to_string()));
    assert_eq!(addresses(result), vec!["https://ilmondodigrazia.com/a.jpg"]);
    let result = Augurando::scrape_with(Greeting::Natale, |_| Ok(body.to_string()));
    assert_eq!(
        result.err().unwrap(),
        ScrapeError::UnexpectedHtml("could not find a div with class entry-content".to_string())
    );
    let result = TiCondivido::scrape_with(Greeting::Natale, |_| Ok("<p></p>".to_string()));
    assert_eq!(
        result.err().unwrap(),
        ScrapeError::UnexpectedHtml("could not find a div with class entry-content".to_string())
    );
}
