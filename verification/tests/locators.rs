use gscite::{Error, Locator};
use url::Url;

#[test]
fn get_search_url() {
    let url = gscite::get_search_url("security assurance").unwrap();
    println!("QUERY URL: {}", url.as_url());
    assert_eq!(
        *url.as_url(),
        Url::parse(
            "https://scholar.google.com/scholar?hl=en&as_sdt=0%2C5&q=security+assurance&btnG= "
        )
        .unwrap()
    );
}

#[test]
fn get_cite_url() {
    let url = gscite::get_cite_url("oRnsanDfyFAJ").unwrap();
    println!("CITE URL: {}", url.as_url());
    assert_eq!(
        *url.as_url(),
        Url::parse(
            "https://scholar.google.com/scholar?hl=en&q=info%3AoRnsanDfyFAJ%3Ascholar.google.com%2F&output=cite&scirp=0"
        )
        .unwrap()
    );
}

#[test]
fn search_locator_text_is_exact() {
    let locator = gscite::get_search_url("security assurance").unwrap();
    assert_eq!(
        locator.as_str(),
        "https://scholar.google.com/scholar?hl=en&as_sdt=0%2C5&q=security+assurance&btnG="
    );
    assert_eq!(locator.as_url().as_str(), locator.as_str());
}

#[test]
fn search_locator_encodes_every_byte() {
    let locator = gscite::get_search_url("a b&c=d/\u{e9}*-._~").unwrap();
    assert_eq!(
        locator.as_str(),
        "https://scholar.google.com/scholar?hl=en&as_sdt=0%2C5&q=a+b%26c%3Dd%2F%C3%A9*-._%7E&btnG="
    );
}

#[test]
fn search_locator_keeps_the_key_order() {
    let locator = gscite::get_search_url("x").unwrap();
    let pairs: Vec<(String, String)> = locator
        .as_url()
        .query_pairs()
        .map(|(k, v)| (k.into_owned(), v.into_owned()))
        .collect();
    assert_eq!(
        pairs,
        vec![
            ("hl".to_string(), "en".to_string()),
            ("as_sdt".to_string(), "0,5".to_string()),
            ("q".to_string(), "x".to_string()),
            ("btnG".to_string(), "".to_string()),
        ]
    );
}

#[test]
fn empty_query_is_refused_by_the_bare_entry() {
    assert!(matches!(gscite::get_search_url(""), Err(Error::EmptyQuery)));
}

#[test]
fn cite_locator_text_is_exact() {
    let locator = gscite::get_cite_url("oRnsanDfyFAJ").unwrap();
    assert_eq!(
        locator.as_str(),
        "https://scholar.google.com/scholar?hl=en&q=info%3AoRnsanDfyFAJ%3Ascholar.google.com%2F&output=cite&scirp=0"
    );
}

#[test]
fn cite_locator_encodes_the_id() {
    let locator = gscite::get_cite_url("PH5yhK_1--EJ").unwrap();
    assert_eq!(
        locator.as_str(),
        "https://scholar.google.com/scholar?hl=en&q=info%3APH5yhK_1--EJ%3Ascholar.google.com%2F&output=cite&scirp=0"
    );
    let odd = gscite::get_cite_url("a/b c").unwrap();
    assert_eq!(
        odd.as_str(),
        "https://scholar.google.com/scholar?hl=en&q=info%3Aa%2Fb+c%3Ascholar.google.com%2F&output=cite&scirp=0"
    );
}

#[test]
fn cite_locator_of_an_empty_id() {
    let locator = gscite::get_cite_url("").unwrap();
    assert_eq!(
        locator.as_str(),
        "https://scholar.google.com/scholar?hl=en&q=info%3A%3Ascholar.google.com%2F&output=cite&scirp=0"
    );
}

#[test]
fn locator_parse_keeps_text_and_url() {
    let text = "https://scholar.googleusercontent.com/scholar.bib?q=info:x:scholar.google.com/&output=citation";
    let locator = Locator::parse(text.to_string()).unwrap();
    assert_eq!(locator.as_str(), text);
    assert_eq!(*locator.as_url(), Url::parse(text).unwrap());
    assert_eq!(locator.into_url(), Url::parse(text).unwrap());
}

#[test]
fn locator_parse_differs_from_its_text_where_the_parser_rewrites() {
    let locator = Locator::parse("HTTPS://Example.COM".to_string()).unwrap();
    assert_eq!(locator.as_str(), "HTTPS://Example.COM");
    assert_eq!(locator.as_url().as_str(), "https://example.com/");
}

#[test]
fn locator_parse_refuses_what_is_no_url() {
    match Locator::parse("scholar.bib?q=1".to_string()) {
        Err(Error::UrlParseError(e)) => assert_eq!(e, url::ParseError::RelativeUrlWithoutBase),
        other => panic!("unexpected: {:?}", other),
    }
    assert!(matches!(
        Locator::parse(String::new()),
        Err(Error::UrlParseError(url::ParseError::RelativeUrlWithoutBase))
    ));
}

#[test]
fn locator_from_parsed_follows_the_parser() {
    let text = "https://example.com/a?b=c";
    let made = Locator::from_parsed(text.to_string(), Url::parse(text)).unwrap();
    assert_eq!(made.as_str(), text);
    assert_eq!(*made.as_url(), Url::parse(text).unwrap());
    match Locator::from_parsed("x".to_string(), Err(url::ParseError::EmptyHost)) {
        Err(Error::UrlParseError(e)) => assert_eq!(e, url::ParseError::EmptyHost),
        other => panic!("unexpected: {:?}", other),
    }
}

#[test]
fn endpoint_locator_writes_the_pairs_in_order() {
    let pairs = vec![
        ("a b".to_string(), "1&2".to_string()),
        ("".to_string(), "".to_string()),
        ("k".to_string(), "v".to_string()),
    ];
    let locator = gscite::locator::endpoint_locator(&pairs).unwrap();
    assert_eq!(
        locator.as_str(),
        "https://scholar.google.com/scholar?a+b=1%262&=&k=v"
    );
    let none: Vec<(String, String)> = Vec::new();
    assert_eq!(
        gscite::locator::endpoint_locator(&none).unwrap().as_str(),
        "https://scholar.google.com/scholar?"
    );
}
