use gscite::{
    default_headers, Action, Error, Event, Locator, Phase, Pipeline, QueryArgs, Reading,
    ReferenceFormat,
};

fn result_page(ids: &[&str]) -> String {
    let mut page = String::from("<html><body>");
    for id in ids {
        page.push_str(&format!(
            "<div class=\"gs_ri\"><h3 class=\"gs_rt\"><a id=\"{id}\" href=\"#\">t</a></h3></div>"
        ));
    }
    page.push_str("</body></html>");
    page
}

fn cite_page(name: &str) -> String {
    format!(
        "<div id=\"gs_citi\">\
         <a href=\"https://scholar.googleusercontent.com/{name}.bib?a=1&amp;b=2\">BibTeX</a>\
         <a href=\"https://scholar.googleusercontent.com/{name}.enw\">EndNote</a>\
         <a href=\"https://scholar.googleusercontent.com/{name}.ris\">RefMan</a>\
         <a href=\"https://scholar.googleusercontent.com/{name}.rfw\">RefWorks</a></div>"
    )
}

fn fetch(action: Action) -> Locator {
    match action {
        Action::Fetch(locator) => locator,
        other => panic!("no fetch: {:?}", other),
    }
}

fn begun(ids: &[&str], format: ReferenceFormat) -> Pipeline {
    let (pipeline, _) = Pipeline::get_references("anything", format).unwrap();
    let (pipeline, action) = pipeline.step(Event::Body(result_page(ids)));
    assert!(matches!(action, Action::Ready));
    pipeline
}

#[test]
fn lookup_begins_with_the_search_page() {
    let (pipeline, locator) =
        Pipeline::get_references("Filippo Berto Assurance", ReferenceFormat::BibTeX).unwrap();
    assert_eq!(
        locator.as_str(),
        "https://scholar.google.com/scholar?hl=en&as_sdt=0%2C5&q=Filippo+Berto+Assurance&btnG="
    );
    assert_eq!(pipeline.phase(), Phase::Search);
    assert_eq!(pipeline.format(), ReferenceFormat::BibTeX);
    assert!(pipeline.ids().is_empty());
    assert_eq!(pipeline.delivered(), 0);
}

#[test]
fn lookup_with_arguments_begins_with_their_locator() {
    let mut args = QueryArgs::new("Filippo Berto assurance");
    args.limit = Some(5);
    let (pipeline, locator) =
        Pipeline::get_references_with_query(args, ReferenceFormat::RefMan).unwrap();
    assert_eq!(
        locator.as_str(),
        "https://scholar.google.com/scholar?q=Filippo+Berto+assurance&num=5"
    );
    assert_eq!(pipeline.phase(), Phase::Search);
    assert_eq!(pipeline.format(), ReferenceFormat::RefMan);
}

#[test]
fn lookup_refuses_an_empty_query() {
    assert!(matches!(
        Pipeline::get_references("", ReferenceFormat::BibTeX),
        Err(Error::EmptyQuery)
    ));
    assert!(matches!(
        Pipeline::get_references_with_query(QueryArgs::new(""), ReferenceFormat::BibTeX),
        Err(Error::EmptyQuery)
    ));
}

#[test]
fn start_passes_locator_and_error_on() {
    let locator = Locator::parse("https://example.com/x".to_string());
    let (pipeline, first) = Pipeline::start(locator, ReferenceFormat::EndNote).unwrap();
    assert_eq!(first.as_str(), "https://example.com/x");
    assert_eq!(pipeline.phase(), Phase::Search);
    match Pipeline::start(Locator::parse("nope".to_string()), ReferenceFormat::EndNote) {
        Err(Error::UrlParseError(e)) => assert_eq!(e, url::ParseError::RelativeUrlWithoutBase),
        other => panic!("unexpected: {:?}", other.map(|_| ())),
    }
    assert!(matches!(
        Pipeline::start(Err(Error::RequestError), ReferenceFormat::EndNote),
        Err(Error::RequestError)
    ));
}

#[test]
fn references_come_in_the_order_of_the_page() {
    let pipeline = begun(&["idA", "idB"], ReferenceFormat::BibTeX);
    assert_eq!(pipeline.phase(), Phase::Idle);
    assert_eq!(*pipeline.ids(), vec!["idA", "idB"]);

    let (pipeline, action) = pipeline.step(Event::Pull);
    assert_eq!(
        fetch(action).as_str(),
        "https://scholar.google.com/scholar?hl=en&q=info%3AidA%3Ascholar.google.com%2F&output=cite&scirp=0"
    );
    assert_eq!(pipeline.phase(), Phase::Citation);

    let (pipeline, action) = pipeline.step(Event::Body(cite_page("first")));
    let export = fetch(action);
    assert_eq!(
        export.as_str(),
        "https://scholar.googleusercontent.com/first.bib?a=1&b=2"
    );
    assert_eq!(export.as_url().as_str(), export.as_str());
    assert_eq!(pipeline.phase(), Phase::Export);
    assert_eq!(pipeline.delivered(), 0);

    let (pipeline, action) = pipeline.step(Event::Body("@article{first}".to_string()));
    assert!(matches!(action, Action::Yield(text) if text == "@article{first}"));
    assert_eq!(pipeline.phase(), Phase::Idle);
    assert_eq!(pipeline.delivered(), 1);

    let (pipeline, action) = pipeline.step(Event::Pull);
    assert_eq!(
        fetch(action).as_str(),
        "https://scholar.google.com/scholar?hl=en&q=info%3AidB%3Ascholar.google.com%2F&output=cite&scirp=0"
    );
    let (pipeline, action) = pipeline.step(Event::Body(cite_page("second")));
    assert_eq!(
        fetch(action).as_str(),
        "https://scholar.googleusercontent.com/second.bib?a=1&b=2"
    );
    let (pipeline, action) = pipeline.step(Event::Body(String::new()));
    assert!(matches!(action, Action::Yield(text) if text.is_empty()));
    assert_eq!(pipeline.delivered(), 2);
    assert_eq!(*pipeline.ids(), vec!["idA", "idB"]);

    let (pipeline, action) = pipeline.step(Event::Pull);
    assert!(matches!(action, Action::Finish));
    assert_eq!(pipeline.phase(), Phase::Closed);
    let (pipeline, action) = pipeline.step(Event::Pull);
    assert!(matches!(action, Action::Finish));
    assert_eq!(pipeline.phase(), Phase::Closed);
}

#[test]
fn a_whole_run_hands_out_one_reference_for_each_id_in_order() {
    let ids = ["a1", "b2", "c3", "d4"];
    let mut pipeline = begun(&ids, ReferenceFormat::RefMan);
    let mut asked = Vec::new();
    let mut references = Vec::new();
    let mut event = Event::Pull;
    for _ in 0..100 {
        let (next, action) = pipeline.step(event);
        pipeline = next;
        event = match action {
            Action::Fetch(locator) => {
                let text = locator.as_str().to_string();
                let body = if text.starts_with("https://scholar.google.com/scholar?") {
                    let id = text
                        .trim_start_matches("https://scholar.google.com/scholar?hl=en&q=info%3A")
                        .trim_end_matches("%3Ascholar.google.com%2F&output=cite&scirp=0")
                        .to_string();
                    asked.push(id.clone());
                    cite_page(&id)
                } else {
                    format!("export of {text}")
                };
                Event::Body(body)
            }
            Action::Yield(text) => {
                references.push(text);
                assert_eq!(pipeline.delivered(), references.len());
                Event::Pull
            }
            Action::Finish => break,
            other => panic!("unexpected: {:?}", other),
        };
    }
    assert_eq!(asked, ids);
    assert_eq!(
        references,
        vec![
            "export of https://scholar.googleusercontent.com/a1.ris",
            "export of https://scholar.googleusercontent.com/b2.ris",
            "export of https://scholar.googleusercontent.com/c3.ris",
            "export of https://scholar.googleusercontent.com/d4.ris",
        ]
    );
    assert_eq!(pipeline.delivered(), ids.len());
    assert_eq!(pipeline.phase(), Phase::Closed);
}

#[test]
fn a_run_that_stops_early_has_asked_for_no_later_id() {
    let pipeline = begun(&["a", "b", "c"], ReferenceFormat::BibTeX);
    let (pipeline, action) = pipeline.step(Event::Pull);
    assert!(fetch(action).as_str().contains("info%3Aa%3A"));
    let (pipeline, _) = pipeline.step(Event::Body(cite_page("a")));
    let (pipeline, action) = pipeline.step(Event::Body("first".to_string()));
    assert!(matches!(action, Action::Yield(text) if text == "first"));
    assert_eq!(pipeline.delivered(), 1);
    assert_eq!(pipeline.phase(), Phase::Idle);
    let (pipeline, action) = pipeline.step(Event::Body("nobody asked".to_string()));
    assert!(matches!(action, Action::Ignore));
    assert_eq!(pipeline.delivered(), 1);
}

#[test]
fn the_format_picks_the_export() {
    for (format, suffix) in [
        (ReferenceFormat::BibTeX, "bib?a=1&b=2"),
        (ReferenceFormat::EndNote, "enw"),
        (ReferenceFormat::RefMan, "ris"),
        (ReferenceFormat::RefWorks, "rfw"),
    ] {
        let pipeline = begun(&["x"], format);
        let (pipeline, _) = pipeline.step(Event::Pull);
        let (_, action) = pipeline.step(Event::Body(cite_page("p")));
        assert_eq!(
            fetch(action).as_str(),
            format!("https://scholar.googleusercontent.com/p.{suffix}")
        );
    }
}

#[test]
fn a_page_without_results_ends_at_the_first_pull() {
    let pipeline = begun(&[], ReferenceFormat::BibTeX);
    assert!(pipeline.ids().is_empty());
    let (pipeline, action) = pipeline.step(Event::Pull);
    assert!(matches!(action, Action::Finish));
    assert_eq!(pipeline.phase(), Phase::Closed);
}

#[test]
fn nothing_is_fetched_before_a_pull() {
    let pipeline = begun(&["a", "b", "c"], ReferenceFormat::BibTeX);
    let (pipeline, action) = pipeline.step(Event::Body("late".to_string()));
    assert!(matches!(action, Action::Ignore));
    let (pipeline, action) = pipeline.step(Event::Failed);
    assert!(matches!(action, Action::Ignore));
    assert_eq!(pipeline.phase(), Phase::Idle);
    assert_eq!(pipeline.delivered(), 0);
    let (pipeline, action) = pipeline.step(Event::Pull);
    assert!(matches!(action, Action::Fetch(_)));
    let (pipeline, action) = pipeline.step(Event::Pull);
    assert!(matches!(action, Action::Ignore));
    assert_eq!(pipeline.phase(), Phase::Citation);
}

#[test]
fn a_pull_while_the_search_is_awaited_is_ignored() {
    let (pipeline, _) = Pipeline::get_references("q", ReferenceFormat::BibTeX).unwrap();
    let (pipeline, action) = pipeline.step(Event::Pull);
    assert!(matches!(action, Action::Ignore));
    assert_eq!(pipeline.phase(), Phase::Search);
}

#[test]
fn a_failed_fetch_ends_the_lookup_in_every_phase() {
    let (pipeline, _) = Pipeline::get_references("q", ReferenceFormat::BibTeX).unwrap();
    let (pipeline, action) = pipeline.step(Event::Failed);
    assert!(matches!(action, Action::Fail(Error::RequestError)));
    assert_eq!(pipeline.phase(), Phase::Closed);

    let pipeline = begun(&["a", "b"], ReferenceFormat::BibTeX);
    let (pipeline, _) = pipeline.step(Event::Pull);
    let (pipeline, action) = pipeline.step(Event::Failed);
    assert!(matches!(action, Action::Fail(Error::RequestError)));
    assert_eq!(pipeline.phase(), Phase::Closed);
    let (_, action) = pipeline.step(Event::Pull);
    assert!(matches!(action, Action::Finish));

    let pipeline = begun(&["a", "b"], ReferenceFormat::BibTeX);
    let (pipeline, _) = pipeline.step(Event::Pull);
    let (pipeline, _) = pipeline.step(Event::Body(cite_page("p")));
    let (pipeline, action) = pipeline.step(Event::Failed);
    assert!(matches!(action, Action::Fail(Error::RequestError)));
    assert_eq!(pipeline.phase(), Phase::Closed);
    assert_eq!(pipeline.delivered(), 0);
}

#[test]
fn a_citation_page_without_the_link_ends_the_lookup() {
    let pipeline = begun(&["a", "b"], ReferenceFormat::RefWorks);
    let (pipeline, _) = pipeline.step(Event::Pull);
    let page = "<div id=\"gs_citi\"><a href=\"https://e.org/b\">BibTeX</a></div>";
    let (pipeline, action) = pipeline.step(Event::Body(page.to_string()));
    assert!(matches!(action, Action::Fail(Error::LinkNotFound)));
    assert_eq!(pipeline.phase(), Phase::Closed);
    let (_, action) = pipeline.step(Event::Pull);
    assert!(matches!(action, Action::Finish));
}

#[test]
fn an_export_link_that_is_no_url_ends_the_lookup() {
    let pipeline = begun(&["a"], ReferenceFormat::BibTeX);
    let (pipeline, _) = pipeline.step(Event::Pull);
    let page = "<div id=\"gs_citi\"><a href=\"/scholar.bib?q=1\">BibTeX</a></div>";
    let (pipeline, action) = pipeline.step(Event::Body(page.to_string()));
    match action {
        Action::Fail(Error::UrlParseError(e)) => {
            assert_eq!(e, url::ParseError::RelativeUrlWithoutBase)
        }
        other => panic!("unexpected: {:?}", other),
    }
    assert_eq!(pipeline.phase(), Phase::Closed);
}

#[test]
fn a_closed_lookup_answers_finish_to_everything() {
    let pipeline = begun(&[], ReferenceFormat::BibTeX);
    let (pipeline, _) = pipeline.step(Event::Pull);
    let (pipeline, action) = pipeline.step(Event::Body(result_page(&["a"])));
    assert!(matches!(action, Action::Finish));
    let (pipeline, action) = pipeline.step(Event::Failed);
    assert!(matches!(action, Action::Finish));
    assert_eq!(pipeline.phase(), Phase::Closed);
    assert!(pipeline.ids().is_empty());
}

#[test]
fn read_turns_events_into_readings() {
    let (pipeline, _) = Pipeline::get_references("q", ReferenceFormat::BibTeX).unwrap();
    assert!(matches!(pipeline.read(Event::Pull), Reading::Pull));
    assert!(matches!(pipeline.read(Event::Failed), Reading::Failed));
    match pipeline.read(Event::Body(result_page(&["a", "b"]))) {
        Reading::Ids(ids) => assert_eq!(ids, vec!["a", "b"]),
        other => panic!("unexpected: {:?}", other),
    }
    let pipeline = begun(&["a"], ReferenceFormat::BibTeX);
    assert!(matches!(pipeline.read(Event::Failed), Reading::Stray));
    assert!(matches!(
        pipeline.read(Event::Body("x".to_string())),
        Reading::Stray
    ));
    match pipeline.read(Event::Pull) {
        Reading::Target(Ok(locator)) => assert!(locator.as_str().contains("info%3Aa%3A")),
        other => panic!("unexpected: {:?}", other),
    }
    let (pipeline, _) = pipeline.step(Event::Pull);
    let (pipeline, _) = pipeline.step(Event::Body(cite_page("p")));
    match pipeline.read(Event::Body("the text".to_string())) {
        Reading::Text(text) => assert_eq!(text, "the text"),
        other => panic!("unexpected: {:?}", other),
    }
}

#[test]
fn advance_follows_the_reading() {
    let (pipeline, _) = Pipeline::get_references("q", ReferenceFormat::BibTeX).unwrap();
    let (pipeline, action) = pipeline.advance(Reading::Text("early".to_string()));
    assert!(matches!(action, Action::Ignore));
    assert_eq!(pipeline.phase(), Phase::Search);
    let (pipeline, action) =
        pipeline.advance(Reading::Ids(vec!["one".to_string(), "two".to_string()]));
    assert!(matches!(action, Action::Ready));
    assert_eq!(pipeline.phase(), Phase::Idle);
    assert_eq!(*pipeline.ids(), vec!["one", "two"]);

    let (pipeline, action) = pipeline.advance(Reading::Pull);
    assert!(matches!(action, Action::Ignore));
    assert_eq!(pipeline.phase(), Phase::Idle);

    let target = Locator::parse("https://example.com/cite".to_string());
    let (pipeline, action) = pipeline.advance(Reading::Target(target));
    assert_eq!(fetch(action).as_str(), "https://example.com/cite");
    assert_eq!(pipeline.phase(), Phase::Citation);

    let (pipeline, action) = pipeline.advance(Reading::Ids(vec!["late".to_string()]));
    assert!(matches!(action, Action::Ignore));
    assert_eq!(*pipeline.ids(), vec!["one", "two"]);

    let target = Locator::parse("https://example.com/export".to_string());
    let (pipeline, action) = pipeline.advance(Reading::Target(target));
    assert_eq!(fetch(action).as_str(), "https://example.com/export");
    assert_eq!(pipeline.phase(), Phase::Export);

    let (pipeline, action) = pipeline.advance(Reading::Text("ref".to_string()));
    assert!(matches!(action, Action::Yield(text) if text == "ref"));
    assert_eq!(pipeline.delivered(), 1);

    let (pipeline, action) = pipeline.advance(Reading::Target(Err(Error::LinkNotFound)));
    assert!(matches!(action, Action::Fail(Error::LinkNotFound)));
    assert_eq!(pipeline.phase(), Phase::Closed);
    let (_, action) = pipeline.advance(Reading::Stray);
    assert!(matches!(action, Action::Finish));
}

#[test]
fn the_default_header_is_the_referer() {
    assert_eq!(
        default_headers(),
        vec![("referer".to_string(), "https://www.google.com/".to_string())]
    );
}
