//! Reading result pages and citation pages.
//!
//! The pages are parsed and searched by the `scraper` crate. What it finds
//! has names here; the walk through what it finds, and the choice among it,
//! are this library's and are proved.

use crate::error::Error;
use vstd::prelude::*;

verus! {

/// A parsed document of the `scraper` crate. Verus is told only that the
/// type exists.
#[verifier::external_type_specification]
#[verifier::external_body]
pub struct ExHtml(scraper::Html);

/// A parsed selector of the `scraper` crate. Verus is told only that the
/// type exists.
#[verifier::external_type_specification]
#[verifier::external_body]
pub struct ExSelector(scraper::Selector);

/// A reference to an element of a document of the `scraper` crate. Verus is
/// told only that the type exists.
#[verifier::external_type_specification]
#[verifier::external_body]
pub struct ExElementRef<'a>(scraper::ElementRef<'a>);

/// What `scraper::Html::parse_document` makes of a text.
pub uninterp spec fn parsed_document(text: Seq<char>) -> scraper::Html;

/// What `scraper::Selector::parse` makes of a text: the selector, or nothing
/// where the text is no selector.
pub uninterp spec fn parsed_selector(text: Seq<char>) -> Option<scraper::Selector>;

/// The elements that `scraper::Html::select` yields, in its order.
pub uninterp spec fn document_matches(
    document: scraper::Html,
    selector: scraper::Selector,
) -> Seq<scraper::ElementRef<'static>>;

/// The elements that `scraper::ElementRef::select` yields, in its order.
pub uninterp spec fn element_matches(
    scope: scraper::ElementRef,
    selector: scraper::Selector,
) -> Seq<scraper::ElementRef<'static>>;

/// What `scraper::ElementRef::attr` returns: the value of the attribute of
/// that name, if the element has one.
pub uninterp spec fn attribute(element: scraper::ElementRef, name: Seq<char>) -> Option<Seq<char>>;

/// What the pieces that `scraper::ElementRef::text` yields make up, one
/// after the other: the text of the element as a reader of the page sees it,
/// without the markup inside it.
pub uninterp spec fn visible_text(element: scraper::ElementRef) -> Seq<char>;

/// Calls `scraper::Html::parse_document`, which reads nothing but the text
/// and does not fail. Its result has a name and nothing more is said of it.
#[verifier::external_body]
pub(crate) fn parse_document(text: &str) -> (document: scraper::Html)
    ensures
        document == parsed_document(text@),
{
    scraper::Html::parse_document(text)
}

/// Calls `scraper::Selector::parse` and keeps the selector where there is
/// one. Its result has a name and nothing more is said of it.
#[verifier::external_body]
fn parse_selector(text: &str) -> (selector: Option<scraper::Selector>)
    ensures
        selector == parsed_selector(text@),
{
    scraper::Selector::parse(text).ok()
}

/// Calls `scraper::Html::select` and collects what it yields.
#[verifier::external_body]
fn select_in_document<'a>(document: &'a scraper::Html, selector: &scraper::Selector) -> (found: Vec<
    scraper::ElementRef<'a>,
>)
    ensures
        found@ == document_matches(*document, *selector),
{
    document.select(selector).collect()
}

/// Calls `scraper::ElementRef::select` and collects what it yields.
#[verifier::external_body]
fn select_in_element<'a>(scope: scraper::ElementRef<'a>, selector: &scraper::Selector) -> (found:
    Vec<scraper::ElementRef<'a>>)
    ensures
        found@ == element_matches(scope, *selector),
{
    scope.select(selector).collect()
}

/// Calls `scraper::ElementRef::attr` and copies the value.
#[verifier::external_body]
fn element_attribute<'a>(element: scraper::ElementRef<'a>, name: &str) -> (value: Option<String>)
    ensures
        match value {
            Some(v) => Some(v@),
            None => None,
        } == attribute(element, name@),
{
    element.attr(name).map(String::from)
}

/// Calls `scraper::ElementRef::text`, which walks the text nodes under the
/// element in the order of the page, and puts the pieces in a row.
#[verifier::external_body]
fn element_text<'a>(element: scraper::ElementRef<'a>) -> (text: String)
    ensures
        text@ == visible_text(element),
{
    element.text().collect()
}

/// The elements found under each of a list of elements, one list after the
/// other.
pub open spec fn matches_within(
    scopes: Seq<scraper::ElementRef>,
    selector: scraper::Selector,
) -> Seq<scraper::ElementRef<'static>> {
    scopes.flat_map(|scope: scraper::ElementRef| element_matches(scope, selector))
}

/// Searches under each of a list of elements and puts the finds in a row.
fn select_within<'a>(scopes: &Vec<scraper::ElementRef<'a>>, selector: &scraper::Selector) -> (found:
    Vec<scraper::ElementRef<'a>>)
    ensures
        found@ == matches_within(scopes@, *selector),
{
    let mut found: Vec<scraper::ElementRef<'a>> = Vec::new();
    let mut i: usize = 0;
    while i < scopes.len()
        invariant
            i <= scopes@.len(),
            found@ == matches_within(scopes@.take(i as int), *selector),
        decreases scopes@.len() - i,
    {
        let mut inner = select_in_element(scopes[i], selector);
        found.append(&mut inner);
        proof {
            let each = |scope: scraper::ElementRef| element_matches(scope, *selector);
            let before = scopes@.take(i as int).map_values(each);
            let now = scopes@.take(i + 1).map_values(each);
            assert(now =~= before.push(each(scopes@[i as int])));
            before.lemma_flatten_push(each(scopes@[i as int]));
        }
        i += 1;
    }
    proof {
        assert(scopes@.take(i as int) =~= scopes@);
    }
    found
}

/// Type of citation to export
#[derive(Debug, Clone, Copy, PartialEq, Eq)]
pub enum ReferenceFormat {
    /// BibTeX citation format
    BibTeX,
    /// EndNote citation format
    EndNote,
    /// RefMan citation format
    RefMan,
    /// RefWorks citation format
    RefWorks,
}

impl ReferenceFormat {
    /// The text of the link that exports in this format.
    pub open spec fn label(self) -> Seq<char> {
        match self {
            ReferenceFormat::BibTeX => "BibTeX"@,
            ReferenceFormat::EndNote => "EndNote"@,
            ReferenceFormat::RefMan => "RefMan"@,
            ReferenceFormat::RefWorks => "RefWorks"@,
        }
    }

    /// The text of the link that exports in this format.
    pub fn as_label(self) -> (text: &'static str)
        ensures
            text@ == self.label(),
    {
        match self {
            ReferenceFormat::BibTeX => "BibTeX",
            ReferenceFormat::EndNote => "EndNote",
            ReferenceFormat::RefMan => "RefMan",
            ReferenceFormat::RefWorks => "RefWorks",
        }
    }
}

/// The values that are there, in order, without the gaps.
pub open spec fn present(values: Seq<Option<Seq<char>>>) -> Seq<Seq<char>>
    decreases values.len(),
{
    if values.len() == 0 {
        Seq::empty()
    } else {
        match values.last() {
            Some(v) => present(values.drop_last()).push(v),
            None => present(values.drop_last()),
        }
    }
}

/// The views of a list of texts that may be absent.
pub open spec fn option_views(values: Seq<Option<String>>) -> Seq<Option<Seq<char>>> {
    values.map_values(
        |value: Option<String>|
            match value {
                Some(v) => Some(v@),
                None => None,
            },
    )
}

/// The views of a list of texts.
pub open spec fn string_views(values: Seq<String>) -> Seq<Seq<char>> {
    values.map_values(|value: String| value@)
}

/// Keeps the values that are there, in order.
pub fn present_values(values: &Vec<Option<String>>) -> (kept: Vec<String>)
    ensures
        string_views(kept@) == present(option_views(values@)),
{
    let ghost all = option_views(values@);
    let mut kept: Vec<String> = Vec::new();
    let mut i: usize = 0;
    proof {
        assert(string_views(kept@) =~= Seq::<Seq<char>>::empty());
    }
    while i < values.len()
        invariant
            i <= values@.len(),
            all == option_views(values@),
            string_views(kept@) == present(all.take(i as int)),
        decreases values@.len() - i,
    {
        proof {
            assert(all.take(i + 1).drop_last() =~= all.take(i as int));
            assert(all.take(i + 1).last() == all[i as int]);
        }
        match &values[i] {
            Some(v) => {
                let copy = v.clone();
                proof {
                    assert(string_views(kept@.push(copy)) =~= string_views(kept@).push(copy@));
                }
                kept.push(copy);
            },
            None => {},
        }
        i += 1;
    }
    proof {
        assert(all.take(i as int) =~= all);
    }
    kept
}

/// The values of one attribute over a list of elements.
pub open spec fn attributes(elements: Seq<scraper::ElementRef>, name: Seq<char>) -> Seq<
    Option<Seq<char>>,
> {
    elements.map_values(|element: scraper::ElementRef| attribute(element, name))
}

/// Reads one attribute off each of a list of elements.
fn read_attributes<'a>(elements: &Vec<scraper::ElementRef<'a>>, name: &str) -> (values: Vec<
    Option<String>,
>)
    ensures
        option_views(values@) == attributes(elements@, name@),
{
    let mut values: Vec<Option<String>> = Vec::new();
    let mut i: usize = 0;
    while i < elements.len()
        invariant
            i <= elements@.len(),
            option_views(values@) == attributes(elements@.take(i as int), name@),
        decreases elements@.len() - i,
    {
        let value = element_attribute(elements[i], name);
        proof {
            let read = attribute(elements@[i as int], name@);
            assert(option_views(values@.push(value)) =~= option_views(values@).push(read));
            assert(attributes(elements@.take(i + 1), name@) =~= attributes(
                elements@.take(i as int),
                name@,
            ).push(read));
        }
        values.push(value);
        i += 1;
    }
    proof {
        assert(elements@.take(i as int) =~= elements@);
    }
    values
}

/// The citation ids on a result page: under each result block, under each
/// of its titles, the `id` of each link that has one, in the order of the
/// page. Where one of the three selectors were no selector, there are none.
pub open spec fn citation_ids(document: scraper::Html) -> Seq<Seq<char>> {
    match (parsed_selector("div.gs_ri"@), parsed_selector(".gs_rt"@), parsed_selector("a"@)) {
        (Some(block), Some(title), Some(link)) => present(
            attributes(
                matches_within(matches_within(document_matches(document, block), title), link),
                "id"@,
            ),
        ),
        _ => Seq::empty(),
    }
}

/// Scrapes an HTML document searching for citation ids.
pub fn scrape_citation_ids(document: &scraper::Html) -> (ids: Vec<String>)
    ensures
        string_views(ids@) == citation_ids(*document),
{
    let block = parse_selector("div.gs_ri");
    let title = parse_selector(".gs_rt");
    let link = parse_selector("a");
    match (block, title, link) {
        (Some(block), Some(title), Some(link)) => {
            let blocks = select_in_document(document, &block);
            let titles = select_within(&blocks, &title);
            let links = select_within(&titles, &link);
            let values = read_attributes(&links, "id");
            present_values(&values)
        },
        _ => {
            let ids: Vec<String> = Vec::new();
            proof {
                assert(string_views(ids@) =~= Seq::<Seq<char>>::empty());
            }
            ids
        },
    }
}

/// A link as the choice of an export link reads it: its text, and its
/// target if it has one.
#[derive(Debug, Clone, PartialEq, Eq)]
pub struct ExportLink {
    /// The link's visible text: what stands between its tags, without the
    /// markup.
    pub label: String,
    /// The value of the link's `href` attribute.
    pub href: Option<String>,
}

impl View for ExportLink {
    type V = (Seq<char>, Option<Seq<char>>);

    open spec fn view(&self) -> (Seq<char>, Option<Seq<char>>) {
        (
            self.label@,
            match self.href {
                Some(h) => Some(h@),
                None => None,
            },
        )
    }
}

/// The views of a list of links.
pub open spec fn link_views(links: Seq<ExportLink>) -> Seq<(Seq<char>, Option<Seq<char>>)> {
    links.map_values(|link: ExportLink| link@)
}

/// The target of the first link whose visible text is `label`: nothing where no link
/// has that text, and nothing where the first that has it has no target.
pub open spec fn chosen_target(
    links: Seq<(Seq<char>, Option<Seq<char>>)>,
    label: Seq<char>,
) -> Option<Seq<char>>
    decreases links.len(),
{
    if links.len() == 0 {
        None
    } else if links[0].0 == label {
        links[0].1
    } else {
        chosen_target(links.drop_first(), label)
    }
}

/// Whether `outcome` reports `target`: the text itself, or that no link was
/// found.
pub open spec fn reports(target: Option<Seq<char>>, outcome: Result<String, Error>) -> bool {
    match target {
        Some(t) => outcome is Ok && outcome->Ok_0@ == t,
        None => outcome == Err::<String, Error>(Error::LinkNotFound),
    }
}

/// Chooses the export link of a format among the links of a citation page:
/// the target of the first link whose visible text is the format's label.
pub fn choose_link(links: &Vec<ExportLink>, format: ReferenceFormat) -> (outcome: Result<
    String,
    Error,
>)
    ensures
        reports(chosen_target(link_views(links@), format.label()), outcome),
{
    let wanted = String::from_str(format.as_label());
    let ghost all = link_views(links@);
    let mut i: usize = 0;
    proof {
        assert(all.skip(0) =~= all);
    }
    while i < links.len()
        invariant
            i <= links@.len(),
            all == link_views(links@),
            wanted@ == format.label(),
            chosen_target(all, format.label()) == chosen_target(
                all.skip(i as int),
                format.label(),
            ),
        decreases links@.len() - i,
    {
        proof {
            assert(all.skip(i as int)[0] == links@[i as int]@);
            assert(all.skip(i as int).drop_first() =~= all.skip(i + 1));
        }
        if links[i].label == wanted {
            return match &links[i].href {
                Some(h) => Ok(h.clone()),
                None => Err(Error::LinkNotFound),
            };
        }
        i += 1;
    }
    Err(Error::LinkNotFound)
}

/// What the choice of an export link reads off each of a list of elements.
pub open spec fn export_links(elements: Seq<scraper::ElementRef>) -> Seq<
    (Seq<char>, Option<Seq<char>>),
> {
    elements.map_values(
        |element: scraper::ElementRef| (visible_text(element), attribute(element, "href"@)),
    )
}

/// Reads the visible text and the target off each of a list of elements.
fn read_links<'a>(elements: &Vec<scraper::ElementRef<'a>>) -> (links: Vec<ExportLink>)
    ensures
        link_views(links@) == export_links(elements@),
{
    let mut links: Vec<ExportLink> = Vec::new();
    let mut i: usize = 0;
    while i < elements.len()
        invariant
            i <= elements@.len(),
            link_views(links@) == export_links(elements@.take(i as int)),
        decreases elements@.len() - i,
    {
        let label = element_text(elements[i]);
        let href = element_attribute(elements[i], "href");
        let link = ExportLink { label, href };
        proof {
            let read = (visible_text(elements@[i as int]), attribute(elements@[i as int], "href"@));
            assert(link@ == read);
            assert(link_views(links@.push(link)) =~= link_views(links@).push(read));
            assert(export_links(elements@.take(i + 1)) =~= export_links(
                elements@.take(i as int),
            ).push(read));
        }
        links.push(link);
        i += 1;
    }
    proof {
        assert(elements@.take(i as int) =~= elements@);
    }
    links
}

/// The export link of a format on a citation page: among the links under
/// the export container, in the order of the page, the target of the first
/// whose visible text is the format's label. Where one of the two selectors were no
/// selector, there is none.
pub open spec fn citation_link(document: scraper::Html, format: ReferenceFormat) -> Option<
    Seq<char>,
> {
    match (parsed_selector("div#gs_citi"@), parsed_selector("a"@)) {
        (Some(container), Some(link)) => chosen_target(
            export_links(matches_within(document_matches(document, container), link)),
            format.label(),
        ),
        _ => None,
    }
}

/// Scrapes an HTML document searching for the export link of a format.
///
/// The page is expected to offer a link for every format. Where it offers
/// none for this one, the result is `Error::LinkNotFound`.
pub fn scrape_citation_link(document: &scraper::Html, format: ReferenceFormat) -> (outcome: Result<
    String,
    Error,
>)
    ensures
        reports(citation_link(*document, format), outcome),
{
    let container = parse_selector("div#gs_citi");
    let link = parse_selector("a");
    match (container, link) {
        (Some(container), Some(link)) => {
            let containers = select_in_document(document, &container);
            let anchors = select_within(&containers, &link);
            let links = read_links(&anchors);
            choose_link(&links, format)
        },
        _ => Err(Error::LinkNotFound),
    }
}

} // verus!
