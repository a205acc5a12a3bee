//! Request targets: a text that the URL parser has accepted, together with
//! what the parser made of it.

use crate::encoding::{
    encoded_byte, form_encoded, hex_digit, is_unreserved_text, lemma_form_encoded_ascii,
    lemma_concat_assoc, lemma_form_encoded_concat, lemma_form_encoded_unreserved,
    lemma_query_string_of_four, pair_views, query_string, serialize_pairs,
};
use crate::error::Error;
use vstd::prelude::*;

verus! {

/// A parsed URL of the `url` crate. Verus is told only that the type exists.
#[verifier::external_type_specification]
#[verifier::external_body]
pub struct ExUrl(url::Url);

/// What `url::Url::parse` returns for a text.
pub uninterp spec fn parsed_url(text: Seq<char>) -> Result<url::Url, url::ParseError>;

/// Calls `url::Url::parse`. The parser reads nothing but its argument, so
/// its result has a name; what that result is on any given text is not
/// stated.
#[verifier::external_body]
fn parse_url(text: &str) -> (parsed: Result<url::Url, url::ParseError>)
    ensures
        parsed == parsed_url(text@),
{
    url::Url::parse(text)
}

/// A request target.
#[derive(Debug, PartialEq, Eq)]
pub struct Locator {
    text: String,
    url: url::Url,
}

impl View for Locator {
    type V = Seq<char>;

    /// The text that the locator was made from.
    closed spec fn view(&self) -> Seq<char> {
        self.text@
    }
}

/// Whether `outcome` is what making a locator of `text` gives: the locator
/// of that text and of the URL parsed from it, or the parser's error.
pub open spec fn located(text: Seq<char>, outcome: Result<Locator, Error>) -> bool {
    match parsed_url(text) {
        Ok(url) => outcome is Ok && outcome->Ok_0@ == text && outcome->Ok_0.url() == url,
        Err(e) => outcome == Err::<Locator, Error>(Error::UrlParseError(e)),
    }
}

impl Locator {
    /// The URL that the locator holds.
    pub closed spec fn url(&self) -> url::Url {
        self.url
    }

    /// A locator is well formed when its URL is the one that the parser makes
    /// of its text.
    pub open spec fn wf(&self) -> bool {
        parsed_url(self@) == Ok::<url::Url, url::ParseError>(self.url())
    }

    /// Makes a locator of a text and of what the parser returned for it.
    pub fn from_parsed(text: String, parsed: Result<url::Url, url::ParseError>) -> (outcome: Result<
        Locator,
        Error,
    >)
        ensures
            match parsed {
                Ok(url) => outcome is Ok && outcome->Ok_0@ == text@ && outcome->Ok_0.url() == url,
                Err(e) => outcome == Err::<Locator, Error>(Error::UrlParseError(e)),
            },
    {
        match parsed {
            Ok(url) => Ok(Locator { text, url }),
            Err(e) => Err(Error::UrlParseError(e)),
        }
    }

    /// Parses a text as a URL and keeps both.
    pub fn parse(text: String) -> (outcome: Result<Locator, Error>)
        ensures
            located(text@, outcome),
            outcome is Ok ==> outcome->Ok_0.wf(),
    {
        let parsed = parse_url(text.as_str());
        Locator::from_parsed(text, parsed)
    }

    /// The locator's text.
    pub fn as_str(&self) -> (text: &str)
        ensures
            text@ == self@,
    {
        self.text.as_str()
    }

    /// The locator's URL.
    pub fn as_url(&self) -> (url: &url::Url)
        ensures
            *url == self.url(),
    {
        &self.url
    }

    /// Gives the URL up.
    pub fn into_url(self) -> (url: url::Url)
        ensures
            url == self.url(),
    {
        self.url
    }
}

/// The address of the search endpoint.
pub open spec fn endpoint() -> Seq<char> {
    "https://scholar.google.com/scholar"@
}

/// The text of the locator that carries the given pairs to the search
/// endpoint.
pub open spec fn endpoint_text(pairs: Seq<(Seq<char>, Seq<char>)>) -> Seq<char> {
    endpoint() + seq!['?'] + query_string(pairs)
}

/// The pairs of a search for a bare query.
pub open spec fn search_pairs(query: Seq<char>) -> Seq<(Seq<char>, Seq<char>)> {
    seq![("hl"@, "en"@), ("as_sdt"@, "0,5"@), ("q"@, query), ("btnG"@, Seq::<char>::empty())]
}

/// The text of the locator of a search for a bare query.
pub open spec fn search_text(query: Seq<char>) -> Seq<char> {
    "https://scholar.google.com/scholar?hl=en&as_sdt=0%2C5&q="@ + form_encoded(query) + "&btnG="@
}

/// The query that asks for the citation page of an id.
pub open spec fn cite_query(id: Seq<char>) -> Seq<char> {
    "info:"@ + id + ":scholar.google.com/"@
}

/// The pairs of the request for the citation page of an id.
pub open spec fn cite_pairs(id: Seq<char>) -> Seq<(Seq<char>, Seq<char>)> {
    seq![("hl"@, "en"@), ("q"@, cite_query(id)), ("output"@, "cite"@), ("scirp"@, "0"@)]
}

/// The text of the locator of the citation page of an id.
pub open spec fn cite_text(id: Seq<char>) -> Seq<char> {
    "https://scholar.google.com/scholar?hl=en&q=info%3A"@ + form_encoded(id)
        + "%3Ascholar.google.com%2F&output=cite&scirp=0"@
}

/// A pair of owned texts.
fn owned_pair(name: &str, value: &str) -> (pair: (String, String))
    ensures
        pair.0@ == name@,
        pair.1@ == value@,
{
    (String::from_str(name), String::from_str(value))
}

/// The locator that carries the given pairs to the search endpoint.
pub fn endpoint_locator(pairs: &Vec<(String, String)>) -> (outcome: Result<Locator, Error>)
    ensures
        located(endpoint_text(pair_views(pairs@)), outcome),
        outcome is Ok ==> outcome->Ok_0.wf(),
{
    let mut text = String::from_str("https://scholar.google.com/scholar");
    text.append("?");
    let query = serialize_pairs(pairs);
    text.append(query.as_str());
    proof {
        reveal_strlit("?");
        assert("?"@ =~= seq!['?']);
    }
    Locator::parse(text)
}

/// The empty text has the empty encoding.
proof fn lemma_form_encoded_empty()
    ensures
        form_encoded(Seq::<char>::empty()) == Seq::<char>::empty(),
{
    reveal(form_encoded);
    assert(vstd::utf8::encode_utf8(Seq::<char>::empty()) =~= Seq::<u8>::empty());
}

/// A comma is encoded as `%2C`, a colon as `%3A`, a slash as `%2F`.
proof fn lemma_form_encoded_marks()
    ensures
        form_encoded(seq![',']) == seq!['%', '2', 'C'],
        form_encoded(seq![':']) == seq!['%', '3', 'A'],
        form_encoded(seq!['/']) == seq!['%', '2', 'F'],
{
    lemma_form_encoded_ascii(',');
    lemma_form_encoded_ascii(':');
    lemma_form_encoded_ascii('/');
    assert(',' as u8 == 0x2Cu8);
    assert(':' as u8 == 0x3Au8);
    assert('/' as u8 == 0x2Fu8);
    assert(hex_digit(2) == '2');
    assert(hex_digit(3) == '3');
    assert(hex_digit(10) == 'A');
    assert(hex_digit(12) == 'C');
    assert(hex_digit(15) == 'F');
    assert(encoded_byte(0x2Cu8) =~= seq!['%', '2', 'C']);
    assert(encoded_byte(0x3Au8) =~= seq!['%', '3', 'A']);
    assert(encoded_byte(0x2Fu8) =~= seq!['%', '2', 'F']);
}

/// The names and fixed values of the two requests are their own encodings.
proof fn lemma_fixed_words()
    ensures
        form_encoded("hl"@) == "hl"@,
        form_encoded("en"@) == "en"@,
        form_encoded("as_sdt"@) == "as_sdt"@,
        form_encoded("q"@) == "q"@,
        form_encoded("btnG"@) == "btnG"@,
        form_encoded("output"@) == "output"@,
        form_encoded("cite"@) == "cite"@,
        form_encoded("scirp"@) == "scirp"@,
        form_encoded("0"@) == "0"@,
        form_encoded("5"@) == "5"@,
        form_encoded("info"@) == "info"@,
        form_encoded("scholar.google.com"@) == "scholar.google.com"@,
{
    reveal_strlit("hl");
    reveal_strlit("en");
    reveal_strlit("as_sdt");
    reveal_strlit("q");
    reveal_strlit("btnG");
    reveal_strlit("output");
    reveal_strlit("cite");
    reveal_strlit("scirp");
    reveal_strlit("0");
    reveal_strlit("5");
    reveal_strlit("info");
    reveal_strlit("scholar.google.com");
    lemma_form_encoded_unreserved("hl"@);
    lemma_form_encoded_unreserved("en"@);
    lemma_form_encoded_unreserved("as_sdt"@);
    lemma_form_encoded_unreserved("q"@);
    lemma_form_encoded_unreserved("btnG"@);
    lemma_form_encoded_unreserved("output"@);
    lemma_form_encoded_unreserved("cite"@);
    lemma_form_encoded_unreserved("scirp"@);
    lemma_form_encoded_unreserved("0"@);
    lemma_form_encoded_unreserved("5"@);
    lemma_form_encoded_unreserved("info"@);
    lemma_form_encoded_unreserved("scholar.google.com"@);
}

/// A name, `=`, and a value.
spec fn written(name: Seq<char>, value: Seq<char>) -> Seq<char> {
    name + seq!['='] + value
}

/// What stands before the query of a search, part by part.
spec fn search_lead() -> Seq<char> {
    (endpoint() + seq!['?']) + ((written("hl"@, "en"@) + seq!['&'] + written(
        "as_sdt"@,
        seq!['0', '%', '2', 'C', '5'],
    ) + seq!['&']) + ("q"@ + seq!['=']))
}

/// What stands after the query of a search, part by part.
spec fn search_trail() -> Seq<char> {
    seq!['&'] + written("btnG"@, Seq::<char>::empty())
}

/// The parts before and after the query of a search make up the two fixed
/// texts of the search locator.
proof fn lemma_search_frame()
    ensures
        search_lead() == "https://scholar.google.com/scholar?hl=en&as_sdt=0%2C5&q="@,
        search_trail() == "&btnG="@,
{
    reveal_strlit("hl");
    reveal_strlit("en");
    reveal_strlit("as_sdt");
    reveal_strlit("q");
    reveal_strlit("btnG");
    reveal_strlit("&btnG=");
    reveal_strlit("https://scholar.google.com/scholar");
    reveal_strlit("https://scholar.google.com/scholar?hl=en&as_sdt=0%2C5&q=");
    assert(search_lead() =~= "https://scholar.google.com/scholar?hl=en&as_sdt=0%2C5&q="@);
    assert(search_trail() =~= "&btnG="@);
}

/// `0,5` is encoded as `0%2C5`.
proof fn lemma_form_encoded_span()
    ensures
        form_encoded("0,5"@) == seq!['0', '%', '2', 'C', '5'],
{
    lemma_fixed_words();
    lemma_form_encoded_marks();
    reveal_strlit("0,5");
    reveal_strlit("0");
    reveal_strlit("5");
    assert("0,5"@ =~= "0"@ + (seq![','] + "5"@));
    lemma_form_encoded_concat("0"@, seq![','] + "5"@);
    lemma_form_encoded_concat(seq![','], "5"@);
    assert(form_encoded("0,5"@) =~= seq!['0', '%', '2', 'C', '5']);
}

/// The locator of a search for a bare query is the endpoint followed by
/// `hl=en`, `as_sdt=0%2C5`, `q=` with the form-encoded query, and `btnG=`,
/// in that order.
pub proof fn lemma_search_text(query: Seq<char>)
    ensures
        endpoint_text(search_pairs(query)) == search_text(query),
{
    lemma_fixed_words();
    lemma_form_encoded_span();
    lemma_form_encoded_empty();
    lemma_search_frame();
    lemma_query_string_of_four(
        ("hl"@, "en"@),
        ("as_sdt"@, "0,5"@),
        ("q"@, query),
        ("btnG"@, Seq::<char>::empty()),
    );
    let amp = seq!['&'];
    let start = endpoint() + seq!['?'];
    let before = written("hl"@, "en"@) + amp + written("as_sdt"@, seq!['0', '%', '2', 'C', '5'])
        + amp;
    let key = "q"@ + seq!['='];
    let middle = form_encoded(query);
    let last = written("btnG"@, Seq::<char>::empty());
    let all = query_string(search_pairs(query));
    assert(all == before + (key + middle) + amp + last);
    lemma_concat_assoc(before, key, middle);
    lemma_concat_assoc(before + key + middle, amp, last);
    assert(all == before + key + middle + (amp + last));
    lemma_concat_assoc(start, before + key + middle, amp + last);
    lemma_concat_assoc(start, before + key, middle);
    assert(start + all == start + (before + key) + middle + (amp + last));
    assert(start + (before + key) == search_lead());
    assert(amp + last == search_trail());
}

/// `info:` is encoded as `info%3A`, and `:scholar.google.com/` as
/// `%3Ascholar.google.com%2F`.
proof fn lemma_form_encoded_wrapping()
    ensures
        form_encoded("info:"@) == "info%3A"@,
        form_encoded(":scholar.google.com/"@) == "%3Ascholar.google.com%2F"@,
{
    lemma_fixed_words();
    lemma_form_encoded_marks();
    let host = "scholar.google.com"@;
    reveal_strlit("info:");
    reveal_strlit("info");
    reveal_strlit("info%3A");
    reveal_strlit(":scholar.google.com/");
    reveal_strlit("scholar.google.com");
    reveal_strlit("%3Ascholar.google.com%2F");
    assert("info:"@ =~= "info"@ + seq![':']);
    assert(":scholar.google.com/"@ =~= seq![':'] + (host + seq!['/']));
    lemma_form_encoded_concat("info"@, seq![':']);
    lemma_form_encoded_concat(host, seq!['/']);
    lemma_form_encoded_concat(seq![':'], host + seq!['/']);
    assert("info"@ + seq!['%', '3', 'A'] =~= "info%3A"@);
    assert(seq!['%', '3', 'A'] + (host + seq!['%', '2', 'F']) =~= "%3Ascholar.google.com%2F"@);
}

/// The query for a citation page, encoded: `info%3A`, the encoded id, and
/// `%3Ascholar.google.com%2F`.
proof fn lemma_cite_query_encoded(id: Seq<char>)
    ensures
        form_encoded(cite_query(id)) == "info%3A"@ + form_encoded(id)
            + "%3Ascholar.google.com%2F"@,
{
    lemma_form_encoded_wrapping();
    lemma_form_encoded_concat("info:"@, id);
    lemma_form_encoded_concat("info:"@ + id, ":scholar.google.com/"@);
}

/// What stands before the id of a citation request, part by part.
spec fn cite_lead() -> Seq<char> {
    (endpoint() + seq!['?']) + ((written("hl"@, "en"@) + seq!['&']) + (("q"@ + seq!['='])
        + "info%3A"@))
}

/// What stands after the id of a citation request, part by part.
spec fn cite_trail() -> Seq<char> {
    "%3Ascholar.google.com%2F"@ + seq!['&'] + written("output"@, "cite"@) + seq!['&'] + written(
        "scirp"@,
        "0"@,
    )
}

/// The parts before and after the id of a citation request make up the two
/// fixed texts of the citation locator.
proof fn lemma_cite_frame()
    ensures
        cite_lead() == "https://scholar.google.com/scholar?hl=en&q=info%3A"@,
        cite_trail() == "%3Ascholar.google.com%2F&output=cite&scirp=0"@,
{
    reveal_strlit("hl");
    reveal_strlit("en");
    reveal_strlit("q");
    reveal_strlit("info%3A");
    reveal_strlit("https://scholar.google.com/scholar");
    reveal_strlit("https://scholar.google.com/scholar?hl=en&q=info%3A");
    assert(cite_lead() =~= "https://scholar.google.com/scholar?hl=en&q=info%3A"@);
    reveal_strlit("%3Ascholar.google.com%2F");
    reveal_strlit("output");
    reveal_strlit("cite");
    reveal_strlit("scirp");
    reveal_strlit("0");
    reveal_strlit("%3Ascholar.google.com%2F&output=cite&scirp=0");
    assert(cite_trail() =~= "%3Ascholar.google.com%2F&output=cite&scirp=0"@);
}

/// The locator of the citation page of an id is the endpoint followed by
/// `hl=en`, `q=` with the form encoding of `info:`, the id and
/// `:scholar.google.com/`, then `output=cite` and `scirp=0`. An id of
/// unreserved characters stands in it as it is.
pub proof fn lemma_cite_text(id: Seq<char>)
    ensures
        endpoint_text(cite_pairs(id)) == cite_text(id),
        is_unreserved_text(id) ==> cite_text(id)
            == "https://scholar.google.com/scholar?hl=en&q=info%3A"@ + id
            + "%3Ascholar.google.com%2F&output=cite&scirp=0"@,
{
    lemma_fixed_words();
    if is_unreserved_text(id) {
        lemma_form_encoded_unreserved(id);
    }
    lemma_cite_query_encoded(id);
    lemma_cite_frame();
    lemma_query_string_of_four(
        ("hl"@, "en"@),
        ("q"@, cite_query(id)),
        ("output"@, "cite"@),
        ("scirp"@, "0"@),
    );
    let amp = seq!['&'];
    let start = endpoint() + seq!['?'];
    let before = written("hl"@, "en"@) + amp;
    let key = ("q"@ + seq!['=']) + "info%3A"@;
    let middle = form_encoded(id);
    let close = "%3Ascholar.google.com%2F"@;
    let third = written("output"@, "cite"@);
    let fourth = written("scirp"@, "0"@);
    let all = query_string(cite_pairs(id));
    assert(all == before + (("q"@ + seq!['=']) + ("info%3A"@ + middle + close)) + amp + third + amp
        + fourth);
    lemma_concat_assoc("q"@ + seq!['='], "info%3A"@ + middle, close);
    lemma_concat_assoc("q"@ + seq!['='], "info%3A"@, middle);
    assert(("q"@ + seq!['=']) + ("info%3A"@ + middle + close) == key + middle + close);
    lemma_concat_assoc(before, key + middle, close);
    lemma_concat_assoc(before, key, middle);
    let front = before + key + middle;
    assert(before + (key + middle + close) == front + close);
    lemma_concat_assoc(front, close, amp);
    lemma_concat_assoc(front, close + amp, third);
    lemma_concat_assoc(front, close + amp + third, amp);
    lemma_concat_assoc(front, close + amp + third + amp, fourth);
    assert(all == front + cite_trail());
    lemma_concat_assoc(start, front, cite_trail());
    lemma_concat_assoc(start, before + key, middle);
    assert(start + all == start + (before + key) + middle + cite_trail());
    assert(start + (before + key) == cite_lead());
}

/// Get the search locator for a given query.
///
/// An empty query is refused. For any other, the result is the locator made
/// of the search text, or the error of the URL parser on that text.
pub fn get_search_url(query: &str) -> (outcome: Result<Locator, Error>)
    ensures
        query@.len() == 0 ==> outcome == Err::<Locator, Error>(Error::EmptyQuery),
        query@.len() > 0 ==> located(search_text(query@), outcome),
        outcome is Ok ==> outcome->Ok_0.wf(),
{
    if query.is_empty() {
        return Err(Error::EmptyQuery);
    }
    let mut pairs: Vec<(String, String)> = Vec::new();
    pairs.push(owned_pair("hl", "en"));
    pairs.push(owned_pair("as_sdt", "0,5"));
    pairs.push(owned_pair("q", query));
    pairs.push(owned_pair("btnG", ""));
    proof {
        reveal_strlit("");
        assert(""@ =~= Seq::<char>::empty());
        assert(pair_views(pairs@) =~= search_pairs(query@));
        lemma_search_text(query@);
    }
    endpoint_locator(&pairs)
}

/// Get the locator of the citation page for a given citation id.
///
/// The result is the locator made of the citation text, or the error of the
/// URL parser on that text.
pub fn get_cite_url(citation_id: &str) -> (outcome: Result<Locator, Error>)
    ensures
        located(cite_text(citation_id@), outcome),
        outcome is Ok ==> outcome->Ok_0.wf(),
{
    let mut query = String::from_str("info:");
    query.append(citation_id);
    query.append(":scholar.google.com/");
    let mut pairs: Vec<(String, String)> = Vec::new();
    pairs.push(owned_pair("hl", "en"));
    pairs.push(owned_pair("q", query.as_str()));
    pairs.push(owned_pair("output", "cite"));
    pairs.push(owned_pair("scirp", "0"));
    proof {
        assert(pair_views(pairs@) =~= cite_pairs(citation_id@));
        lemma_cite_text(citation_id@);
    }
    endpoint_locator(&pairs)
}

} // verus!
