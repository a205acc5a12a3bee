//! The arguments of a search and the locator that carries them.

use crate::encoding::{
    decimal, decimal_text, form_encoded, join, joined, lemma_concat_assoc,
    lemma_form_encoded_decimal, lemma_form_encoded_unreserved, lemma_query_string_of_four,
    pair_views, query_string, text_views,
};
use crate::error::Error;
use crate::locator::{endpoint, endpoint_locator, endpoint_text, located, Locator};
use vstd::prelude::*;

verus! {

/// Argument for how to sort the query results.
#[derive(Debug, PartialEq, Eq, PartialOrd, Clone, Copy, Hash)]
pub enum SortBy {
    /// Relevance to the query
    Relevance,
    /// Abstract content
    Abstracts,
    /// Everything
    Everything,
}

impl SortBy {
    /// The number that stands for the sort order in a query string.
    pub open spec fn code(self) -> nat {
        match self {
            SortBy::Relevance => 0,
            SortBy::Abstracts => 1,
            SortBy::Everything => 2,
        }
    }

    /// The value of the `scisbd` argument: the code in decimal.
    pub fn to_url_arg(self) -> (arg: String)
        ensures
            arg@ == decimal(self.code()),
    {
        match self {
            SortBy::Relevance => decimal_text(0),
            SortBy::Abstracts => decimal_text(1),
            SortBy::Everything => decimal_text(2),
        }
    }
}

/// Arguments of the query
#[derive(Debug, PartialEq, Eq, PartialOrd, Clone, Hash)]
pub struct QueryArgs<'a> {
    /// Argument `q`. Basic search query.
    pub query: &'a str,
    /// Argument `cites`. Citation id to trigger "cited by".
    pub cite_id: Option<&'a str>,
    /// Argument `as_ylo`. Give results from this year onwards.
    pub from_year: Option<u16>,
    /// Argument `as_yhi`. Give results up to this year.
    pub to_year: Option<u16>,
    /// Argument `scisbd`. Sort order of the results. The default (`None`)
    /// sorts results by date.
    pub sort_by: Option<SortBy>,
    /// Argument `cluster`. Query all versions.
    pub cluster_id: Option<&'a str>,
    /// Argument `hl`. Language of the results. Eg: `en` for English.
    pub lang: Option<&'a str>,
    /// Argument `lr`. One or multiple languages to limit the results to.
    /// eg: `["lang_fr","lang_en"]` looks for results in French and English.
    pub lang_limit: Option<&'a [&'a str]>,
    /// Argument `num`. Max number of results to return.
    pub limit: Option<u32>,
    /// Argument `start`. Result offset. Can be used with limit for pagination.
    pub offset: Option<u32>,
    /// Argument `safe`. Level of filtering.
    /// Is converted to `safe=active` or `safe=off`.
    pub adult_filtering: Option<bool>,
    /// Argument `filter`. Whether to give similar/omitted results.
    /// Is converted to `filter=1` for similar results and `filter=0` for
    /// omitted.
    pub include_similar_results: Option<bool>,
    /// Argument `as_vis`. Set to `true` for including citations.
    pub include_citations: Option<bool>,
}

/// The arguments of a query as mathematical values.
pub struct QueryArgsView {
    pub query: Seq<char>,
    pub cite_id: Option<Seq<char>>,
    pub from_year: Option<nat>,
    pub to_year: Option<nat>,
    pub sort_by: Option<SortBy>,
    pub cluster_id: Option<Seq<char>>,
    pub lang: Option<Seq<char>>,
    pub lang_limit: Option<Seq<Seq<char>>>,
    pub limit: Option<nat>,
    pub offset: Option<nat>,
    pub adult_filtering: Option<bool>,
    pub include_similar_results: Option<bool>,
    pub include_citations: Option<bool>,
}

/// The pair of an argument that is given, and nothing for one that is not.
pub open spec fn entry(name: Seq<char>, value: Option<Seq<char>>) -> Seq<(Seq<char>, Seq<char>)> {
    match value {
        Some(v) => seq![(name, v)],
        None => Seq::empty(),
    }
}

/// The view of a text that may be absent.
pub open spec fn text_of(value: Option<&str>) -> Option<Seq<char>> {
    match value {
        Some(v) => Some(v@),
        None => None,
    }
}

/// A number that may be absent, in decimal.
pub open spec fn number(value: Option<nat>) -> Option<Seq<char>> {
    match value {
        Some(n) => Some(decimal(n)),
        None => None,
    }
}

/// A sort order that may be absent, as its code in decimal.
pub open spec fn order(value: Option<SortBy>) -> Option<Seq<char>> {
    match value {
        Some(s) => Some(decimal(s.code())),
        None => None,
    }
}

/// A list of languages that may be absent, joined with `|`.
pub open spec fn languages(value: Option<Seq<Seq<char>>>) -> Option<Seq<char>> {
    match value {
        Some(parts) => Some(joined(parts, "|"@)),
        None => None,
    }
}

/// The level of filtering that may be absent: `active` or `off`.
pub open spec fn filtering(value: Option<bool>) -> Option<Seq<char>> {
    match value {
        Some(on) => Some(
            if on {
                "active"@
            } else {
                "off"@
            },
        ),
        None => None,
    }
}

/// A switch that may be absent: `1` or `0`.
pub open spec fn switch(value: Option<bool>) -> Option<Seq<char>> {
    match value {
        Some(on) => Some(
            if on {
                "1"@
            } else {
                "0"@
            },
        ),
        None => None,
    }
}

impl QueryArgsView {
    /// The pairs of the query string: one for each argument that is given,
    /// in a fixed order.
    pub open spec fn params(self) -> Seq<(Seq<char>, Seq<char>)> {
        seq![("q"@, self.query)] + entry("cites"@, self.cite_id) + entry(
            "as_ylo"@,
            number(self.from_year),
        ) + entry("as_yhi"@, number(self.to_year)) + entry("scisbd"@, order(self.sort_by)) + entry(
            "cluster"@,
            self.cluster_id,
        ) + entry("hl"@, self.lang) + entry("lr"@, languages(self.lang_limit)) + entry(
            "num"@,
            number(self.limit),
        ) + entry("start"@, number(self.offset)) + entry("safe"@, filtering(self.adult_filtering))
            + entry("filter"@, switch(self.include_similar_results)) + entry(
            "as_vis"@,
            switch(self.include_citations),
        )
    }
}

impl QueryArgsView {
    /// Whether `outcome` is what making the locator of these arguments
    /// gives: the empty-query error where the query is empty, and otherwise
    /// the locator that carries the pairs to the search endpoint, or the
    /// error of the URL parser on its text.
    pub open spec fn locates(self, outcome: Result<Locator, Error>) -> bool {
        if self.query.len() == 0 {
            outcome == Err::<Locator, Error>(Error::EmptyQuery)
        } else {
            located(endpoint_text(self.params()), outcome)
        }
    }
}

impl<'a> View for QueryArgs<'a> {
    type V = QueryArgsView;

    open spec fn view(&self) -> QueryArgsView {
        QueryArgsView {
            query: self.query@,
            cite_id: text_of(self.cite_id),
            from_year: match self.from_year {
                Some(y) => Some(y as nat),
                None => None,
            },
            to_year: match self.to_year {
                Some(y) => Some(y as nat),
                None => None,
            },
            sort_by: self.sort_by,
            cluster_id: text_of(self.cluster_id),
            lang: text_of(self.lang),
            lang_limit: match self.lang_limit {
                Some(parts) => Some(text_views(parts@)),
                None => None,
            },
            limit: match self.limit {
                Some(n) => Some(n as nat),
                None => None,
            },
            offset: match self.offset {
                Some(n) => Some(n as nat),
                None => None,
            },
            adult_filtering: self.adult_filtering,
            include_similar_results: self.include_similar_results,
            include_citations: self.include_citations,
        }
    }
}

/// Adds the pair of an argument to a list if the argument is given.
fn push_entry(pairs: &mut Vec<(String, String)>, name: &str, value: Option<String>)
    ensures
        pair_views(final(pairs)@) == pair_views(old(pairs)@) + entry(
            name@,
            match value {
                Some(v) => Some(v@),
                None => None,
            },
        ),
{
    match value {
        Some(v) => {
            pairs.push((String::from_str(name), v));
            assert(pair_views(pairs@) =~= pair_views(old(pairs)@) + seq![(name@, v@)]);
        },
        None => {
            assert(pair_views(pairs@) =~= pair_views(old(pairs)@) + Seq::empty());
        },
    }
}

/// The owned copy of a text that may be absent.
fn owned_text(value: Option<&str>) -> (text: Option<String>)
    ensures
        match text {
            Some(t) => Some(t@),
            None => None,
        } == text_of(value),
{
    match value {
        Some(v) => Some(String::from_str(v)),
        None => None,
    }
}

/// The decimal text of a number that may be absent.
fn number_text(value: Option<u32>) -> (text: Option<String>)
    ensures
        match text {
            Some(t) => Some(t@),
            None => None,
        } == number(
            match value {
                Some(n) => Some(n as nat),
                None => None,
            },
        ),
{
    match value {
        Some(n) => Some(decimal_text(n)),
        None => None,
    }
}

/// The text of a switch that may be absent.
fn switch_text(value: Option<bool>) -> (text: Option<String>)
    ensures
        match text {
            Some(t) => Some(t@),
            None => None,
        } == switch(value),
{
    match value {
        Some(true) => Some(String::from_str("1")),
        Some(false) => Some(String::from_str("0")),
        None => None,
    }
}

impl<'a> QueryArgs<'a> {
    /// The arguments of a search for `query` with no option given.
    #[must_use]
    pub fn new(query: &'a str) -> (args: Self)
        ensures
            args == (QueryArgs {
                query,
                cite_id: None,
                from_year: None,
                to_year: None,
                sort_by: None,
                cluster_id: None,
                lang: None,
                lang_limit: None,
                limit: None,
                offset: None,
                adult_filtering: None,
                include_similar_results: None,
                include_citations: None,
            }),
    {
        Self {
            query,
            cite_id: None,
            from_year: None,
            to_year: None,
            sort_by: None,
            cluster_id: None,
            lang: None,
            lang_limit: None,
            limit: None,
            offset: None,
            adult_filtering: None,
            include_similar_results: None,
            include_citations: None,
        }
    }

    /// The pairs of the query string, in the order in which they are
    /// written.
    pub fn params(&self) -> (pairs: Vec<(String, String)>)
        ensures
            pair_views(pairs@) == self@.params(),
    {
        let mut pairs: Vec<(String, String)> = Vec::new();
        push_entry(&mut pairs, "q", Some(String::from_str(self.query)));
        push_entry(&mut pairs, "cites", owned_text(self.cite_id));
        push_entry(
            &mut pairs,
            "as_ylo",
            number_text(
                match self.from_year {
                    Some(y) => Some(y as u32),
                    None => None,
                },
            ),
        );
        push_entry(
            &mut pairs,
            "as_yhi",
            number_text(
                match self.to_year {
                    Some(y) => Some(y as u32),
                    None => None,
                },
            ),
        );
        push_entry(
            &mut pairs,
            "scisbd",
            match self.sort_by {
                Some(s) => Some(s.to_url_arg()),
                None => None,
            },
        );
        push_entry(&mut pairs, "cluster", owned_text(self.cluster_id));
        push_entry(&mut pairs, "hl", owned_text(self.lang));
        push_entry(
            &mut pairs,
            "lr",
            match self.lang_limit {
                Some(parts) => Some(join(parts, "|")),
                None => None,
            },
        );
        push_entry(&mut pairs, "num", number_text(self.limit));
        push_entry(&mut pairs, "start", number_text(self.offset));
        push_entry(
            &mut pairs,
            "safe",
            match self.adult_filtering {
                Some(true) => Some(String::from_str("active")),
                Some(false) => Some(String::from_str("off")),
                None => None,
            },
        );
        push_entry(&mut pairs, "filter", switch_text(self.include_similar_results));
        push_entry(&mut pairs, "as_vis", switch_text(self.include_citations));
        assert(pair_views(pairs@) =~= self@.params());
        pairs
    }

    /// The locator of the search that the arguments describe.
    ///
    /// An empty query is refused. For any other, the result is the locator
    /// that carries the pairs of the arguments to the search endpoint, or the
    /// error of the URL parser on its text.
    pub fn try_into(self) -> (outcome: Result<Locator, Error>)
        ensures
            self@.locates(outcome),
            outcome is Ok ==> outcome->Ok_0.wf(),
    {
        if self.query.is_empty() {
            return Err(Error::EmptyQuery);
        }
        let pairs = self.params();
        endpoint_locator(&pairs)
    }
}

/// Making the locator of the same arguments twice gives the same: the same
/// text and the same URL, or the same error.
pub proof fn lemma_locator_repeats(
    first: QueryArgs<'_>,
    second: QueryArgs<'_>,
    once: Result<Locator, Error>,
    again: Result<Locator, Error>,
)
    requires
        first@ == second@,
        first@.locates(once),
        second@.locates(again),
    ensures
        once is Ok <==> again is Ok,
        once is Ok ==> once->Ok_0@ == again->Ok_0@ && once->Ok_0.url() == again->Ok_0.url(),
        once is Err ==> once->Err_0 == again->Err_0,
{
}

/// The fixed texts of the locator of a search with an order, a limit and an
/// offset, put together from their parts; and the names in it are their own
/// encodings.
proof fn lemma_paged_frame()
    ensures
        endpoint() + seq!['?'] + ("q"@ + seq!['=']) == "https://scholar.google.com/scholar?q="@,
        seq!['&'] + ("scisbd"@ + seq!['=']) == "&scisbd="@,
        seq!['&'] + ("num"@ + seq!['=']) == "&num="@,
        seq!['&'] + ("start"@ + seq!['=']) == "&start="@,
        form_encoded("q"@) == "q"@,
        form_encoded("scisbd"@) == "scisbd"@,
        form_encoded("num"@) == "num"@,
        form_encoded("start"@) == "start"@,
{
    reveal_strlit("q");
    reveal_strlit("scisbd");
    reveal_strlit("num");
    reveal_strlit("start");
    lemma_form_encoded_unreserved("q"@);
    lemma_form_encoded_unreserved("scisbd"@);
    lemma_form_encoded_unreserved("num"@);
    lemma_form_encoded_unreserved("start"@);
    reveal_strlit("https://scholar.google.com/scholar");
    reveal_strlit("https://scholar.google.com/scholar?q=");
    reveal_strlit("&scisbd=");
    reveal_strlit("&num=");
    reveal_strlit("&start=");
    assert(endpoint() + seq!['?'] + ("q"@ + seq!['='])
        =~= "https://scholar.google.com/scholar?q="@);
    assert(seq!['&'] + ("scisbd"@ + seq!['=']) =~= "&scisbd="@);
    assert(seq!['&'] + ("num"@ + seq!['=']) =~= "&num="@);
    assert(seq!['&'] + ("start"@ + seq!['=']) =~= "&start="@);
}

/// Moves a separator and a name over to the text before them.
proof fn lemma_next_pair(
    front: Seq<char>,
    separator: Seq<char>,
    name: Seq<char>,
    value: Seq<char>,
)
    ensures
        front + separator + (name + value) == front + (separator + name) + value,
{
    lemma_concat_assoc(front + separator, name, value);
    lemma_concat_assoc(front, separator, name);
}

/// A search with an order, a limit and an offset, and nothing else: its
/// locator is the endpoint followed by `q=` with the form-encoded query,
/// `scisbd=` with the code of the order, `num=` with the limit and `start=`
/// with the offset, the numbers in decimal, in that order.
pub proof fn lemma_paged_search_text(args: QueryArgsView, order: SortBy, limit: nat, offset: nat)
    requires
        args == (QueryArgsView {
            query: args.query,
            cite_id: None,
            from_year: None,
            to_year: None,
            sort_by: Some(order),
            cluster_id: None,
            lang: None,
            lang_limit: None,
            limit: Some(limit),
            offset: Some(offset),
            adult_filtering: None,
            include_similar_results: None,
            include_citations: None,
        }),
    ensures
        endpoint_text(args.params()) == "https://scholar.google.com/scholar?q="@ + form_encoded(
            args.query,
        ) + "&scisbd="@ + decimal(order.code()) + "&num="@ + decimal(limit) + "&start="@ + decimal(
            offset,
        ),
{
    lemma_paged_frame();
    lemma_form_encoded_decimal(order.code());
    lemma_form_encoded_decimal(limit);
    lemma_form_encoded_decimal(offset);
    let code = decimal(order.code());
    let count = decimal(limit);
    let skip = decimal(offset);
    assert(args.params() =~= seq![
        ("q"@, args.query),
        ("scisbd"@, code),
        ("num"@, count),
        ("start"@, skip),
    ]);
    lemma_query_string_of_four(
        ("q"@, args.query),
        ("scisbd"@, code),
        ("num"@, count),
        ("start"@, skip),
    );
    let amp = seq!['&'];
    let eq = seq!['='];
    let start = endpoint() + seq!['?'];
    let key = "q"@ + eq;
    let middle = form_encoded(args.query);
    let all = query_string(args.params());
    assert(all == key + middle + amp + ("scisbd"@ + eq + code) + amp + ("num"@ + eq + count) + amp
        + ("start"@ + eq + skip));
    let first = key + middle;
    lemma_next_pair(first, amp, "scisbd"@ + eq, code);
    let second = first + (amp + ("scisbd"@ + eq)) + code;
    lemma_next_pair(second, amp, "num"@ + eq, count);
    let third = second + (amp + ("num"@ + eq)) + count;
    lemma_next_pair(third, amp, "start"@ + eq, skip);
    assert(all == third + (amp + ("start"@ + eq)) + skip);
    lemma_concat_assoc(start, third + "&start="@, skip);
    lemma_concat_assoc(start, third, "&start="@);
    lemma_concat_assoc(start, second + "&num="@, count);
    lemma_concat_assoc(start, second, "&num="@);
    lemma_concat_assoc(start, first + "&scisbd="@, code);
    lemma_concat_assoc(start, first, "&scisbd="@);
    lemma_concat_assoc(start, key, middle);
}

} // verus!
