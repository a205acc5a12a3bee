//! The order of a lookup: which page is fetched when, and what becomes of
//! each answer.
//!
//! A lookup fetches nothing itself. It is a state machine: whoever drives it
//! hands it an event and performs the action it answers with. Between two
//! references it waits to be asked for the next, so that nothing is fetched
//! that nobody asked for.

use crate::encoding::pair_views;
use crate::error::Error;
use crate::locator::{
    cite_text, get_cite_url, get_search_url, parsed_url, search_text, Locator,
};
use crate::locator::endpoint_text;
use crate::query::QueryArgs;
use crate::scrape::{
    citation_ids, citation_link, parse_document, parsed_document, scrape_citation_ids,
    scrape_citation_link, string_views, ReferenceFormat,
};
use vstd::prelude::*;

verus! {

/// Where a lookup stands.
#[derive(Debug, Clone, Copy, PartialEq, Eq)]
pub enum Phase {
    /// The result page has been asked for.
    Search,
    /// Nothing is asked for: the lookup waits to be pulled.
    Idle,
    /// The citation page of the current id has been asked for.
    Citation,
    /// The export of the current id has been asked for.
    Export,
    /// The lookup has ended, by itself or with an error.
    Closed,
}

/// What happened outside.
#[derive(Debug)]
pub enum Event {
    /// The consumer asks for the next reference.
    Pull,
    /// The page asked for has come, with this text.
    Body(String),
    /// The page asked for could not be fetched.
    Failed,
}

/// What an event holds, as mathematical values.
pub enum EventView {
    Pull,
    Body(Seq<char>),
    Failed,
}

impl View for Event {
    type V = EventView;

    open spec fn view(&self) -> EventView {
        match self {
            Event::Pull => EventView::Pull,
            Event::Body(text) => EventView::Body(text@),
            Event::Failed => EventView::Failed,
        }
    }
}

/// What the lookup asks of its driver.
#[derive(Debug)]
pub enum Action {
    /// Fetch this locator and hand back `Event::Body` or `Event::Failed`.
    Fetch(Locator),
    /// The ids are read: hand back `Event::Pull` when a reference is wanted.
    Ready,
    /// Here is the next reference.
    Yield(String),
    /// There are no more references.
    Finish,
    /// The lookup has failed, and is over.
    Fail(Error),
    /// The event does not fit where the lookup stands. Nothing has changed.
    Ignore,
}

/// What an action holds, as mathematical values.
pub enum ActionView {
    Fetch(Seq<char>),
    Ready,
    Yield(Seq<char>),
    Finish,
    Fail(Error),
    Ignore,
}

impl View for Action {
    type V = ActionView;

    open spec fn view(&self) -> ActionView {
        match self {
            Action::Fetch(locator) => ActionView::Fetch(locator@),
            Action::Ready => ActionView::Ready,
            Action::Yield(text) => ActionView::Yield(text@),
            Action::Finish => ActionView::Finish,
            Action::Fail(e) => ActionView::Fail(*e),
            Action::Ignore => ActionView::Ignore,
        }
    }
}

/// What an event comes to, once the page it brought has been read.
#[derive(Debug)]
pub enum Reading {
    /// A reference is asked for and there is nothing to fetch for it.
    Pull,
    /// The page asked for could not be fetched.
    Failed,
    /// The ids of the result page.
    Ids(Vec<String>),
    /// The locator to fetch next, or why there is none.
    Target(Result<Locator, Error>),
    /// The text of an export.
    Text(String),
    /// A page that nothing had asked for.
    Stray,
}

/// What a reading holds, as mathematical values.
pub enum ReadingView {
    Pull,
    Failed,
    Ids(Seq<Seq<char>>),
    Target(Result<Seq<char>, Error>),
    Text(Seq<char>),
    Stray,
}

impl View for Reading {
    type V = ReadingView;

    open spec fn view(&self) -> ReadingView {
        match self {
            Reading::Pull => ReadingView::Pull,
            Reading::Failed => ReadingView::Failed,
            Reading::Ids(ids) => ReadingView::Ids(string_views(ids@)),
            Reading::Target(Ok(locator)) => ReadingView::Target(Ok(locator@)),
            Reading::Target(Err(e)) => ReadingView::Target(Err(*e)),
            Reading::Text(text) => ReadingView::Text(text@),
            Reading::Stray => ReadingView::Stray,
        }
    }
}

/// The state of a lookup, as mathematical values.
pub struct PipelineView {
    /// The format in which references are asked for.
    pub format: ReferenceFormat,
    /// The citation ids of the result page, in its order.
    pub ids: Seq<Seq<char>>,
    /// How many of the ids have been dealt with.
    pub next: nat,
    /// Where the lookup stands.
    pub phase: Phase,
}

/// One lookup: the references of the results of one search, in the order of
/// the result page.
#[derive(Debug)]
pub struct Pipeline {
    format: ReferenceFormat,
    ids: Vec<String>,
    next: usize,
    phase: Phase,
}

impl View for Pipeline {
    type V = PipelineView;

    closed spec fn view(&self) -> PipelineView {
        PipelineView {
            format: self.format,
            ids: string_views(self.ids@),
            next: self.next as nat,
            phase: self.phase,
        }
    }
}

/// The locator of a text as a reading holds it: the text where the URL
/// parser accepts it, and otherwise the parser's error.
pub open spec fn target(text: Seq<char>) -> Result<Seq<char>, Error> {
    match parsed_url(text) {
        Ok(_) => Ok(text),
        Err(e) => Err(Error::UrlParseError(e)),
    }
}

impl PipelineView {
    /// The ids dealt with are among the ids there are, and while a page of
    /// an id is awaited, that id is one of them.
    pub open spec fn wf(self) -> bool {
        &&& self.next <= self.ids.len()
        &&& (self.phase is Citation || self.phase is Export) ==> self.next < self.ids.len()
    }

    /// The state of a lookup that has asked for its result page.
    pub open spec fn initial(format: ReferenceFormat) -> PipelineView {
        PipelineView { format, ids: Seq::empty(), next: 0, phase: Phase::Search }
    }

    /// The state in which the lookup has ended.
    pub open spec fn closed(self) -> PipelineView {
        PipelineView { phase: Phase::Closed, ..self }
    }

    /// The state in another phase.
    pub open spec fn at(self, phase: Phase) -> PipelineView {
        PipelineView { phase, ..self }
    }

    /// What an event comes to in this state.
    ///
    /// A page is read as what had been asked for: the result page for its
    /// ids, a citation page for its export link, an export as it is. A pull
    /// between two references turns into the locator of the next id's
    /// citation page, while there is a next id.
    pub open spec fn read(self, event: EventView) -> ReadingView {
        match (self.phase, event) {
            (Phase::Search, EventView::Body(text)) => ReadingView::Ids(
                citation_ids(parsed_document(text)),
            ),
            (Phase::Citation, EventView::Body(text)) => ReadingView::Target(
                match citation_link(parsed_document(text), self.format) {
                    Some(link) => target(link),
                    None => Err(Error::LinkNotFound),
                },
            ),
            (Phase::Export, EventView::Body(text)) => ReadingView::Text(text),
            (Phase::Idle, EventView::Pull) => if self.next < self.ids.len() {
                ReadingView::Target(target(cite_text(self.ids[self.next as int])))
            } else {
                ReadingView::Pull
            },
            (_, EventView::Pull) => ReadingView::Pull,
            (Phase::Search, EventView::Failed) => ReadingView::Failed,
            (Phase::Citation, EventView::Failed) => ReadingView::Failed,
            (Phase::Export, EventView::Failed) => ReadingView::Failed,
            _ => ReadingView::Stray,
        }
    }

    /// The next state and the action, given what the event came to.
    ///
    /// Once closed, a lookup stays closed and answers `Finish`. A failure
    /// closes it. The ids open the row of references; a pull with no id left
    /// closes it. A locator is fetched and moves the lookup on to the page
    /// it stands for, and where there is an error in its place the lookup
    /// closes with that error; an export is handed out and the lookup moves
    /// to the next id. Anything else is ignored.
    pub open spec fn advance(self, reading: ReadingView) -> (PipelineView, ActionView) {
        match (self.phase, reading) {
            (Phase::Closed, _) => (self, ActionView::Finish),
            (Phase::Search, ReadingView::Failed) => (
                self.closed(),
                ActionView::Fail(Error::RequestError),
            ),
            (Phase::Citation, ReadingView::Failed) => (
                self.closed(),
                ActionView::Fail(Error::RequestError),
            ),
            (Phase::Export, ReadingView::Failed) => (
                self.closed(),
                ActionView::Fail(Error::RequestError),
            ),
            (Phase::Search, ReadingView::Ids(ids)) => (
                PipelineView { format: self.format, ids, next: 0, phase: Phase::Idle },
                ActionView::Ready,
            ),
            (Phase::Idle, ReadingView::Pull) => if self.next < self.ids.len() {
                (self, ActionView::Ignore)
            } else {
                (self.closed(), ActionView::Finish)
            },
            (Phase::Idle, ReadingView::Target(found)) => if self.next < self.ids.len() {
                match found {
                    Ok(text) => (self.at(Phase::Citation), ActionView::Fetch(text)),
                    Err(e) => (self.closed(), ActionView::Fail(e)),
                }
            } else {
                (self, ActionView::Ignore)
            },
            (Phase::Citation, ReadingView::Target(Ok(text))) => (
                self.at(Phase::Export),
                ActionView::Fetch(text),
            ),
            (Phase::Citation, ReadingView::Target(Err(e))) => (self.closed(), ActionView::Fail(e)),
            (Phase::Export, ReadingView::Text(text)) => (
                PipelineView { next: self.next + 1, phase: Phase::Idle, ..self },
                ActionView::Yield(text),
            ),
            _ => (self, ActionView::Ignore),
        }
    }

    /// The next state and the action for an event.
    pub open spec fn step(self, event: EventView) -> (PipelineView, ActionView) {
        self.advance(self.read(event))
    }

    /// The state after a row of events, taken one after the other.
    pub open spec fn run(self, events: Seq<EventView>) -> PipelineView
        decreases events.len(),
    {
        if events.len() == 0 {
            self
        } else {
            self.step(events[0]).0.run(events.drop_first())
        }
    }

    /// The place among the ids of the next id whose citation page is to be
    /// asked for: the place where the lookup stands, or the one after it
    /// while a page of the id at that place is awaited.
    pub open spec fn pending(self) -> nat {
        if self.phase is Citation || self.phase is Export {
            self.next + 1
        } else {
            self.next
        }
    }

    /// The locators of the citation pages that a row of events has the
    /// driver fetch, in the order in which they are asked for.
    pub open spec fn citations(self, events: Seq<EventView>) -> Seq<Seq<char>>
        decreases events.len(),
    {
        if events.len() == 0 {
            Seq::empty()
        } else {
            let rest = self.step(events[0]).0.citations(events.drop_first());
            match self.step(events[0]).1 {
                ActionView::Fetch(text) => if self.phase is Idle {
                    seq![text] + rest
                } else {
                    rest
                },
                _ => rest,
            }
        }
    }

    /// The references that a row of events brings out, in the order in which
    /// they come, each with the place among the ids at which the lookup
    /// stood when it handed the reference out.
    pub open spec fn yields(self, events: Seq<EventView>) -> Seq<(nat, Seq<char>)>
        decreases events.len(),
    {
        if events.len() == 0 {
            Seq::empty()
        } else {
            let rest = self.step(events[0]).0.yields(events.drop_first());
            match self.step(events[0]).1 {
                ActionView::Yield(text) => seq![(self.next, text)] + rest,
                _ => rest,
            }
        }
    }
}

/// The headers that a transport sends with every request unless it is told
/// otherwise: a referer, `https://www.google.com/`.
pub fn default_headers() -> (headers: Vec<(String, String)>)
    ensures
        pair_views(headers@) == seq![("referer"@, "https://www.google.com/"@)],
{
    let mut headers: Vec<(String, String)> = Vec::new();
    headers.push((String::from_str("referer"), String::from_str("https://www.google.com/")));
    assert(pair_views(headers@) =~= seq![("referer"@, "https://www.google.com/"@)]);
    headers
}

/// Whether `outcome` is what beginning a lookup with the locator of `text`
/// gives: a lookup that awaits its result page, with that locator, or the
/// error of the URL parser on the text.
pub open spec fn begins(
    text: Seq<char>,
    format: ReferenceFormat,
    outcome: Result<(Pipeline, Locator), Error>,
) -> bool {
    match parsed_url(text) {
        Ok(url) => {
            &&& outcome is Ok
            &&& outcome->Ok_0.0@ == PipelineView::initial(format)
            &&& outcome->Ok_0.1@ == text
            &&& outcome->Ok_0.1.url() == url
        },
        Err(e) => outcome is Err && outcome->Err_0 == Error::UrlParseError(e),
    }
}

impl Pipeline {
    #[verifier::type_invariant]
    spec fn inv(self) -> bool {
        self@.wf()
    }

    /// Begins a lookup with the outcome of making its search locator: the
    /// lookup and the locator to fetch first, or the error that there was in
    /// the locator's place.
    pub fn start(found: Result<Locator, Error>, format: ReferenceFormat) -> (outcome: Result<
        (Pipeline, Locator),
        Error,
    >)
        ensures
            match found {
                Ok(locator) => outcome is Ok && outcome->Ok_0.0@ == PipelineView::initial(format)
                    && outcome->Ok_0.1 == locator,
                Err(e) => outcome is Err && outcome->Err_0 == e,
            },
    {
        match found {
            Ok(locator) => {
                let ids: Vec<String> = Vec::new();
                proof {
                    assert(string_views(ids@) =~= Seq::<Seq<char>>::empty());
                }
                Ok((Pipeline { format, ids, next: 0, phase: Phase::Search }, locator))
            },
            Err(e) => Err(e),
        }
    }

    /// Begins the lookup of the references of a search for a bare query.
    ///
    /// An empty query is refused. For any other, the result is a lookup that
    /// awaits its result page, with the locator of that page, where the URL
    /// parser accepts the search text, and otherwise the parser's error.
    pub fn get_references(query: &str, format: ReferenceFormat) -> (outcome: Result<
        (Pipeline, Locator),
        Error,
    >)
        ensures
            query@.len() == 0 ==> outcome is Err && outcome->Err_0 == Error::EmptyQuery,
            query@.len() > 0 ==> begins(search_text(query@), format, outcome),
    {
        Pipeline::start(get_search_url(query), format)
    }

    /// Begins the lookup of the references of a search with arguments.
    ///
    /// An empty query is refused. For any other, the result is a lookup that
    /// awaits its result page, with the locator of that page, where the URL
    /// parser accepts the text that carries the arguments, and otherwise the
    /// parser's error.
    pub fn get_references_with_query(query: QueryArgs<'_>, format: ReferenceFormat) -> (outcome:
        Result<(Pipeline, Locator), Error>)
        ensures
            query@.query.len() == 0 ==> outcome is Err && outcome->Err_0 == Error::EmptyQuery,
            query@.query.len() > 0 ==> begins(endpoint_text(query@.params()), format, outcome),
    {
        Pipeline::start(query.try_into(), format)
    }

    /// Where the lookup stands.
    pub fn phase(&self) -> (phase: Phase)
        ensures
            phase == self@.phase,
    {
        self.phase
    }

    /// The citation ids of the result page, in its order. There are none
    /// before the result page has come.
    pub fn ids(&self) -> (ids: &Vec<String>)
        ensures
            string_views(ids@) == self@.ids,
    {
        &self.ids
    }

    /// How many references have been handed out.
    pub fn delivered(&self) -> (count: usize)
        ensures
            count == self@.next,
    {
        self.next
    }

    /// The format in which references are asked for.
    pub fn format(&self) -> (format: ReferenceFormat)
        ensures
            format == self@.format,
    {
        self.format
    }

    /// What an event comes to where the lookup stands. The pages are parsed
    /// and searched here, and the locators made.
    pub fn read(&self, event: Event) -> (reading: Reading)
        ensures
            reading@ == self@.read(event@),
            reading matches Reading::Target(Ok(locator)) ==> locator.wf(),
    {
        proof {
            use_type_invariant(self);
        }
        match event {
            Event::Pull => match self.phase {
                Phase::Idle => {
                    if self.next < self.ids.len() {
                        Reading::Target(get_cite_url(self.ids[self.next].as_str()))
                    } else {
                        Reading::Pull
                    }
                },
                _ => Reading::Pull,
            },
            Event::Failed => match self.phase {
                Phase::Search => Reading::Failed,
                Phase::Citation => Reading::Failed,
                Phase::Export => Reading::Failed,
                _ => Reading::Stray,
            },
            Event::Body(text) => match self.phase {
                Phase::Search => {
                    let document = parse_document(text.as_str());
                    Reading::Ids(scrape_citation_ids(&document))
                },
                Phase::Citation => {
                    let document = parse_document(text.as_str());
                    match scrape_citation_link(&document, self.format) {
                        Ok(link) => Reading::Target(Locator::parse(link)),
                        Err(e) => Reading::Target(Err(e)),
                    }
                },
                Phase::Export => Reading::Text(text),
                _ => Reading::Stray,
            },
        }
    }

    /// Moves the lookup on by what an event came to, and says what to do.
    pub fn advance(self, reading: Reading) -> (next: (Pipeline, Action))
        ensures
            (next.0@, next.1@) == self@.advance(reading@),
            next.0@.wf(),
            match (reading, next.1) {
                (Reading::Target(Ok(found)), Action::Fetch(locator)) => locator == found,
                (Reading::Text(found), Action::Yield(text)) => text == found,
                _ => true,
            },
    {
        proof {
            use_type_invariant(&self);
            assert(string_views(self.ids@).len() == self.ids.len());
        }
        let Pipeline { format, ids, next, phase } = self;
        match phase {
            Phase::Closed => (Pipeline { format, ids, next, phase }, Action::Finish),
            Phase::Search => match reading {
                Reading::Failed => (
                    Pipeline { format, ids, next, phase: Phase::Closed },
                    Action::Fail(Error::RequestError),
                ),
                Reading::Ids(found) => (
                    Pipeline { format, ids: found, next: 0, phase: Phase::Idle },
                    Action::Ready,
                ),
                _ => (Pipeline { format, ids, next, phase }, Action::Ignore),
            },
            Phase::Idle => {
                if next < ids.len() {
                    match reading {
                        Reading::Target(Ok(locator)) => (
                            Pipeline { format, ids, next, phase: Phase::Citation },
                            Action::Fetch(locator),
                        ),
                        Reading::Target(Err(e)) => (
                            Pipeline { format, ids, next, phase: Phase::Closed },
                            Action::Fail(e),
                        ),
                        _ => (Pipeline { format, ids, next, phase }, Action::Ignore),
                    }
                } else {
                    match reading {
                        Reading::Pull => (
                            Pipeline { format, ids, next, phase: Phase::Closed },
                            Action::Finish,
                        ),
                        _ => (Pipeline { format, ids, next, phase }, Action::Ignore),
                    }
                }
            },
            Phase::Citation => match reading {
                Reading::Failed => (
                    Pipeline { format, ids, next, phase: Phase::Closed },
                    Action::Fail(Error::RequestError),
                ),
                Reading::Target(Ok(locator)) => (
                    Pipeline { format, ids, next, phase: Phase::Export },
                    Action::Fetch(locator),
                ),
                Reading::Target(Err(e)) => (
                    Pipeline { format, ids, next, phase: Phase::Closed },
                    Action::Fail(e),
                ),
                _ => (Pipeline { format, ids, next, phase }, Action::Ignore),
            },
            Phase::Export => match reading {
                Reading::Failed => (
                    Pipeline { format, ids, next, phase: Phase::Closed },
                    Action::Fail(Error::RequestError),
                ),
                Reading::Text(text) => (
                    Pipeline { format, ids, next: next + 1, phase: Phase::Idle },
                    Action::Yield(text),
                ),
                _ => (Pipeline { format, ids, next, phase }, Action::Ignore),
            },
        }
    }

    /// Takes an event, moves on, and says what to do.
    pub fn step(self, event: Event) -> (next: (Pipeline, Action))
        ensures
            (next.0@, next.1@) == self@.step(event@),
            next.0@.wf(),
            next.1 matches Action::Fetch(locator) ==> locator.wf(),
    {
        let reading = self.read(event);
        self.advance(reading)
    }
}

/// A step keeps a state well formed.
pub proof fn lemma_step_keeps_wf(state: PipelineView, event: EventView)
    requires
        state.wf(),
    ensures
        state.step(event).0.wf(),
{
}

/// A closed lookup stays as it is and answers `Finish` to every event.
pub proof fn lemma_closed_is_final(state: PipelineView, event: EventView)
    requires
        state.phase is Closed,
    ensures
        state.step(event) == (state, ActionView::Finish),
{
}

/// A failure ends the lookup, and so does the end of the references.
pub proof fn lemma_end_closes(state: PipelineView, event: EventView)
    requires
        state.step(event).1 is Fail || state.step(event).1 is Finish,
    ensures
        state.step(event).0.phase is Closed,
{
}

/// Nothing is fetched that was not asked for: a citation page is fetched
/// only when a reference is pulled, and it is the page of the next id; an
/// export is fetched only when its citation page has come.
pub proof fn lemma_fetch_on_demand(state: PipelineView, event: EventView)
    requires
        state.wf(),
        state.step(event).1 is Fetch,
    ensures
        state.phase is Idle || state.phase is Citation,
        state.phase is Idle ==> event is Pull && state.next < state.ids.len() && state.step(
            event,
        ).1 == ActionView::Fetch(cite_text(state.ids[state.next as int])),
        state.phase is Citation ==> event is Body,
        state.step(event).0.ids == state.ids,
        state.step(event).0.next == state.next,
{
}

/// References come in the order of the ids: one is handed out only when the
/// export of the next id has come, it is that export as it came, and the
/// lookup moves on by one id.
pub proof fn lemma_yield_in_order(state: PipelineView, event: EventView)
    requires
        state.step(event).1 is Yield,
    ensures
        state.phase is Export,
        event is Body,
        state.step(event).1 == ActionView::Yield(event->Body_0),
        state.step(event).0 == (PipelineView { next: state.next + 1, phase: Phase::Idle, ..state }),
{
}

/// After the result page has been read, the ids stay what they are, and the
/// count of references handed out never goes back.
pub proof fn lemma_ids_are_kept(state: PipelineView, event: EventView)
    requires
        !(state.phase is Search),
    ensures
        state.step(event).0.ids == state.ids,
        state.step(event).0.format == state.format,
        state.step(event).0.next >= state.next,
        !(state.step(event).0.phase is Search),
{
}

/// Over a whole run, whatever the events: the references come one for each
/// id and in the order of the ids. The first handed out stands at the place
/// where the run began, each next one at the next place, none is left out
/// and none comes twice; as many are handed out as the lookup has moved on,
/// so never more than there are ids. After the result page has been read the
/// ids stay what they are. A run from the beginning starts at the first id.
pub proof fn lemma_run_yields_in_order(state: PipelineView, events: Seq<EventView>)
    requires
        state.wf(),
        state.phase is Search ==> state.next == 0,
    ensures
        state.run(events).wf(),
        state.run(events).next == state.next + state.yields(events).len(),
        state.yields(events).len() <= state.run(events).ids.len(),
        forall|j: int|
            0 <= j < state.yields(events).len() ==> (#[trigger] state.yields(events)[j]).0
                == state.next + j,
        !(state.phase is Search) ==> state.run(events).ids == state.ids,
    decreases events.len(),
{
    if events.len() > 0 {
        let after = state.step(events[0]).0;
        let rest = events.drop_first();
        lemma_step_keeps_wf(state, events[0]);
        lemma_run_yields_in_order(after, rest);
        let later = after.yields(rest);
        match state.step(events[0]).1 {
            ActionView::Yield(text) => {
                lemma_yield_in_order(state, events[0]);
                let all = seq![(state.next, text)] + later;
                assert(state.yields(events) == all);
                assert forall|j: int| 0 <= j < all.len() implies (#[trigger] all[j]).0
                    == state.next + j by {
                    if j > 0 {
                        assert(all[j] == later[j - 1]);
                    }
                }
            },
            _ => {
                assert(state.yields(events) == later);
            },
        }
    }
}

/// A closed lookup asks for nothing and hands nothing out, whatever comes.
pub proof fn lemma_closed_run(state: PipelineView, events: Seq<EventView>)
    requires
        state.phase is Closed,
    ensures
        state.run(events) == state,
        state.yields(events) == Seq::<(nat, Seq<char>)>::empty(),
        state.citations(events) == Seq::<Seq<char>>::empty(),
    decreases events.len(),
{
    if events.len() > 0 {
        lemma_closed_is_final(state, events[0]);
        lemma_closed_run(state, events.drop_first());
    }
}

/// Over a whole run, whatever the events: the citation pages are asked for
/// one for each id and in the order of the ids, each at the locator of its
/// id, beginning with the next id that has not been asked for; and a
/// reference is handed out only for an id whose citation page has been
/// asked for, so the reference at a place is the export that the page of
/// the id at that place led to.
pub proof fn lemma_run_asks_in_order(state: PipelineView, events: Seq<EventView>)
    requires
        state.wf(),
        state.phase is Search ==> state.next == 0,
    ensures
        state.run(events).next <= state.pending() + state.citations(events).len(),
        state.pending() + state.citations(events).len() <= state.run(events).ids.len(),
        forall|m: int|
            0 <= m < state.citations(events).len() ==> #[trigger] state.citations(events)[m]
                == cite_text(state.run(events).ids[state.pending() + m]),
    decreases events.len(),
{
    let asked = state.citations(events);
    let end = state.run(events);
    if events.len() > 0 {
        let after = state.step(events[0]).0;
        let rest = events.drop_first();
        lemma_step_keeps_wf(state, events[0]);
        lemma_run_asks_in_order(after, rest);
        lemma_run_yields_in_order(after, rest);
        let later = after.citations(rest);
        assert(end == after.run(rest));
        if after.phase is Closed {
            lemma_closed_run(after, rest);
        }
        if state.phase is Idle && state.step(events[0]).1 is Fetch {
            lemma_fetch_on_demand(state, events[0]);
            assert(asked == seq![cite_text(state.ids[state.next as int])] + later);
            assert(end.ids == state.ids);
            assert forall|m: int| 0 <= m < asked.len() implies #[trigger] asked[m] == cite_text(
                end.ids[state.pending() + m],
            ) by {
                if m > 0 {
                    assert(asked[m] == later[m - 1]);
                }
            }
        } else {
            assert(asked == later);
            assert(later.len() > 0 ==> after.pending() == state.pending());
            assert forall|m: int| 0 <= m < asked.len() implies #[trigger] asked[m] == cite_text(
                end.ids[state.pending() + m],
            ) by {
                assert(later[m] == cite_text(end.ids[after.pending() + m]));
            }
        }
    }
}

} // verus!
