//! Builds the requests of a Google Scholar reference lookup and reads its
//! answers: the locator of a search, the citation ids on a result page, the
//! export link on a citation page, and the order in which the pages of one
//! lookup are fetched.
//!
//! The library performs no input or output. Whoever drives it fetches the
//! locators it hands out and gives the text of each answer back.

pub mod encoding;
pub mod error;
pub mod locator;
pub mod pipeline;
pub mod query;
pub mod scrape;

pub use error::Error;
pub use locator::{get_cite_url, get_search_url, Locator};
pub use pipeline::{default_headers, Action, Event, Phase, Pipeline, Reading};
pub use query::{QueryArgs, SortBy};
pub use scrape::{
    choose_link, present_values, scrape_citation_ids, scrape_citation_link,
    ExportLink, ReferenceFormat,
};
