//! What can go wrong in a lookup.

use vstd::prelude::*;

verus! {

/// The error of the `url` crate's parser. Verus is told only that the type
/// exists: its values are carried, never read.
#[verifier::external_type_specification]
#[verifier::external_body]
pub struct ExParseError(url::ParseError);

/// Query related errors.
#[derive(Debug)]
pub enum Error {
    /// Required argument `query` is empty.
    EmptyQuery,
    /// The text of a locator is no URL.
    UrlParseError(url::ParseError),
    /// A request failed in transport. The transport's own error stays with
    /// whoever made the request.
    RequestError,
    /// A citation page offers no link in the format asked for.
    LinkNotFound,
}

} // verus!
