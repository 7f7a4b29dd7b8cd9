//! Request targets: a path and an optional query.

use crate::text::{clone_opt, opt_chars};
use vstd::prelude::*;

verus! {

/// The path and the query of a request target.
pub struct RequestTarget {
    pub path: String,
    pub query: Option<String>,
}

impl View for RequestTarget {
    type V = (Seq<char>, Option<Seq<char>>);

    open spec fn view(&self) -> (Seq<char>, Option<Seq<char>>) {
        (self.path@, opt_chars(self.query))
    }
}

impl Clone for RequestTarget {
    fn clone(&self) -> (copy: RequestTarget)
        ensures
            copy@ == self@,
    {
        RequestTarget { path: self.path.clone(), query: clone_opt(&self.query) }
    }
}

/// What `axum::http::Uri` makes of a text: its path and query, or the text of
/// the error.
pub uninterp spec fn parsed_uri(text: Seq<char>) -> Result<
    (Seq<char>, Option<Seq<char>>),
    Seq<char>,
>;

/// `str::parse` into `axum::http::Uri`, with `path` and `query` taken out of the
/// result. Both are functions of the text; an error is given as its text.
#[verifier::external_body]
pub(crate) fn parse_uri(text: &str) -> (parsed: Result<RequestTarget, String>)
    ensures
        match parsed {
            Ok(target) => parsed_uri(text@) == Ok::<
                (Seq<char>, Option<Seq<char>>),
                Seq<char>,
            >(target@),
            Err(error) => parsed_uri(text@) == Err::<
                (Seq<char>, Option<Seq<char>>),
                Seq<char>,
            >(error@),
        },
{
    match text.parse::<axum::http::Uri>() {
        Ok(uri) => Ok(
            RequestTarget { path: uri.path().to_owned(), query: uri.query().map(str::to_owned) },
        ),
        Err(error) => Err(error.to_string()),
    }
}

} // verus!
