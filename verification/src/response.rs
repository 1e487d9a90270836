//! The shape of an HTTP response as the handlers decide it.

use vstd::prelude::*;
use vstd::string::StringExecFns;
use crate::error::{Error, STATUS_OK, STATUS_SEE_OTHER};

verus! {

/// What a handler answers: a status, an optional `Location` header and a body.
#[derive(Debug, PartialEq, Eq)]
pub struct Response {
    pub status: u16,
    pub location: Option<String>,
    pub body: String,
}

/// The mathematical value of a `Response`.
pub struct ResponseView {
    pub status: int,
    pub location: Option<Seq<char>>,
    pub body: Seq<char>,
}

impl View for Response {
    type V = ResponseView;

    open spec fn view(&self) -> ResponseView {
        ResponseView {
            status: self.status as int,
            location: match self.location {
                Some(target) => Some(target@),
                None => None,
            },
            body: self.body@,
        }
    }
}

impl ResponseView {
    /// 200 with the rendered page as body.
    pub open spec fn page(body: Seq<char>) -> ResponseView {
        ResponseView { status: STATUS_OK as int, location: None, body }
    }

    /// 303 See Other to `target`, without a body.
    pub open spec fn redirect(target: Seq<char>) -> ResponseView {
        ResponseView { status: STATUS_SEE_OTHER as int, location: Some(target), body: Seq::empty() }
    }

    /// A bare status, without a body.
    pub open spec fn empty(status: int) -> ResponseView {
        ResponseView { status, location: None, body: Seq::empty() }
    }

    /// The status of `error`, without a body: no detail reaches the client.
    pub open spec fn failure(error: Error) -> ResponseView {
        ResponseView::empty(error.status_code() as int)
    }
}

impl Response {
    /// Answers 200 with `body`.
    pub fn page(body: String) -> (response: Response)
        ensures
            response@ == ResponseView::page(body@),
    {
        Response { status: STATUS_OK, location: None, body }
    }

    /// Answers 303 See Other with `Location: target`.
    pub fn redirect(target: &str) -> (response: Response)
        ensures
            response@ == ResponseView::redirect(target@),
    {
        Response {
            status: STATUS_SEE_OTHER,
            location: Some(String::from_str(target)),
            body: String::new(),
        }
    }

    /// Answers with a bare status and an empty body.
    pub fn empty(status: u16) -> (response: Response)
        ensures
            response@ == ResponseView::empty(status as int),
    {
        Response { status, location: None, body: String::new() }
    }

    /// Answers with the status of `error` and an empty body.
    pub fn failure(error: Error) -> (response: Response)
        ensures
            response@ == ResponseView::failure(error),
    {
        Response::empty(error.status())
    }
}

} // verus!
