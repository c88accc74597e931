//! Requests over the network.
use vstd::prelude::*;

use crate::meta::{Meta, Pair};

verus! {

/// A request.
#[derive(Debug)]
pub struct Request {
    pub method: String,
    pub url: String,
    pub headers: Meta,
    pub body: Option<Vec<u8>>,
}

/// What a request holds.
pub struct RequestView {
    pub method: Seq<char>,
    pub url: Seq<char>,
    pub headers: Map<Seq<char>, Seq<char>>,
    pub body: Option<Seq<u8>>,
}

impl View for Request {
    type V = RequestView;

    open spec fn view(&self) -> RequestView {
        RequestView {
            method: self.method@,
            url: self.url@,
            headers: self.headers@,
            body: match self.body {
                Some(body) => Some(body@),
                None => None,
            },
        }
    }
}

/// A header and its values.
#[derive(Debug)]
pub struct Header {
    pub name: String,
    pub values: Vec<String>,
}

impl Header {
    /// The header with its first value, which is empty where it has none.
    pub open spec fn first(self) -> Pair {
        (
            self.name@,
            if self.values@.len() > 0 {
                self.values@[0]@
            } else {
                Seq::empty()
            },
        )
    }
}

/// A response.
#[derive(Debug)]
pub struct Response {
    pub status_code: u16,
    pub headers: Vec<Header>,
    pub body: Vec<u8>,
}

/// Why a request failed, by the text of the failure.
#[derive(Debug)]
pub struct NetworkError {
    pub text: String,
}

/// A network that a platform provides.
pub trait NetworkService: Send + Sync {
    /// Whether the request can come back with the outcome.
    open spec fn may_answer(
        &self,
        request: RequestView,
        outcome: Result<Response, NetworkError>,
    ) -> bool {
        true
    }

    /// Sends a request.
    fn do_request(&self, request: &Request) -> (r: Result<Response, NetworkError>)
        ensures
            self.may_answer(request@, r),
    ;
}

} // verus!
