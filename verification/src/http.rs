//! Requests as plain values. The library says what is to be sent; sending
//! it, and bringing back what was answered, is left to the caller.

use vstd::prelude::*;

verus! {

#[derive(Clone, Copy, Debug, PartialEq, Eq, Structural)]
pub enum HttpMethod {
    Get,
    Post,
    Put,
}

/// One request. A body, where there is one, is JSON text and is to be sent
/// as `application/json`.
#[derive(Debug, PartialEq, Eq)]
pub struct HttpRequest {
    pub method: HttpMethod,
    pub url: String,
    pub body: Option<String>,
}

/// An `HttpRequest` as a mathematical value.
pub struct HttpRequestView {
    pub method: HttpMethod,
    pub url: Seq<char>,
    pub body: Option<Seq<char>>,
}

impl View for HttpRequest {
    type V = HttpRequestView;

    open spec fn view(&self) -> HttpRequestView {
        HttpRequestView {
            method: self.method,
            url: self.url@,
            body: match self.body {
                Some(text) => Some(text@),
                None => None,
            },
        }
    }
}

} // verus!
