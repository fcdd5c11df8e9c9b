//! The request that a caller describes and the response that is handed back.

use crate::headers::Headers;
use crate::method::HttpMethod;
use vstd::prelude::*;
use vstd::std_specs::cmp::PartialEqSpecImpl;

verus! {

/// A request as the caller describes it. An absent body is not an empty body,
/// and absent headers are not an empty mapping.
#[derive(Debug)]
pub struct HttpRequest {
    pub method: HttpMethod,
    pub url: String,
    pub body: Option<String>,
    pub headers: Option<Headers>,
}

/// What a request says.
pub struct RequestView {
    pub method: HttpMethod,
    pub url: Seq<char>,
    pub body: Option<Seq<char>>,
    pub headers: Option<Map<Seq<char>, Seq<char>>>,
}

impl View for HttpRequest {
    type V = RequestView;

    open spec fn view(&self) -> RequestView {
        RequestView {
            method: self.method,
            url: self.url@,
            body: match self.body {
                Some(body) => Some(body@),
                None => None,
            },
            headers: match self.headers {
                Some(headers) => Some(headers@),
                None => None,
            },
        }
    }
}

/// The outcome of a request that the transport carried through.
#[derive(Debug)]
pub struct HttpResponse {
    pub status_code: u16,
    pub body: String,
    pub headers: Headers,
}

/// What a response says.
pub struct ResponseView {
    pub status_code: u16,
    pub body: Seq<char>,
    pub headers: Map<Seq<char>, Seq<char>>,
}

impl View for HttpResponse {
    type V = ResponseView;

    open spec fn view(&self) -> ResponseView {
        ResponseView { status_code: self.status_code, body: self.body@, headers: self.headers@ }
    }
}

/// Whether two optional texts are both absent or both present and equal.
pub fn same_text(a: &Option<String>, b: &Option<String>) -> (same: bool)
    ensures
        same == match (a, b) {
            (Some(x), Some(y)) => x@ == y@,
            (None, None) => true,
            _ => false,
        },
{
    match (a, b) {
        (Some(x), Some(y)) => *x == *y,
        (None, None) => true,
        _ => false,
    }
}

/// A copy of an optional text.
pub fn copy_text(text: &Option<String>) -> (copy: Option<String>)
    ensures
        copy == *text,
{
    match text {
        Some(text) => Some(text.clone()),
        None => None,
    }
}

impl Clone for HttpRequest {
    fn clone(&self) -> (copy: HttpRequest)
        ensures
            copy@ == self@,
    {
        HttpRequest {
            method: self.method,
            url: self.url.clone(),
            body: copy_text(&self.body),
            headers: match &self.headers {
                Some(headers) => Some(headers.clone()),
                None => None,
            },
        }
    }
}

impl Clone for HttpResponse {
    fn clone(&self) -> (copy: HttpResponse)
        ensures
            copy@ == self@,
    {
        HttpResponse {
            status_code: self.status_code,
            body: self.body.clone(),
            headers: self.headers.clone(),
        }
    }
}

impl HttpRequest {
    /// Whether two requests say the same, field for field.
    pub fn same_as(&self, other: &HttpRequest) -> (same: bool)
        ensures
            same == (self@ == other@),
    {
        let headers = match (&self.headers, &other.headers) {
            (Some(x), Some(y)) => x.same_fields(y),
            (None, None) => true,
            _ => false,
        };
        self.method == other.method && self.url == other.url && same_text(&self.body, &other.body)
            && headers
    }
}

impl PartialEq for HttpRequest {
    fn eq(&self, other: &HttpRequest) -> (same: bool) {
        self.same_as(other)
    }
}

impl PartialEqSpecImpl for HttpRequest {
    open spec fn obeys_eq_spec() -> bool {
        true
    }

    open spec fn eq_spec(&self, other: &HttpRequest) -> bool {
        self@ == other@
    }
}

impl HttpResponse {
    /// Whether two responses say the same, field for field.
    pub fn same_as(&self, other: &HttpResponse) -> (same: bool)
        ensures
            same == (self@ == other@),
    {
        self.status_code == other.status_code && self.body == other.body
            && self.headers.same_fields(&other.headers)
    }
}

impl PartialEq for HttpResponse {
    fn eq(&self, other: &HttpResponse) -> (same: bool) {
        self.same_as(other)
    }
}

impl PartialEqSpecImpl for HttpResponse {
    open spec fn obeys_eq_spec() -> bool {
        true
    }

    open spec fn eq_spec(&self, other: &HttpResponse) -> bool {
        self@ == other@
    }
}

} // verus!
