//! The handler's view of an HTTP exchange: the request method and path it
//! consumes, and the status, content type and body it produces.

use vstd::prelude::*;

verus! {

/// The HTTP methods the handler distinguishes. GET and HEAD requests are
/// served from the static root; every other method (POST, PUT, DELETE, ...)
/// is folded into `Other` and rejected with status 405.
#[derive(Clone, Copy, Debug, PartialEq, Eq, Structural)]
pub enum Method {
    Get,
    Head,
    Other,
}

/// Whether the handler serves files for this method.
pub open spec fn is_served_method(m: Method) -> bool {
    m == Method::Get || m == Method::Head
}

/// The part of an inbound HTTP request the handler consumes: the method and
/// the URI path (slash-delimited, as supplied by the client).
pub struct Request {
    pub method: Method,
    pub path: String,
}

impl Request {
    pub fn new(method: Method, path: String) -> (r: Request)
        ensures
            r.method == method,
            r.path@ == path@,
    {
        Request { method, path }
    }
}

/// Mathematical model of a response: status code, optional content type, and
/// body bytes.
pub struct ResponseModel {
    pub status: int,
    pub content_type: Option<Seq<char>>,
    pub body: Seq<u8>,
}

/// An outbound HTTP response: status code, an optional `Content-Type` header
/// value, and the body bytes (possibly empty).
pub struct Response {
    pub status: u16,
    pub content_type: Option<String>,
    pub body: Vec<u8>,
}

impl View for Response {
    type V = ResponseModel;

    open spec fn view(&self) -> ResponseModel {
        ResponseModel {
            status: self.status as int,
            content_type: match self.content_type {
                Some(ct) => Some(ct@),
                None => None,
            },
            body: self.body@,
        }
    }
}

/// The model of a bodyless response carrying only a status code: no
/// `Content-Type` header, empty body.
pub open spec fn spec_empty_response(status: int) -> ResponseModel {
    ResponseModel { status, content_type: None, body: Seq::empty() }
}

} // verus!
