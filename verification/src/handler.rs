//! The request handler: validates the method, resolves the request path to a
//! file path beneath the static root, and maps the outcome of the file read
//! to the response.
//!
//! The host drives one request through two steps: `handle` either rejects the
//! request outright or names the file to read; after reading (or failing to
//! read) that file, the host hands the outcome to `respond`, which builds the
//! response.

use vstd::prelude::*;
use vstd::string::StrSliceExecFns;
use vstd::string::StringExecFns;

use crate::http::{is_served_method, spec_empty_response, Method, Request, Response, ResponseModel};
use crate::mime::{get_mime_type, spec_mime_type};

verus! {

/// The request path with the implicit document name appended when the path
/// names a directory (ends in `/`).
pub open spec fn spec_effective_path(p: Seq<char>) -> Seq<char> {
    if p.len() > 0 && p[p.len() - 1] == '/' {
        p + "index.html"@
    } else {
        p
    }
}

/// The path with a single leading `/` removed, if present.
pub open spec fn spec_strip_one_leading_slash(p: Seq<char>) -> Seq<char> {
    if p.len() > 0 && p[0] == '/' {
        p.subrange(1, p.len() as int)
    } else {
        p
    }
}

/// The file path a request path resolves to: the effective path's relative
/// suffix joined beneath the static root.
pub open spec fn spec_resolved_path(root: Seq<char>, p: Seq<char>) -> Seq<char> {
    root + "/"@ + spec_strip_one_leading_slash(spec_effective_path(p))
}

fn effective_path(path: &str) -> (r: String)
    ensures
        r@ == spec_effective_path(path@),
{
    let n = path.unicode_len();
    let mut r = String::from_str(path);
    if n > 0 && path.get_char(n - 1) == '/' {
        r.append("index.html");
    }
    r
}

fn strip_one_leading_slash<'a>(path: &'a str) -> (r: &'a str)
    ensures
        r@ == spec_strip_one_leading_slash(path@),
{
    let n = path.unicode_len();
    if n > 0 && path.get_char(0) == '/' {
        path.substring_char(1, n)
    } else {
        path
    }
}

/// Resolves a request path to the file path to serve: maps a trailing-slash
/// path to the implicit `index.html`, strips one leading `/`, and joins the
/// rest beneath `root`.
pub fn resolve_path(root: &str, path: &str) -> (r: String)
    ensures
        r@ == spec_resolved_path(root@, path@),
{
    let effective = effective_path(path);
    let suffix = strip_one_leading_slash(effective.as_str());
    let mut r = String::from_str(root);
    r.append("/");
    r.append(suffix);
    r
}

/// What `handle` decides for a request: either the response is already
/// settled (an unsupported method), or the file at the resolved path must be
/// read next.
pub enum HandlerStep {
    Done(Response),
    ReadFile(String),
}

/// Mathematical model of a `HandlerStep`.
pub enum StepModel {
    Done(ResponseModel),
    ReadFile(Seq<char>),
}

impl View for HandlerStep {
    type V = StepModel;

    open spec fn view(&self) -> StepModel {
        match self {
            HandlerStep::Done(resp) => StepModel::Done(resp@),
            HandlerStep::ReadFile(p) => StepModel::ReadFile(p@),
        }
    }
}

/// What `handle` decides: a request with a method other than GET or HEAD is
/// answered with status 405 and an empty body; any other request resolves to
/// the file path to read.
pub open spec fn spec_handle(root: Seq<char>, m: Method, p: Seq<char>) -> StepModel {
    if is_served_method(m) {
        StepModel::ReadFile(spec_resolved_path(root, p))
    } else {
        StepModel::Done(spec_empty_response(405))
    }
}

/// The outcome of reading the resolved file, as the host reports it: the
/// file's bytes, or the reason the read failed. Every failure other than the
/// file not existing (permission denied, I/O error, is-a-directory, ...) is
/// `Failed`.
pub enum ReadOutcome {
    Contents(Vec<u8>),
    NotFound,
    Failed,
}

/// The response built from the outcome of the file read: 200 with the
/// inferred content type and the file's bytes (an empty body for HEAD), 404
/// when the file does not exist, 500 for any other read failure.
pub open spec fn spec_respond(path: Seq<char>, m: Method, read: ReadOutcome) -> ResponseModel {
    match read {
        ReadOutcome::Contents(contents) => ResponseModel {
            status: 200,
            content_type: Some(spec_mime_type(path)),
            body: if m == Method::Head {
                Seq::empty()
            } else {
                contents@
            },
        },
        ReadOutcome::NotFound => spec_empty_response(404),
        ReadOutcome::Failed => spec_empty_response(500),
    }
}

/// The handler, configured with the static root directory all served files
/// live beneath.
pub struct StaticFileServer {
    pub root: String,
}

impl StaticFileServer {
    pub fn new(root: String) -> (s: StaticFileServer)
        ensures
            s.root@ == root@,
    {
        StaticFileServer { root }
    }

    /// Request Validator/Router: rejects any method other than GET or HEAD
    /// with status 405, and otherwise resolves the request path to the file
    /// path to read.
    pub fn handle(&self, req: &Request) -> (step: HandlerStep)
        ensures
            step@ == spec_handle(self.root@, req.method, req.path@),
    {
        match req.method {
            Method::Get | Method::Head => HandlerStep::ReadFile(
                resolve_path(self.root.as_str(), req.path.as_str()),
            ),
            Method::Other => HandlerStep::Done(
                Response { status: 405, content_type: None, body: Vec::new() },
            ),
        }
    }
}

/// File Responder: builds the response for a GET or HEAD request from the
/// resolved file path and the outcome of reading it.
pub fn respond(path: &str, method: Method, read: ReadOutcome) -> (resp: Response)
    ensures
        resp@ == spec_respond(path@, method, read),
{
    match read {
        ReadOutcome::Contents(contents) => {
            let mime = get_mime_type(path);
            let body: Vec<u8> = if method == Method::Head {
                Vec::new()
            } else {
                contents
            };
            Response {
                status: 200,
                content_type: Some(String::from_str(mime)),
                body,
            }
        },
        ReadOutcome::NotFound => Response { status: 404, content_type: None, body: Vec::new() },
        ReadOutcome::Failed => Response { status: 500, content_type: None, body: Vec::new() },
    }
}

/// A request whose method is neither GET nor HEAD is answered with status
/// 405 and an empty body, whatever the path and whatever the static root.
pub proof fn lemma_other_method_rejected(root: Seq<char>, m: Method, p: Seq<char>)
    requires
        m != Method::Get,
        m != Method::Head,
    ensures
        spec_handle(root, m, p) == StepModel::Done(spec_empty_response(405)),
{
}

/// A HEAD request resolves to the same file path as the corresponding GET,
/// and is answered with the same status and content type, but with an empty
/// body, whatever the outcome of the file read.
pub proof fn lemma_head_matches_get(root: Seq<char>, p: Seq<char>, read: ReadOutcome)
    ensures
        spec_handle(root, Method::Head, p) == spec_handle(root, Method::Get, p),
        spec_respond(p, Method::Head, read).status == spec_respond(p, Method::Get, read).status,
        spec_respond(p, Method::Head, read).content_type == spec_respond(
            p,
            Method::Get,
            read,
        ).content_type,
        spec_respond(p, Method::Head, read).body == Seq::<u8>::empty(),
{
}

/// A request for a path whose file does not exist is answered with status
/// 404 and an empty body.
pub proof fn lemma_missing_file_not_found(p: Seq<char>, m: Method)
    ensures
        spec_respond(p, m, ReadOutcome::NotFound) == spec_empty_response(404),
{
}

/// A request for a path whose file exists but cannot be read is answered
/// with status 500 and an empty body.
pub proof fn lemma_unreadable_file_server_error(p: Seq<char>, m: Method)
    ensures
        spec_respond(p, m, ReadOutcome::Failed) == spec_empty_response(500),
{
}

} // verus!
