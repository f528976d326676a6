use http_fs_hello::handler::{respond, HandlerStep, ReadOutcome, StaticFileServer};
use http_fs_hello::http::{Method, Request, Response};

fn server() -> StaticFileServer {
    StaticFileServer::new(String::from("/assets"))
}

fn route(method: Method, path: &str) -> HandlerStep {
    server().handle(&Request::new(method, String::from(path)))
}

/// Routes a request and reads the named file from an in-memory root holding
/// `index.html` and `sample.txt`, as an end-to-end host would.
fn serve_from_sample_root(method: Method, path: &str, sample_text: &str) -> Response {
    match route(method, path) {
        HandlerStep::Done(resp) => resp,
        HandlerStep::ReadFile(file_path) => {
            let outcome = match file_path.as_str() {
                "/assets/index.html" => ReadOutcome::Contents(b"Hello!\n".to_vec()),
                "/assets/sample.txt" => ReadOutcome::Contents(sample_text.as_bytes().to_vec()),
                _ => ReadOutcome::NotFound,
            };
            respond(&file_path, method, outcome)
        }
    }
}

#[test]
fn non_get_head_methods_give_405_empty_body() {
    for path in ["/", "/index.html", "/foo/bar.json", ""] {
        let step = route(Method::Other, path);
        match step {
            HandlerStep::Done(resp) => {
                assert_eq!(resp.status, 405);
                assert_eq!(resp.content_type, None);
                assert!(resp.body.is_empty());
            }
            HandlerStep::ReadFile(p) => panic!("unexpected file read of {p}"),
        }
    }
}

#[test]
fn get_root_resolves_to_index_html() {
    match route(Method::Get, "/") {
        HandlerStep::ReadFile(p) => assert_eq!(p, "/assets/index.html"),
        HandlerStep::Done(_) => panic!("expected a file read"),
    }
}

#[test]
fn get_root_serves_index_html() {
    let resp = serve_from_sample_root(Method::Get, "/", "unused");
    assert_eq!(resp.status, 200);
    assert_eq!(resp.content_type.as_deref(), Some("text/html;charset=utf-8"));
    assert_eq!(resp.body, b"Hello!\n".to_vec());
}

#[test]
fn trailing_slash_path_gets_implicit_index_html() {
    match route(Method::Get, "/docs/") {
        HandlerStep::ReadFile(p) => assert_eq!(p, "/assets/docs/index.html"),
        HandlerStep::Done(_) => panic!("expected a file read"),
    }
}

#[test]
fn plain_file_path_resolves_beneath_root() {
    match route(Method::Head, "/style/site.css") {
        HandlerStep::ReadFile(p) => assert_eq!(p, "/assets/style/site.css"),
        HandlerStep::Done(_) => panic!("expected a file read"),
    }
}

#[test]
fn empty_path_resolves_to_root_with_separator() {
    match route(Method::Get, "") {
        HandlerStep::ReadFile(p) => assert_eq!(p, "/assets/"),
        HandlerStep::Done(_) => panic!("expected a file read"),
    }
}

#[test]
fn head_response_matches_get_with_empty_body() {
    let contents = b"<h1>hi</h1>".to_vec();
    let get = respond(
        "/assets/page.html",
        Method::Get,
        ReadOutcome::Contents(contents.clone()),
    );
    let head = respond(
        "/assets/page.html",
        Method::Head,
        ReadOutcome::Contents(contents.clone()),
    );
    assert_eq!(head.status, get.status);
    assert_eq!(head.content_type, get.content_type);
    assert_eq!(get.body, contents);
    assert!(head.body.is_empty());
}

#[test]
fn head_response_matches_get_on_failures_too() {
    let get = respond("/assets/x", Method::Get, ReadOutcome::NotFound);
    let head = respond("/assets/x", Method::Head, ReadOutcome::NotFound);
    assert_eq!(head.status, get.status);
    assert_eq!(head.content_type, get.content_type);
    assert!(head.body.is_empty());

    let get = respond("/assets/x", Method::Get, ReadOutcome::Failed);
    let head = respond("/assets/x", Method::Head, ReadOutcome::Failed);
    assert_eq!(head.status, get.status);
    assert_eq!(head.content_type, get.content_type);
    assert!(head.body.is_empty());
}

#[test]
fn missing_file_gives_404_empty_body() {
    let resp = respond("/assets/no-such-file.html", Method::Get, ReadOutcome::NotFound);
    assert_eq!(resp.status, 404);
    assert_eq!(resp.content_type, None);
    assert!(resp.body.is_empty());
}

#[test]
fn unreadable_file_gives_500_empty_body() {
    let resp = respond("/assets/forbidden.txt", Method::Get, ReadOutcome::Failed);
    assert_eq!(resp.status, 500);
    assert_eq!(resp.content_type, None);
    assert!(resp.body.is_empty());
}

#[test]
fn get_of_unknown_path_through_sample_root_gives_404() {
    let resp = serve_from_sample_root(Method::Get, "/no-such-file", "unused");
    assert_eq!(resp.status, 404);
    assert_eq!(resp.content_type, None);
    assert!(resp.body.is_empty());
}

#[test]
fn end_to_end_root_and_sample_text() {
    let sample_text = "text content, with a random UUID: 0192f3a1-7c2e-7a30-9f1c-5b8d2a6e4f01";

    let home = serve_from_sample_root(Method::Get, "/", sample_text);
    assert_eq!(home.status, 200);
    assert_eq!(home.body, b"Hello!\n".to_vec());

    let sample = serve_from_sample_root(Method::Get, "/sample.txt", sample_text);
    assert_eq!(sample.status, 200);
    assert_eq!(sample.body, sample_text.as_bytes().to_vec());
}
