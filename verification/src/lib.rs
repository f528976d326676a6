//! A minimal static-file HTTP request handler: method validation,
//! URL-to-filesystem path resolution, content-type inference, and
//! error-to-status-code mapping.
//!
//! The handler itself is pure: the host that accepts requests and reads
//! files hands it the request and, later, the outcome of the file read, and
//! gets the response back.

pub mod handler;
pub mod http;
pub mod mime;

pub use handler::{respond, HandlerStep, ReadOutcome, StaticFileServer};
pub use http::{Method, Request, Response};
pub use mime::get_mime_type;
