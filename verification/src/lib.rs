//! A minimal static-content HTTP responder, verified with Verus.
//!
//! The crate turns one raw HTTP request into one raw HTTP response: it
//! parses the request line, percent-decodes the target path, maps the path
//! to a local file-system path, renders a directory listing or picks a
//! content type for a file, and frames the final response bytes.  All of
//! that logic is verified; the unverified surroundings (sockets, the
//! file-system queries) live outside this crate and hand in plain values.

pub mod listing;
pub mod mime;
pub mod percent;
pub mod request;
pub mod response;
pub mod text;
