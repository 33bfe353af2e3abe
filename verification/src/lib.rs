//! Typed HTMX request and response headers.
//!
//! Each header type reads itself from the values of its header and writes
//! itself as one header value. Request headers report to a per-request ledger
//! that they were read, and from the ledger follow the `Vary` lines of the
//! response.
//!
//! - [`header`]: header values and errors.
//! - [`request`]: the headers that htmx sends.
//! - [`response`]: the headers that a server answers with.
//! - [`auto_vary`]: the ledger and the `Vary` lines.
//! - [`util`]: texts, URIs and JSON documents in header values.

pub mod auto_vary;
pub mod header;
pub mod request;
pub mod response;
pub mod util;
