//! Dynamic DNS updating for a single record of a Cloudflare zone.
//!
//! The library holds the decisions of one run: how the three configuration
//! values are resolved, how an HTTP response is classified, which zone and
//! record are picked, and when the record is rewritten. The network and the
//! file system stay with the caller, which feeds the library what it read.
pub mod cli;
pub mod error;
pub mod http;
