//! Verified core of a small local HTTP proxy server.
//!
//! The library dispatches a request over three fixed routes, builds the
//! response for each of them, and parses the body of the proxy-fetch route:
//! a percent-encoded URL behind a fixed `url=` prefix, fetched server-side
//! and returned verbatim. The listener loop and the file reads live outside
//! the library and hand it plain values.

pub mod percent;
pub mod proxy;
pub mod response;
pub mod routing;
