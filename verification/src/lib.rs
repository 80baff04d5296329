//! A verified core for a minimal single-process HTTP/1.x server.
//!
//! The library covers the pure part of one request lifecycle: parsing the
//! request line out of a raw byte buffer, routing by method and path,
//! computing the static-file candidate list and the CGI script path, and
//! rendering the final response bytes. The surrounding process — sockets,
//! readiness polling, file reads and CGI process spawning — hands this
//! library plain byte values and writes back the bytes it returns.

pub mod bytes;
pub mod response;
pub mod parse;
pub mod handlers;
pub mod laws;
