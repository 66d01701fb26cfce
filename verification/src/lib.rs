//! A verified core for a static-asset HTTP server.
//!
//! The library models the per-request pipeline — path resolution under a
//! root directory, cache-control injection, compression negotiation, CORS
//! policy and a timeout guard — together with the server lifecycle state
//! machine. The surrounding process (sockets, filesystem reads, signals)
//! lives outside the library and feeds it plain values.

pub mod ascii;
pub mod config;
pub mod http;
pub mod path;
pub mod accept;
pub mod mime;
pub mod lifecycle;
pub mod pipeline;

pub use config::Config;
