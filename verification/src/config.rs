//! The immutable configuration a server process is started with.

use vstd::prelude::*;

verus! {

/// The listening port used when none is configured.
pub const DEFAULT_PORT: u16 = 8080;

/// The fixed per-request deadline, in seconds.
pub const TIMEOUT_SECS: u64 = 10;

/// Everything the request pipeline and the lifecycle need to know,
/// resolved once at startup and never mutated afterwards.
pub struct Config {
    /// Root directory that files are served from.
    pub root: String,
    /// When set, a request that matches no file is answered with the
    /// fallback file instead of a 404.
    pub spa: bool,
    /// Whether brotli may be offered in compression negotiation.
    pub brotli: bool,
    /// Whether gzip may be offered in compression negotiation.
    pub gzip: bool,
    /// Listening port.
    pub port: u16,
    /// Per-request deadline in seconds.
    pub timeout_secs: u64,
}

/// The name of the fallback file served on a miss when SPA mode is on,
/// always directly under the root.
pub fn fallback_file_name() -> (r: &'static str)
    ensures
        r@ == "index.html"@,
{
    "index.html"
}

impl Config {
    /// Builds a configuration from already-resolved inputs; the timeout is
    /// always the fixed default.
    pub fn new(root: String, spa: bool, brotli: bool, gzip: bool, port: u16) -> (c: Config)
        ensures
            c.root@ == root@,
            c.spa == spa,
            c.brotli == brotli,
            c.gzip == gzip,
            c.port == port,
            c.timeout_secs == TIMEOUT_SECS,
    {
        Config { root, spa, brotli, gzip, port, timeout_secs: TIMEOUT_SECS }
    }
}

} // verus!
