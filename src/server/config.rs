use vstd::prelude::*;

verus! {

/// The port a server binds by default.
pub const DEFAULT_PORT: u16 = 8080;

/// The largest request body a server accepts by default, in bytes.
pub const DEFAULT_MAX_SIZE: u64 = 1000000000;

/// How a server listens and which guards it puts before the application.
#[derive(Debug, Clone, Copy)]
pub struct ServerConfig {
    pub keep_alive: bool,
    /// The cap on requests in flight; none when absent.
    pub limit_concurrency: Option<usize>,
    /// The IPv4 address to bind, one byte per part.
    pub addr: [u8; 4],
    pub port: u16,
    /// The largest request body accepted, in bytes.
    pub max_size: u64,
}

impl ServerConfig {
    pub fn new(keep_alive: bool, max_concurrency: Option<usize>, addr: [u8; 4], port: u16, max_size: u64) -> (r:
        Self)
        ensures
            r.keep_alive == keep_alive,
            r.limit_concurrency == max_concurrency,
            r.addr == addr,
            r.port == port,
            r.max_size == max_size,
    {
        ServerConfig { keep_alive, limit_concurrency: max_concurrency, addr, port, max_size }
    }
}

impl Default for ServerConfig {
    fn default() -> (r: Self)
        ensures
            r.keep_alive,
            r.limit_concurrency is None,
            r.addr@ == seq![127u8, 0u8, 0u8, 1u8],
            r.port == DEFAULT_PORT,
            r.max_size == DEFAULT_MAX_SIZE,
    {
        let addr: [u8; 4] = [127, 0, 0, 1];
        proof {
            assert(addr@ =~= seq![127u8, 0u8, 0u8, 1u8]);
        }
        ServerConfig::new(true, None, addr, DEFAULT_PORT, DEFAULT_MAX_SIZE)
    }
}

} // verus!
