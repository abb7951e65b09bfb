//! Deployment settings of the HTTP service.

use vstd::prelude::*;

verus! {

/// Request quotas of one client.
#[derive(Debug, Clone, Copy, PartialEq, Eq, Structural)]
pub struct RateLimit {
    pub requests_per_minute: u32,
    pub requests_per_hour: u32,
}

/// How the service is deployed.
#[derive(Debug, Clone, Copy, PartialEq, Eq, Structural)]
pub struct ApiConfig {
    pub port: u16,
    pub enable_cors: bool,
    pub rate_limit: Option<RateLimit>,
    /// Seconds a cached answer stays valid.
    pub cache_ttl: u64,
    pub max_tickers_per_request: usize,
}

impl Default for ApiConfig {
    /// Port 8080 with CORS on, 60 requests a minute and 1000 an hour, a
    /// one-minute cache and at most 10 tickers per request.
    fn default() -> (r: Self)
        ensures
            r.port == 8080,
            r.enable_cors,
            r.rate_limit matches Some(l) && l.requests_per_minute == 60 && l.requests_per_hour == 1000,
            r.cache_ttl == 60,
            r.max_tickers_per_request == 10,
    {
        ApiConfig {
            port: 8080,
            enable_cors: true,
            rate_limit: Some(RateLimit { requests_per_minute: 60, requests_per_hour: 1000 }),
            cache_ttl: 60,
            max_tickers_per_request: 10,
        }
    }
}

} // verus!
