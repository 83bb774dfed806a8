//! Transport configuration: retry bounds and timeouts.
//!
//! All durations are in milliseconds.

use vstd::prelude::*;

verus! {

/// Configuration for retry behavior.  Delays are in milliseconds.
#[derive(Debug, Clone, Copy, PartialEq, Eq, Structural)]
pub struct RetryConfig {
    /// Maximum number of additional attempts after the first.
    pub max_retries: u32,
    /// Minimum delay between retries, in milliseconds.
    pub min_delay: u64,
    /// Maximum delay between retries, in milliseconds.
    pub max_delay: u64,
    /// Base multiplier for the exponential backoff.
    pub base_multiplier: u32,
}

impl RetryConfig {
    /// The delay bounds are ordered.
    pub open spec fn wf(self) -> bool {
        self.min_delay <= self.max_delay
    }
}

impl Default for RetryConfig {
    /// Three retries between half a second and thirty seconds, doubling.
    fn default() -> (c: Self)
        ensures
            c == (RetryConfig {
                max_retries: 3u32,
                min_delay: 500u64,
                max_delay: 30_000u64,
                base_multiplier: 2u32,
            }),
            c.wf(),
    {
        RetryConfig { max_retries: 3, min_delay: 500, max_delay: 30_000, base_multiplier: 2 }
    }
}

/// Configuration for HTTP timeouts, in milliseconds.  `None` means that the
/// corresponding timeout is unbounded, which risks indefinite hangs.
#[derive(Debug, Clone, Copy)]
pub struct TimeoutConfig {
    /// Maximum time to wait for connection establishment.
    pub connect_timeout: Option<u64>,
    /// Maximum time to wait for a complete request.
    pub request_timeout: Option<u64>,
}

impl Default for TimeoutConfig {
    /// Thirty seconds to connect, one minute for the whole request.
    fn default() -> (c: Self)
        ensures
            c.connect_timeout == Some(30_000u64),
            c.request_timeout == Some(60_000u64),
    {
        TimeoutConfig { connect_timeout: Some(30_000), request_timeout: Some(60_000) }
    }
}

/// Combined HTTP client configuration.
#[derive(Debug, Clone, Copy)]
pub struct HttpConfig {
    pub retry: RetryConfig,
    pub timeout: TimeoutConfig,
}

impl HttpConfig {
    pub open spec fn wf(self) -> bool {
        self.retry.wf()
    }
}

impl Default for HttpConfig {
    fn default() -> (c: Self)
        ensures
            c.retry == (RetryConfig {
                max_retries: 3u32,
                min_delay: 500u64,
                max_delay: 30_000u64,
                base_multiplier: 2u32,
            }),
            c.timeout.connect_timeout == Some(30_000u64),
            c.timeout.request_timeout == Some(60_000u64),
            c.wf(),
    {
        HttpConfig { retry: Default::default(), timeout: Default::default() }
    }
}

} // verus!
