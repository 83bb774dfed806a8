//! The client facade: one API token, one transport.
//!
//! This type owns the verified transport.  The endpoint wrappers that
//! dispatch asynchronous requests over it live with the caller, built on
//! [`crate::transport::HttpClient::inner`].

use vstd::prelude::*;

use crate::config::{HttpConfig, RetryConfig, TimeoutConfig};
use crate::error::Error;
use crate::transport::HttpClient;

verus! {

/// Client for the remote model-execution service.
#[derive(Debug, Clone)]
pub struct Client {
    /// The transport every request goes through.
    pub http: HttpClient,
}

impl Client {
    /// A new client with the given API token and default configuration.
    /// Fails with `Auth` on an empty token.
    pub fn new(api_token: String) -> (r: Result<Self, Error>)
        ensures
            api_token@.len() == 0 ==> (r matches Err(e) && (e matches Error::Auth(m) && m@
                == "API token cannot be empty"@)),
            r matches Ok(c) ==> ({
                &&& c.http.api_token == api_token
                &&& c.http.base_url@ == "https://api.replicate.com"@
                &&& c.http.http_config.retry == RetryConfig {
                    max_retries: 3u32,
                    min_delay: 500u64,
                    max_delay: 30_000u64,
                    base_multiplier: 2u32,
                }
            }),
            api_token@.len() > 0 ==> (r matches Err(e) ==> e is Http),
    {
        match HttpClient::new(api_token) {
            Ok(http) => Ok(Client { http }),
            Err(e) => Err(e),
        }
    }

    /// A new client pointed at a custom base URL.
    pub fn with_base_url(api_token: String, base_url: String) -> (r: Result<Self, Error>)
        ensures
            api_token@.len() == 0 ==> (r matches Err(e) && (e matches Error::Auth(m) && m@
                == "API token cannot be empty"@)),
            r matches Ok(c) ==> c.http.api_token == api_token && c.http.base_url == base_url,
            api_token@.len() > 0 ==> (r matches Err(e) ==> e is Http),
    {
        match HttpClient::with_base_url(api_token, base_url) {
            Ok(http) => Ok(Client { http }),
            Err(e) => Err(e),
        }
    }

    /// A new client with a custom HTTP configuration.
    pub fn with_http_config(api_token: String, http_config: HttpConfig) -> (r: Result<Self, Error>)
        requires
            http_config.retry.wf(),
        ensures
            api_token@.len() == 0 ==> (r matches Err(e) && (e matches Error::Auth(m) && m@
                == "API token cannot be empty"@)),
            r matches Ok(c) ==> c.http.api_token == api_token && c.http.http_config == http_config,
            api_token@.len() > 0 ==> (r matches Err(e) ==> e is Http),
    {
        match HttpClient::with_http_config(api_token, http_config) {
            Ok(http) => Ok(Client { http }),
            Err(e) => Err(e),
        }
    }

    /// The underlying transport.
    pub fn http_client(&self) -> (r: &HttpClient)
        ensures
            *r == self.http,
    {
        &self.http
    }

    /// Mutable access to the underlying transport, for reconfiguring it
    /// after creation.
    pub fn http_client_mut(&mut self) -> (r: &mut HttpClient)
        ensures
            *r == old(self).http,
            final(self).http == *final(r),
    {
        &mut self.http
    }

    /// Replace the transport's retry policy; a convenience for
    /// [`HttpClient::configure_retries`].
    pub fn configure_retries(&mut self, max_retries: u32, min_delay: u64, max_delay: u64) -> (r:
        Result<(), Error>)
        requires
            min_delay <= max_delay,
        ensures
            r is Ok ==> ({
                &&& final(self).http.http_config.retry == RetryConfig {
                    max_retries,
                    min_delay,
                    max_delay,
                    base_multiplier: 2u32,
                }
                &&& final(self).http.http_config.timeout == old(self).http.http_config.timeout
                &&& final(self).http.base_url == old(self).http.base_url
                &&& final(self).http.api_token == old(self).http.api_token
            }),
            r matches Err(e) ==> e is Http && *final(self) == *old(self),
    {
        self.http.configure_retries(max_retries, min_delay, max_delay)
    }

    /// Replace the transport's timeouts; a convenience for
    /// [`HttpClient::configure_timeouts`].
    pub fn configure_timeouts(
        &mut self,
        connect_timeout: Option<u64>,
        request_timeout: Option<u64>,
    ) -> (r: Result<(), Error>)
        requires
            old(self).http.http_config.retry.wf(),
        ensures
            r is Ok ==> ({
                &&& final(self).http.http_config.timeout == TimeoutConfig {
                    connect_timeout,
                    request_timeout,
                }
                &&& final(self).http.http_config.retry == old(self).http.http_config.retry
                &&& final(self).http.base_url == old(self).http.base_url
                &&& final(self).http.api_token == old(self).http.api_token
            }),
            r matches Err(e) ==> e is Http && *final(self) == *old(self),
    {
        self.http.configure_timeouts(connect_timeout, request_timeout)
    }

    /// The current timeout configuration.
    pub fn timeout_config(&self) -> (r: &TimeoutConfig)
        ensures
            *r == self.http.http_config.timeout,
    {
        self.http.timeout_config()
    }

    /// The current HTTP configuration.
    pub fn http_config(&self) -> (r: &HttpConfig)
        ensures
            *r == self.http.http_config,
    {
        self.http.http_config()
    }
}

} // verus!
