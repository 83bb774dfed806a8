//! The HTTP transport: construction and reconfiguration of the
//! retry-decorated client, URL assembly, and the classification of
//! responses.
//!
//! The sends themselves are asynchronous and happen outside this crate,
//! through the client handle [`HttpClient::inner`] exposes.  Everything the
//! transport decides — token validation, which configuration a rebuilt
//! client carries, how a path joins the base URL, what a non-2xx response
//! means — is verified here.  Multipart uploads deliberately bypass the
//! retry-decorated client: a partially streamed multipart body cannot be
//! safely replayed, so those requests are not retried and callers needing
//! resilience for uploads must retry at a higher level.

use vstd::prelude::*;

use crate::backoff::{jittered_delay, RetryPlan};
use crate::config::{HttpConfig, RetryConfig, TimeoutConfig};
use crate::error::{auth_status, status_error_matches, status_to_error, Error};

verus! {

#[verifier::external_type_specification]
#[verifier::external_body]
pub struct ExReqwestClientBuilder(reqwest::ClientBuilder);

#[verifier::external_type_specification]
#[verifier::external_body]
pub struct ExExponentialBackoff(retry_policies::policies::ExponentialBackoff);

#[verifier::external_type_specification]
#[verifier::external_body]
pub struct ExClientWithMiddleware(reqwest_middleware::ClientWithMiddleware);

/// Relies on reqwest_middleware's derived Clone: cloning yields a handle to
/// the same underlying client; nothing further is assumed of it.
pub assume_specification[ <reqwest_middleware::ClientWithMiddleware as core::clone::Clone>::clone ](
    c: &reqwest_middleware::ClientWithMiddleware,
) -> reqwest_middleware::ClientWithMiddleware;

/// Relies on reqwest::Client::builder and ClientBuilder::user_agent: a
/// fresh builder whose clients send the given user agent.
#[verifier::external_body]
fn client_builder_with_user_agent(user_agent: &str) -> reqwest::ClientBuilder {
    reqwest::Client::builder().user_agent(user_agent)
}

/// Relies on reqwest::ClientBuilder::connect_timeout, taking the timeout in
/// milliseconds.
#[verifier::external_body]
fn builder_connect_timeout(b: reqwest::ClientBuilder, ms: u64) -> reqwest::ClientBuilder {
    b.connect_timeout(core::time::Duration::from_millis(ms))
}

/// Relies on reqwest::ClientBuilder::timeout (the whole-request timeout),
/// taking the timeout in milliseconds.
#[verifier::external_body]
fn builder_request_timeout(b: reqwest::ClientBuilder, ms: u64) -> reqwest::ClientBuilder {
    b.timeout(core::time::Duration::from_millis(ms))
}

/// Relies on reqwest::ClientBuilder::build, reqwest_middleware's
/// ClientBuilder and reqwest_retry's RetryTransientMiddleware: the built
/// client with the retry policy layered on; a build failure is carried as
/// its display text.
#[verifier::external_body]
fn build_with_retry_middleware(
    b: reqwest::ClientBuilder,
    policy: retry_policies::policies::ExponentialBackoff,
) -> Result<reqwest_middleware::ClientWithMiddleware, String> {
    match b.build() {
        Ok(c) => Ok(
            reqwest_middleware::ClientBuilder::new(c).with(
                reqwest_retry::RetryTransientMiddleware::new_with_policy(policy),
            ).build(),
        ),
        Err(e) => Err(format!("{}", e)),
    }
}

/// Relies on retry_policies' ExponentialBackoffBuilder: bounded jitter,
/// the given base and bounds in milliseconds.  Its `retry_bounds` panics on
/// unordered bounds, hence the precondition.
#[verifier::external_body]
fn backoff_retry_policy(retry: &RetryConfig) -> retry_policies::policies::ExponentialBackoff
    requires
        retry.wf(),
{
    retry_policies::policies::ExponentialBackoff::builder().retry_bounds(
        core::time::Duration::from_millis(retry.min_delay),
        core::time::Duration::from_millis(retry.max_delay),
    ).jitter(retry_policies::Jitter::Bounded).base(retry.base_multiplier).build_with_max_retries(
        retry.max_retries,
    )
}

/// What parsing an error body gives: nothing when the body is not JSON,
/// `Some(None)` when it is JSON without a string `detail` field, and the
/// detail message otherwise.  A pure function of the body text.
pub uninterp spec fn json_error_detail_of(body: Seq<char>) -> Option<Option<Seq<char>>>;

/// Relies on serde_json::from_str, Value::get and Value::as_str: the parse
/// depends on the body text alone.
#[verifier::external_body]
fn json_error_detail(body: &String) -> (r: Option<Option<String>>)
    ensures
        match r {
            None => json_error_detail_of(body@) is None,
            Some(d) => match d {
                None => json_error_detail_of(body@) == Some(Option::<Seq<char>>::None),
                Some(m) => json_error_detail_of(body@) == Some(Some(m@)),
            },
        },
{
    match serde_json::from_str::<serde_json::Value>(body) {
        Ok(v) => Some(v.get("detail").and_then(|d| d.as_str()).map(|s| s.to_string())),
        Err(_) => None,
    }
}

/// Build a retry-decorated client from the configuration: user agent,
/// optional connect and request timeouts, and the exponential backoff
/// policy.  Only the underlying TLS/connector setup can fail; that failure
/// surfaces as `Http`.
fn build_client_with_config(http_config: &HttpConfig) -> (r: Result<
    reqwest_middleware::ClientWithMiddleware,
    Error,
>)
    requires
        http_config.retry.wf(),
    ensures
        r matches Err(e) ==> e is Http,
{
    let policy = backoff_retry_policy(&http_config.retry);
    let mut builder = client_builder_with_user_agent("replicate-rs/0.1.0");
    if let Some(connect_ms) = http_config.timeout.connect_timeout {
        builder = builder_connect_timeout(builder, connect_ms);
    }
    if let Some(request_ms) = http_config.timeout.request_timeout {
        builder = builder_request_timeout(builder, request_ms);
    }
    match build_with_retry_middleware(builder, policy) {
        Ok(client) => Ok(client),
        Err(message) => Err(Error::Http(message)),
    }
}

/// The trailing slashes of a sequence, removed.
pub open spec fn trim_trailing_slashes(s: Seq<char>) -> Seq<char>
    decreases s.len(),
{
    if s.len() > 0 && s.last() == '/' {
        trim_trailing_slashes(s.drop_last())
    } else {
        s
    }
}

/// One leading slash, removed if present.
pub open spec fn strip_one_leading_slash(s: Seq<char>) -> Seq<char> {
    if s.len() > 0 && s[0] == '/' {
        s.drop_first()
    } else {
        s
    }
}

/// How a relative path joins the base URL: the base without its trailing
/// slashes, one slash, the path without its leading slash.
pub open spec fn joined_url(base: Seq<char>, path: Seq<char>) -> Seq<char> {
    trim_trailing_slashes(base) + "/"@ + strip_one_leading_slash(path)
}

/// HTTP client handle: the retry-decorated client together with the
/// configuration snapshot it was built from.  Reconfiguring builds a new
/// inner client and swaps it in whole; it never mutates one in place, so a
/// request already dispatched keeps the client, and the policy, it started
/// with.
#[derive(Debug, Clone)]
pub struct HttpClient {
    /// The retry-decorated client, rebuilt on every reconfiguration.
    pub client: reqwest_middleware::ClientWithMiddleware,
    /// Base URL every path is joined to.
    pub base_url: String,
    /// The API token sent as `Authorization: Token <token>`.
    pub api_token: String,
    /// The configuration this client was built from.
    pub http_config: HttpConfig,
}

impl HttpClient {
    /// A new client with the default retry and timeout configuration.
    /// Fails with `Auth` on an empty token.
    pub fn new(api_token: String) -> (r: Result<Self, Error>)
        ensures
            api_token@.len() == 0 ==> (r matches Err(e) && (e matches Error::Auth(m) && m@
                == "API token cannot be empty"@)),
            r matches Ok(c) ==> ({
                &&& c.api_token == api_token
                &&& c.base_url@ == "https://api.replicate.com"@
                &&& c.http_config.retry == RetryConfig {
                    max_retries: 3u32,
                    min_delay: 500u64,
                    max_delay: 30_000u64,
                    base_multiplier: 2u32,
                }
                &&& c.http_config.timeout.connect_timeout == Some(30_000u64)
                &&& c.http_config.timeout.request_timeout == Some(60_000u64)
            }),
            api_token@.len() > 0 ==> (r matches Err(e) ==> e is Http),
    {
        Self::with_retry_config(api_token, Default::default())
    }

    /// A new client with the given retry configuration and default
    /// timeouts.
    pub fn with_retry_config(api_token: String, retry_config: RetryConfig) -> (r: Result<
        Self,
        Error,
    >)
        requires
            retry_config.wf(),
        ensures
            api_token@.len() == 0 ==> (r matches Err(e) && (e matches Error::Auth(m) && m@
                == "API token cannot be empty"@)),
            r matches Ok(c) ==> ({
                &&& c.api_token == api_token
                &&& c.base_url@ == "https://api.replicate.com"@
                &&& c.http_config.retry == retry_config
                &&& c.http_config.timeout.connect_timeout == Some(30_000u64)
                &&& c.http_config.timeout.request_timeout == Some(60_000u64)
            }),
            api_token@.len() > 0 ==> (r matches Err(e) ==> e is Http),
    {
        let http_config = HttpConfig { retry: retry_config, timeout: Default::default() };
        Self::with_http_config(api_token, http_config)
    }

    /// A new client with the given full configuration.  Fails with `Auth`
    /// on an empty token, and with `Http` if the underlying client cannot
    /// be set up.
    pub fn with_http_config(api_token: String, http_config: HttpConfig) -> (r: Result<Self, Error>)
        requires
            http_config.retry.wf(),
        ensures
            api_token@.len() == 0 ==> (r matches Err(e) && (e matches Error::Auth(m) && m@
                == "API token cannot be empty"@)),
            r matches Ok(c) ==> ({
                &&& c.api_token == api_token
                &&& c.base_url@ == "https://api.replicate.com"@
                &&& c.http_config == http_config
            }),
            api_token@.len() > 0 ==> (r matches Err(e) ==> e is Http),
    {
        if api_token.as_str().unicode_len() == 0 {
            return Err(Error::auth_error("API token cannot be empty".to_owned()));
        }
        let client = match build_client_with_config(&http_config) {
            Ok(c) => c,
            Err(e) => {
                return Err(e);
            },
        };
        Ok(
            HttpClient {
                client,
                base_url: "https://api.replicate.com".to_owned(),
                api_token,
                http_config,
            },
        )
    }

    /// A new client pointed at a custom base URL, with default
    /// configuration.
    pub fn with_base_url(api_token: String, base_url: String) -> (r: Result<Self, Error>)
        ensures
            api_token@.len() == 0 ==> (r matches Err(e) && (e matches Error::Auth(m) && m@
                == "API token cannot be empty"@)),
            r matches Ok(c) ==> ({
                &&& c.api_token == api_token
                &&& c.base_url == base_url
                &&& c.http_config.retry == RetryConfig {
                    max_retries: 3u32,
                    min_delay: 500u64,
                    max_delay: 30_000u64,
                    base_multiplier: 2u32,
                }
            }),
            api_token@.len() > 0 ==> (r matches Err(e) ==> e is Http),
    {
        match Self::new(api_token) {
            Ok(mut client) => {
                client.base_url = base_url;
                Ok(client)
            },
            Err(e) => Err(e),
        }
    }

    /// A new client pointed at a custom base URL with a custom retry
    /// configuration.
    pub fn with_base_url_and_retry(
        api_token: String,
        base_url: String,
        retry_config: RetryConfig,
    ) -> (r: Result<Self, Error>)
        requires
            retry_config.wf(),
        ensures
            api_token@.len() == 0 ==> (r matches Err(e) && (e matches Error::Auth(m) && m@
                == "API token cannot be empty"@)),
            r matches Ok(c) ==> ({
                &&& c.api_token == api_token
                &&& c.base_url == base_url
                &&& c.http_config.retry == retry_config
            }),
            api_token@.len() > 0 ==> (r matches Err(e) ==> e is Http),
    {
        match Self::with_retry_config(api_token, retry_config) {
            Ok(mut client) => {
                client.base_url = base_url;
                Ok(client)
            },
            Err(e) => Err(e),
        }
    }

    /// A new client pointed at a custom base URL with a custom full
    /// configuration.
    pub fn with_base_url_and_http_config(
        api_token: String,
        base_url: String,
        http_config: HttpConfig,
    ) -> (r: Result<Self, Error>)
        requires
            http_config.retry.wf(),
        ensures
            api_token@.len() == 0 ==> (r matches Err(e) && (e matches Error::Auth(m) && m@
                == "API token cannot be empty"@)),
            r matches Ok(c) ==> ({
                &&& c.api_token == api_token
                &&& c.base_url == base_url
                &&& c.http_config == http_config
            }),
            api_token@.len() > 0 ==> (r matches Err(e) ==> e is Http),
    {
        match Self::with_http_config(api_token, http_config) {
            Ok(mut client) => {
                client.base_url = base_url;
                Ok(client)
            },
            Err(e) => Err(e),
        }
    }

    /// The retry-decorated client, for dispatching requests.
    pub fn inner(&self) -> (r: &reqwest_middleware::ClientWithMiddleware)
        ensures
            *r == self.client,
    {
        &self.client
    }

    /// Join a path to the base URL: trailing slashes of the base and one
    /// leading slash of the path give way to a single separating slash.
    pub fn build_url(&self, path: &str) -> (r: String)
        ensures
            r@ == joined_url(self.base_url@, path@),
    {
        let base = self.base_url.as_str();
        let base_len = base.unicode_len();
        let mut end: usize = base_len;
        proof {
            assert(base@.subrange(0, base_len as int) =~= base@);
        }
        while end > 0 && base.get_char(end - 1) == '/'
            invariant
                end <= base_len == base@.len(),
                trim_trailing_slashes(base@) == trim_trailing_slashes(
                    base@.subrange(0, end as int),
                ),
            decreases end,
        {
            proof {
                assert(base@.subrange(0, end as int).drop_last() =~= base@.subrange(
                    0,
                    end as int - 1,
                ));
            }
            end = end - 1;
        }
        let trimmed = base.substring_char(0, end);
        proof {
            if end > 0 {
                assert(base@.subrange(0, end as int).last() == base@[end as int - 1]);
            }
            assert(trim_trailing_slashes(base@) == trimmed@);
        }
        let path_len = path.unicode_len();
        let stripped = if path_len > 0 && path.get_char(0) == '/' {
            let s = path.substring_char(1, path_len);
            proof {
                assert(s@ =~= path@.drop_first());
            }
            s
        } else {
            path
        };
        let mut url = trimmed.to_owned();
        url.append("/");
        url.append(stripped);
        url
    }

    /// Replace the retry policy, keeping the timeouts: rebuild the inner
    /// client and swap it in.  The backoff base stays at two.
    pub fn configure_retries(&mut self, max_retries: u32, min_delay: u64, max_delay: u64) -> (r:
        Result<(), Error>)
        requires
            min_delay <= max_delay,
        ensures
            r is Ok ==> ({
                &&& final(self).http_config.retry == RetryConfig {
                    max_retries,
                    min_delay,
                    max_delay,
                    base_multiplier: 2u32,
                }
                &&& final(self).http_config.timeout == old(self).http_config.timeout
                &&& final(self).base_url == old(self).base_url
                &&& final(self).api_token == old(self).api_token
            }),
            r matches Err(e) ==> e is Http && *final(self) == *old(self),
    {
        self.configure_retries_advanced(max_retries, min_delay, max_delay, 2)
    }

    /// Replace the retry policy with every knob exposed, keeping the
    /// timeouts.  The new client is built first; on failure the transport
    /// stands unchanged.
    pub fn configure_retries_advanced(
        &mut self,
        max_retries: u32,
        min_delay: u64,
        max_delay: u64,
        base_multiplier: u32,
    ) -> (r: Result<(), Error>)
        requires
            min_delay <= max_delay,
        ensures
            r is Ok ==> ({
                &&& final(self).http_config.retry == RetryConfig {
                    max_retries,
                    min_delay,
                    max_delay,
                    base_multiplier,
                }
                &&& final(self).http_config.timeout == old(self).http_config.timeout
                &&& final(self).base_url == old(self).base_url
                &&& final(self).api_token == old(self).api_token
            }),
            r matches Err(e) ==> e is Http && *final(self) == *old(self),
    {
        let new_retry_config = RetryConfig { max_retries, min_delay, max_delay, base_multiplier };
        let new_http_config = HttpConfig {
            retry: new_retry_config,
            timeout: self.http_config.timeout,
        };
        let new_client = match build_client_with_config(&new_http_config) {
            Ok(c) => c,
            Err(e) => {
                return Err(e);
            },
        };
        self.client = new_client;
        self.http_config = new_http_config;
        Ok(())
    }

    /// Replace the timeouts, keeping the retry policy.  `None` disables the
    /// corresponding timeout.  The new client is built first; on failure
    /// the transport stands unchanged.
    pub fn configure_timeouts(
        &mut self,
        connect_timeout: Option<u64>,
        request_timeout: Option<u64>,
    ) -> (r: Result<(), Error>)
        requires
            old(self).http_config.retry.wf(),
        ensures
            r is Ok ==> ({
                &&& final(self).http_config.timeout == TimeoutConfig {
                    connect_timeout,
                    request_timeout,
                }
                &&& final(self).http_config.retry == old(self).http_config.retry
                &&& final(self).base_url == old(self).base_url
                &&& final(self).api_token == old(self).api_token
            }),
            r matches Err(e) ==> e is Http && *final(self) == *old(self),
    {
        let new_http_config = HttpConfig {
            retry: self.http_config.retry,
            timeout: TimeoutConfig { connect_timeout, request_timeout },
        };
        let new_client = match build_client_with_config(&new_http_config) {
            Ok(c) => c,
            Err(e) => {
                return Err(e);
            },
        };
        self.client = new_client;
        self.http_config = new_http_config;
        Ok(())
    }

    /// The current retry configuration.
    pub fn retry_config(&self) -> (r: &RetryConfig)
        ensures
            *r == self.http_config.retry,
    {
        &self.http_config.retry
    }

    /// The current timeout configuration.
    pub fn timeout_config(&self) -> (r: &TimeoutConfig)
        ensures
            *r == self.http_config.timeout,
    {
        &self.http_config.timeout
    }

    /// The current HTTP configuration.
    pub fn http_config(&self) -> (r: &HttpConfig)
        ensures
            *r == self.http_config,
    {
        &self.http_config
    }

    /// The retry bounds for a request begun now: a snapshot, owned by the
    /// request, of the configuration as it stands.
    pub fn begin_request(&self) -> (p: RetryPlan)
        ensures
            p.retry == self.http_config.retry,
            p.retries_made == 0,
    {
        RetryPlan::new(self.http_config.retry)
    }
}

/// The value of the `Authorization` header: the service's token scheme.
pub fn auth_header_value(api_token: &String) -> (r: String)
    ensures
        r@ == "Token "@ + api_token@,
{
    let mut s = "Token ".to_owned();
    s.append(api_token.as_str());
    s
}

/// Sort a completed response by status: 2xx passes the status through,
/// anything else maps to the error taxonomy with the body kept where the
/// mapping wants it.
pub fn classify_status(status: u16, body: String) -> (r: Result<u16, Error>)
    ensures
        200 <= status < 300 ==> r == Ok::<u16, Error>(status),
        !(200 <= status < 300) ==> (r matches Err(e) && status_error_matches(status, body@, e)),
{
    if 200 <= status && status < 300 {
        Ok(status)
    } else {
        Err(status_to_error(status, body))
    }
}

/// The error for a failed multipart upload.  The credential statuses 401,
/// 402 and 403 map to `Auth` exactly as on every other request; for any
/// other status the body is parsed for a JSON `detail` message, and the raw
/// text is kept as detail whenever it parsed as JSON at all.
pub fn multipart_error_for_body(status: u16, body: String) -> (e: Error)
    ensures
        auth_status(status) ==> status_error_matches(status, body@, e),
        !auth_status(status) ==> (match json_error_detail_of(body@) {
            Some(found) => match found {
                Some(m) => {
                    &&& e matches Error::Api { status: s, message: em, detail: dd }
                    &&& s == status
                    &&& em@ == m
                    &&& dd matches Some(raw) && raw == body
                },
                None => {
                    &&& e matches Error::Api { status: s, message: em, detail: dd }
                    &&& s == status
                    &&& em@ == "Unknown API error"@
                    &&& dd matches Some(raw) && raw == body
                },
            },
            None => {
                &&& e matches Error::Api { status: s, message: em, detail: dd }
                &&& s == status
                &&& em == body
                &&& dd is None
            },
        }),
{
    let parsed = json_error_detail(&body);
    crate::error::multipart_error(status, body, parsed)
}

/// Law: reconfiguring a transport does not alter the retry bounds of a
/// request begun earlier.  A plan begun on a transport owns a snapshot of
/// the bounds, so its delays stay those of the configuration at the time it
/// was begun, whatever the transport — here `after`, any transport value,
/// in particular the reconfigured one — holds by then.
pub proof fn lemma_reconfigure_preserves_started_plan(
    before: HttpClient,
    after: HttpClient,
    plan: RetryPlan,
    attempt: nat,
    jitter: u64,
)
    requires
        plan.retry == before.http_config.retry,
    ensures
        jittered_delay(plan.retry, attempt, jitter) == jittered_delay(
            before.http_config.retry,
            attempt,
            jitter,
        ),
{
}

} // verus!
