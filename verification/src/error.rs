//! Error types for the client, and the mapping from HTTP status codes to
//! them.
//!
//! The taxonomy lets a caller tell apart bad input (`InvalidInput`, `Api`
//! with status 422), transient unavailability that was already retried
//! internally (`Api` with 429 or a 5xx status), a failure of the remote job
//! itself (`ModelExecution`), and giving up on a wait (`Timeout`).

use vstd::prelude::*;

verus! {

/// Main error type for the client.
#[derive(Debug, Clone)]
pub enum Error {
    /// The HTTP request itself failed: connection, protocol or middleware
    /// trouble, carried as text.
    Http(String),
    /// JSON serialization or deserialization failed, carried as text.
    Json(String),
    /// The API returned a non-2xx response.
    Api { status: u16, message: String, detail: Option<String> },
    /// Missing or rejected credentials.
    Auth(String),
    /// The caller misused an API.
    InvalidInput(String),
    /// A local file operation failed, carried as text.
    Io(String),
    /// The remote job reached its `Failed` state.
    ModelExecution { prediction_id: String, error_message: Option<String>, logs: Option<String> },
    /// A wait or request exceeded its deadline.
    Timeout(String),
    /// The operation is not available in the current configuration.
    Unsupported(String),
}

impl Error {
    /// A new API error without detail.
    pub fn api_error(status: u16, message: String) -> (e: Self)
        ensures
            e matches Error::Api { status: s, message: m, detail: d } && s == status && m
                == message && d is None,
    {
        Error::Api { status, message, detail: None }
    }

    /// A new API error with the raw body as detail.
    pub fn api_error_with_detail(status: u16, message: String, detail: String) -> (e: Self)
        ensures
            e matches Error::Api { status: s, message: m, detail: d } && s == status && m
                == message && d == Some(detail),
    {
        Error::Api { status, message, detail: Some(detail) }
    }

    /// A new authentication error.
    pub fn auth_error(message: String) -> (e: Self)
        ensures
            e matches Error::Auth(m) && m == message,
    {
        Error::Auth(message)
    }

    /// A new invalid-input error.
    pub fn invalid_input(message: String) -> (e: Self)
        ensures
            e matches Error::InvalidInput(m) && m == message,
    {
        Error::InvalidInput(message)
    }

    /// A new model-execution error.
    pub fn model_execution(
        prediction_id: String,
        error_message: Option<String>,
        logs: Option<String>,
    ) -> (e: Self)
        ensures
            e matches Error::ModelExecution { prediction_id: p, error_message: m, logs: l } && p
                == prediction_id && m == error_message && l == logs,
    {
        Error::ModelExecution { prediction_id, error_message, logs }
    }

    /// A new timeout error.
    pub fn timeout(message: String) -> (e: Self)
        ensures
            e matches Error::Timeout(m) && m == message,
    {
        Error::Timeout(message)
    }

    /// A new unsupported-operation error.
    pub fn unsupported(message: String) -> (e: Self)
        ensures
            e matches Error::Unsupported(m) && m == message,
    {
        Error::Unsupported(message)
    }
}

/// Exactly which error a non-2xx status code with the given body maps to.
pub open spec fn status_error_matches(status: u16, body: Seq<char>, e: Error) -> bool {
    if status == 401 {
        e matches Error::Auth(m) && m@ == "Invalid API token"@
    } else if status == 402 {
        e matches Error::Auth(m) && m@ == "Insufficient credits"@
    } else if status == 403 {
        e matches Error::Auth(m) && m@ == "Forbidden"@
    } else if status == 404 {
        e matches Error::Api { status: s, message: m, detail: d } && s == 404 && m@
            == "Resource not found"@ && d is None
    } else if status == 422 {
        &&& e matches Error::Api { status: s, message: m, detail: d }
        &&& s == 422
        &&& m@ == "Validation error"@
        &&& d matches Some(dd) && dd@ == body
    } else if status == 429 {
        e matches Error::Api { status: s, message: m, detail: d } && s == 429 && m@
            == "Rate limit exceeded"@ && d is None
    } else if 500 <= status && status <= 599 {
        e matches Error::Api { status: s, message: m, detail: d } && s == status && m@
            == "Server error"@ && d is None
    } else {
        e matches Error::Api { status: s, message: m, detail: d } && s == status && m@ == body
            && d is None
    }
}

/// Translate a non-2xx HTTP status code and the response body into the
/// error the caller sees: 401, 402 and 403 become `Auth`; everything else
/// becomes `Api` with the status kept, the body carried as detail for 422
/// and as the message for unrecognized statuses.
pub fn status_to_error(status: u16, body: String) -> (e: Error)
    ensures
        status_error_matches(status, body@, e),
{
    if status == 401 {
        Error::auth_error("Invalid API token".to_owned())
    } else if status == 402 {
        Error::auth_error("Insufficient credits".to_owned())
    } else if status == 403 {
        Error::auth_error("Forbidden".to_owned())
    } else if status == 404 {
        Error::api_error(404, "Resource not found".to_owned())
    } else if status == 422 {
        Error::api_error_with_detail(422, "Validation error".to_owned(), body)
    } else if status == 429 {
        Error::api_error(429, "Rate limit exceeded".to_owned())
    } else if 500 <= status && status <= 599 {
        Error::api_error(status, "Server error".to_owned())
    } else {
        Error::api_error(status, body)
    }
}

/// Whether the taxonomy puts this status under `Auth` rather than `Api`.
pub open spec fn auth_status(status: u16) -> bool {
    status == 401 || status == 402 || status == 403
}

/// The error for a failed multipart upload response, given the raw body and
/// what could be parsed out of it.  The credential statuses map to `Auth`
/// exactly as every other request's do; any other status becomes `Api`,
/// enriched from the body: `parsed` is `None` when the body is not JSON at
/// all, `Some(None)` when it is JSON without a string `detail` field, and
/// `Some(Some(m))` when a detail message was found.  A JSON body is kept
/// whole as the error's detail; a non-JSON body is itself the message.
pub fn multipart_error(status: u16, body: String, parsed: Option<Option<String>>) -> (e: Error)
    ensures
        auth_status(status) ==> status_error_matches(status, body@, e),
        !auth_status(status) ==> (match parsed {
            Some(found) => match found {
                Some(m) => {
                    &&& e matches Error::Api { status: s, message: em, detail: d }
                    &&& s == status
                    &&& em == m
                    &&& d == Some(body)
                },
                None => {
                    &&& e matches Error::Api { status: s, message: em, detail: d }
                    &&& s == status
                    &&& em@ == "Unknown API error"@
                    &&& d == Some(body)
                },
            },
            None => {
                &&& e matches Error::Api { status: s, message: em, detail: d }
                &&& s == status
                &&& em == body
                &&& d is None
            },
        }),
{
    if status == 401 || status == 402 || status == 403 {
        return status_to_error(status, body);
    }
    match parsed {
        Some(Some(message)) => Error::Api { status, message, detail: Some(body) },
        Some(None) => Error::Api {
            status,
            message: "Unknown API error".to_owned(),
            detail: Some(body),
        },
        None => Error::Api { status, message: body, detail: None },
    }
}

} // verus!
