//! Client-side core for a remote model-execution service.
//!
//! Callers submit a prediction job naming a model version and input
//! parameters, optionally with file attachments, and poll or block until the
//! job reaches a terminal state.  The verified core consists of the
//! retry/backoff policy, the HTTP transport configuration and its
//! classification of responses, the completion-polling state machine, and the
//! file-input encoding dispatcher.  Network sends themselves are asynchronous
//! and live outside this crate; everything that decides, classifies or
//! computes is here, with contracts.

pub mod backoff;
pub mod client;
pub mod common;
pub mod config;
pub mod error;
pub mod file;
pub mod files;
pub mod prediction;
pub mod transport;
pub mod waiter;

pub use client::Client;
pub use config::{HttpConfig, RetryConfig, TimeoutConfig};
pub use error::Error;
pub use file::{FileEncodingStrategy, FileInput, FileOutput};
pub use files::File;
pub use prediction::{Prediction, PredictionStatus};
pub use transport::HttpClient;
pub use waiter::CompletionWaiter;
