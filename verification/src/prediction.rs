//! Prediction-related types: job status, job snapshots, and the request to
//! create a job.

use vstd::prelude::*;

use crate::common::{assoc_get, assoc_lookup, assoc_set, distinct_keys};
use crate::file::{FileEncodingStrategy, FileInput};

verus! {

/// Status of a prediction.  `Succeeded`, `Failed` and `Canceled` are
/// terminal: no further transition leaves them.
#[derive(Debug, Clone, PartialEq, Eq, Structural)]
pub enum PredictionStatus {
    /// The prediction is starting up.
    Starting,
    /// The prediction is currently processing.
    Processing,
    /// The prediction completed successfully.
    Succeeded,
    /// The prediction failed.
    Failed,
    /// The prediction was canceled.
    Canceled,
}

impl PredictionStatus {
    /// Whether no further transition leaves this status.
    pub open spec fn spec_is_terminal(&self) -> bool {
        self is Succeeded || self is Failed || self is Canceled
    }

    /// Whether the prediction is in a terminal state.
    #[verifier::when_used_as_spec(spec_is_terminal)]
    pub fn is_terminal(&self) -> (r: bool)
        ensures
            r == self.spec_is_terminal(),
    {
        match self {
            PredictionStatus::Succeeded => true,
            PredictionStatus::Failed => true,
            PredictionStatus::Canceled => true,
            _ => false,
        }
    }

    /// Whether the prediction is still running.
    pub open spec fn spec_is_running(&self) -> bool {
        self is Starting || self is Processing
    }

    /// Whether the prediction is still running.
    #[verifier::when_used_as_spec(spec_is_running)]
    pub fn is_running(&self) -> (r: bool)
        ensures
            r == self.spec_is_running(),
    {
        match self {
            PredictionStatus::Starting => true,
            PredictionStatus::Processing => true,
            _ => false,
        }
    }
}

/// URLs associated with a prediction.
#[derive(Debug, Clone)]
pub struct PredictionUrls {
    /// URL to fetch the prediction.
    pub get: String,
    /// URL to cancel the prediction.
    pub cancel: String,
    /// URL to stream the prediction output, where supported.
    pub stream: Option<String>,
}

/// A point-in-time snapshot of a prediction owned by the remote service.
/// Snapshots are ephemeral: the poll loop fetches a fresh one on every tick.
#[derive(Debug, Clone)]
pub struct Prediction {
    /// The unique ID of the prediction.
    pub id: String,
    /// The model used to create the prediction, as `owner/name`.
    pub model: String,
    /// The version ID of the model used.
    pub version: String,
    /// The current status of the prediction.
    pub status: PredictionStatus,
    /// The input parameters, kept opaque.
    pub input: Option<serde_json::Value>,
    /// The output of the prediction, if completed, kept opaque.
    pub output: Option<serde_json::Value>,
    /// Logs from the prediction execution.
    pub logs: Option<String>,
    /// Error message if the prediction failed.
    pub error: Option<String>,
    /// Metrics about the prediction performance, kept opaque.
    pub metrics: Option<serde_json::Value>,
    /// When the prediction was created.
    pub created_at: Option<String>,
    /// When the prediction started processing.
    pub started_at: Option<String>,
    /// When the prediction completed.
    pub completed_at: Option<String>,
    /// URLs associated with the prediction.
    pub urls: Option<PredictionUrls>,
}

impl Prediction {
    /// Whether the prediction is complete, that is, in a terminal state.
    pub fn is_complete(&self) -> (r: bool)
        ensures
            r == self.status.spec_is_terminal(),
    {
        self.status.is_terminal()
    }

    /// Whether the prediction succeeded.
    pub fn is_successful(&self) -> (r: bool)
        ensures
            r == (self.status is Succeeded),
    {
        self.status == PredictionStatus::Succeeded
    }

    /// Whether the prediction failed.
    pub fn is_failed(&self) -> (r: bool)
        ensures
            r == (self.status is Failed),
    {
        self.status == PredictionStatus::Failed
    }

    /// Whether the prediction was canceled.
    pub fn is_canceled(&self) -> (r: bool)
        ensures
            r == (self.status is Canceled),
    {
        self.status == PredictionStatus::Canceled
    }
}

/// Request to create a new prediction.  `input` and `file_inputs` are
/// association lists with distinct keys, built through the methods below;
/// `file_inputs` and the strategy are resolved into plain `input` values
/// before a request body is ever built, and are never serialized.
#[derive(Debug, Clone)]
pub struct CreatePredictionRequest {
    /// The version ID of the model to run.
    pub version: String,
    /// Input parameters for the model.
    pub input: Vec<(String, serde_json::Value)>,
    /// Optional webhook URL for notifications.
    pub webhook: Option<String>,
    /// Optional webhook URL for completion notifications.
    pub webhook_completed: Option<String>,
    /// Events to filter for webhooks.
    pub webhook_events_filter: Option<Vec<String>>,
    /// Enable streaming of output.
    pub stream: Option<bool>,
    /// File inputs that still need to be resolved.
    pub file_inputs: Vec<(String, FileInput)>,
    /// How file inputs are to be resolved.
    pub file_encoding_strategy: FileEncodingStrategy,
}

impl CreatePredictionRequest {
    /// Both association lists hold each key at most once.
    pub open spec fn wf(self) -> bool {
        distinct_keys(self.input@) && distinct_keys(self.file_inputs@)
    }

    /// A new request for the given model version, with nothing else set.
    pub fn new(version: String) -> (r: Self)
        ensures
            r.version == version,
            r.input@.len() == 0,
            r.webhook is None,
            r.webhook_completed is None,
            r.webhook_events_filter is None,
            r.stream is None,
            r.file_inputs@.len() == 0,
            r.file_encoding_strategy == FileEncodingStrategy::Multipart,
            r.wf(),
    {
        CreatePredictionRequest {
            version,
            input: Vec::new(),
            webhook: None,
            webhook_completed: None,
            webhook_events_filter: None,
            stream: None,
            file_inputs: Vec::new(),
            file_encoding_strategy: Default::default(),
        }
    }

    /// Bind `value` under `key` among the input parameters, replacing any
    /// earlier binding of the same key.
    pub fn with_input(self, key: String, value: serde_json::Value) -> (r: Self)
        requires
            distinct_keys(self.input@),
        ensures
            distinct_keys(r.input@),
            assoc_lookup(r.input@, key@) == Some(value),
            forall|k: Seq<char>| k != key@ ==> assoc_lookup(r.input@, k) == assoc_lookup(
                self.input@,
                k,
            ),
            r.version == self.version,
            r.webhook == self.webhook,
            r.webhook_completed == self.webhook_completed,
            r.webhook_events_filter == self.webhook_events_filter,
            r.stream == self.stream,
            r.file_inputs == self.file_inputs,
            r.file_encoding_strategy == self.file_encoding_strategy,
    {
        let mut r = self;
        assoc_set(&mut r.input, key, value);
        r
    }

    /// Bind a file under `key`, to be resolved later by the configured
    /// encoding strategy.
    pub fn with_file_input(self, key: String, file: FileInput) -> (r: Self)
        requires
            distinct_keys(self.file_inputs@),
        ensures
            distinct_keys(r.file_inputs@),
            assoc_lookup(r.file_inputs@, key@) == Some(file),
            forall|k: Seq<char>| k != key@ ==> assoc_lookup(r.file_inputs@, k) == assoc_lookup(
                self.file_inputs@,
                k,
            ),
            r.version == self.version,
            r.input == self.input,
            r.webhook == self.webhook,
            r.webhook_completed == self.webhook_completed,
            r.webhook_events_filter == self.webhook_events_filter,
            r.stream == self.stream,
            r.file_encoding_strategy == self.file_encoding_strategy,
    {
        let mut r = self;
        assoc_set(&mut r.file_inputs, key, file);
        r
    }

    /// Choose how file inputs are resolved.
    pub fn with_file_encoding_strategy(self, strategy: FileEncodingStrategy) -> (r: Self)
        ensures
            r == (CreatePredictionRequest { file_encoding_strategy: strategy, ..self }),
    {
        CreatePredictionRequest { file_encoding_strategy: strategy, ..self }
    }

    /// Set the webhook URL.
    pub fn with_webhook(self, webhook: String) -> (r: Self)
        ensures
            r == (CreatePredictionRequest { webhook: Some(webhook), ..self }),
    {
        CreatePredictionRequest { webhook: Some(webhook), ..self }
    }

    /// Enable streaming.
    pub fn with_streaming(self) -> (r: Self)
        ensures
            r == (CreatePredictionRequest { stream: Some(true), ..self }),
    {
        CreatePredictionRequest { stream: Some(true), ..self }
    }

    /// The input value bound under `key`, if any.
    pub fn input_value(&self, key: &String) -> (r: Option<&serde_json::Value>)
        ensures
            match r {
                Some(v) => assoc_lookup(self.input@, key@) == Some(*v),
                None => assoc_lookup(self.input@, key@) is None,
            },
    {
        assoc_get(&self.input, key)
    }

    /// The pending file input bound under `key`, if any.
    pub fn file_input_value(&self, key: &String) -> (r: Option<&FileInput>)
        ensures
            match r {
                Some(v) => assoc_lookup(self.file_inputs@, key@) == Some(*v),
                None => assoc_lookup(self.file_inputs@, key@) is None,
            },
    {
        assoc_get(&self.file_inputs, key)
    }
}

} // verus!
