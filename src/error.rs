//! The errors of a reconcile and how long to wait after each.
use vstd::prelude::*;

verus! {

/// What went wrong during a reconcile.
#[derive(Debug)]
pub enum Error {
    /// A call to the platform API failed; the text describes it.
    KubeError(String),
    /// A value could not be encoded or decoded.
    SerializationError(String),
    /// The challenge that an instance names does not exist.
    ChallengeNotFound { namespace: String, name: String },
    /// The instance class that an instance names (or the default one) does not exist.
    InstanceClassNotFound { name: String },
    /// The flag does not satisfy what the challenge asks of it.
    FlagValidationError(String),
    /// A child resource could not be created.
    ResourceCreationError { resource_type: String, reason: String },
    /// A timeout text does not follow the duration grammar.
    TimeoutParseError(String),
    /// A flag artefact could not be produced.
    FlagGenerationError(String),
    /// The controller's configuration is unusable.
    ConfigError(String),
    /// The teardown of an instance failed.
    FinalizerError(String),
}

/// Seconds to wait before retrying after a transient error.
pub const RETRY_SECONDS: u64 = 10;

/// Seconds to wait before retrying after an error that a retry will not cure soon.
pub const BACKOFF_SECONDS: u64 = 300;

impl Error {
    /// Whether the error is transient: platform API failures and failed creations.
    pub open spec fn retryable(&self) -> bool {
        self is KubeError || self is ResourceCreationError
    }

    /// Determines whether this error is worth a quick retry.
    pub fn is_retryable(&self) -> (r: bool)
        ensures
            r == self.retryable(),
    {
        match self {
            Error::KubeError(_) => true,
            Error::ResourceCreationError { .. } => true,
            _ => false,
        }
    }

    /// The delay, in seconds, before an instance that met this error is reconciled again.
    pub open spec fn requeue_seconds_spec(&self) -> u64 {
        if self.retryable() {
            RETRY_SECONDS
        } else {
            BACKOFF_SECONDS
        }
    }

    /// The delay, in seconds, before the instance is reconciled again.
    pub fn requeue_seconds(&self) -> (r: u64)
        ensures
            r == self.requeue_seconds_spec(),
    {
        if self.is_retryable() {
            RETRY_SECONDS
        } else {
            BACKOFF_SECONDS
        }
    }
}

} // verus!
