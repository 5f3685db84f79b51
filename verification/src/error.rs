//! The pipeline's failure taxonomy. Every error is fatal where it is
//! detected: the pipeline has no retry, no fallback and no stage that can
//! proceed past a failure in an earlier stage.

use vstd::prelude::*;

verus! {

/// The tag of a pipeline failure, one per stage that can fail.
#[derive(Clone, Copy, Debug, PartialEq, Eq, Structural)]
pub enum ErrorKind {
    /// The caller's configuration was incomplete or unrecognized.
    Configuration,
    /// The network layer failed before a response was available.
    Transport,
    /// The resolver answered, but not in the agreed shape.
    Protocol,
    /// The resolver explicitly reported that it cannot resolve the URL.
    Resolution,
    /// The stream response carried no usable filename metadata.
    MissingMetadata,
    /// The local file could not be created or written.
    Io,
}

/// A fatal pipeline failure: a tag saying which stage failed, and a
/// human-readable reason.
pub enum PipelineError {
    Configuration(String),
    Transport(String),
    Protocol(String),
    Resolution(String),
    MissingMetadata(String),
    Io(String),
}

impl PipelineError {
    /// Which stage this error comes from.
    pub open spec fn spec_kind(&self) -> ErrorKind {
        match self {
            PipelineError::Configuration(_) => ErrorKind::Configuration,
            PipelineError::Transport(_) => ErrorKind::Transport,
            PipelineError::Protocol(_) => ErrorKind::Protocol,
            PipelineError::Resolution(_) => ErrorKind::Resolution,
            PipelineError::MissingMetadata(_) => ErrorKind::MissingMetadata,
            PipelineError::Io(_) => ErrorKind::Io,
        }
    }

    /// The reason carried by the error.
    pub open spec fn spec_message(&self) -> Seq<char> {
        match self {
            PipelineError::Configuration(s) => s@,
            PipelineError::Transport(s) => s@,
            PipelineError::Protocol(s) => s@,
            PipelineError::Resolution(s) => s@,
            PipelineError::MissingMetadata(s) => s@,
            PipelineError::Io(s) => s@,
        }
    }

    /// The tag of this error.
    pub fn kind(&self) -> (k: ErrorKind)
        ensures
            k == self.spec_kind(),
    {
        match self {
            PipelineError::Configuration(_) => ErrorKind::Configuration,
            PipelineError::Transport(_) => ErrorKind::Transport,
            PipelineError::Protocol(_) => ErrorKind::Protocol,
            PipelineError::Resolution(_) => ErrorKind::Resolution,
            PipelineError::MissingMetadata(_) => ErrorKind::MissingMetadata,
            PipelineError::Io(_) => ErrorKind::Io,
        }
    }

    /// The reason carried by the error.
    pub fn message(&self) -> (m: &str)
        ensures
            m@ == self.spec_message(),
    {
        match self {
            PipelineError::Configuration(s) => s.as_str(),
            PipelineError::Transport(s) => s.as_str(),
            PipelineError::Protocol(s) => s.as_str(),
            PipelineError::Resolution(s) => s.as_str(),
            PipelineError::MissingMetadata(s) => s.as_str(),
            PipelineError::Io(s) => s.as_str(),
        }
    }
}

} // verus!
