//! The two closed sets of failures: those that stop the system from being
//! constructed, and those that a single rendering call can end in.

use vstd::prelude::*;
use vstd::string::*;

verus! {

/// What kind of failure the operating system reported.
#[derive(Debug, Clone, Copy, PartialEq, Eq)]
pub enum IoFailureKind {
    /// Nothing was listening at the address.
    ConnectionRefused,
    /// Any other failure.
    Other,
}

/// A failed input/output operation: its kind, and the text that describes it.
#[derive(Debug, Clone, PartialEq, Eq)]
pub struct IoFailure {
    pub kind: IoFailureKind,
    pub description: String,
}

impl IoFailure {
    pub open spec fn is_refusal(&self) -> bool {
        self.kind is ConnectionRefused
    }

    /// Whether the peer refused the connection.
    pub fn is_connection_refused(&self) -> (res: bool)
        ensures
            res == self.is_refusal(),
    {
        match self.kind {
            IoFailureKind::ConnectionRefused => true,
            IoFailureKind::Other => false,
        }
    }
}

/// Why the system could not be constructed. None of these is retried.
#[derive(Debug, Clone, PartialEq, Eq)]
pub enum InitializationError {
    /// The listen address is not a socket address; holds the parser's words.
    InvalidAddr(String),
    /// The renderer's entry module does not resolve to an existing file.
    InvalidJsWorkerPath(IoFailure),
    /// The global renderer module does not resolve to an existing file.
    InvalidGlobalJsRendererPath(IoFailure),
    /// The operating system did not start the renderer process.
    SpawnNodeProcessError(IoFailure),
}

impl InitializationError {
    /// The text that presents this error to a reader.
    pub open spec fn message(&self) -> Seq<char> {
        match self {
            InitializationError::InvalidAddr(err) => "Invalid worker address: "@ + err@,
            InitializationError::InvalidJsWorkerPath(err) => "Invalid js worker path: "@
                + err.description@
                + ". Make sure file at path exists and path is valid."@,
            InitializationError::InvalidGlobalJsRendererPath(err) =>
                "Invalid global js renderer path: "@ + err.description@
                    + ". Make sure file at path exists and path is valid."@,
            InitializationError::SpawnNodeProcessError(err) => "Failed to spawn worker process: "@
                + err.description@,
        }
    }

    pub fn to_string(&self) -> (res: String)
        ensures
            res@ == self.message(),
    {
        match self {
            InitializationError::InvalidAddr(err) => {
                String::from_str("Invalid worker address: ").concat(err.as_str())
            },
            InitializationError::InvalidJsWorkerPath(err) => {
                String::from_str("Invalid js worker path: ").concat(
                    err.description.as_str(),
                ).concat(". Make sure file at path exists and path is valid.")
            },
            InitializationError::InvalidGlobalJsRendererPath(err) => {
                String::from_str("Invalid global js renderer path: ").concat(
                    err.description.as_str(),
                ).concat(". Make sure file at path exists and path is valid.")
            },
            InitializationError::SpawnNodeProcessError(err) => {
                String::from_str("Failed to spawn worker process: ").concat(
                    err.description.as_str(),
                )
            },
        }
    }
}

impl From<IoFailure> for InitializationError {
    fn from(err: IoFailure) -> (res: InitializationError) {
        InitializationError::SpawnNodeProcessError(err)
    }
}

impl vstd::std_specs::convert::FromSpecImpl<IoFailure> for InitializationError {
    open spec fn obeys_from_spec() -> bool {
        true
    }

    open spec fn from_spec(err: IoFailure) -> InitializationError {
        InitializationError::SpawnNodeProcessError(err)
    }
}

/// Why a rendering call failed. The caller decides whether to try again.
#[derive(Debug, Clone, PartialEq, Eq)]
pub enum RenderingError {
    /// The worker is not there to take the call. No call of this library
    /// ends in it; it is for callers that find the worker gone themselves.
    WorkerIsUnavailable,
    /// The renderer could not be reached: refused on every attempt, or failed
    /// in another way on one.
    ConnectionError(IoFailure),
    /// The request target has no path.
    InvalidUri,
    /// The global renderer was asked for and none was configured.
    GlobalRendererNotProvided,
    /// The request's metadata could not be written as JSON.
    UrlSerializationError(String),
    /// The payload could not be written as JSON.
    DataSerializationError(String),
    /// The request could not be sent.
    RenderRequestError(IoFailure),
    /// The response could not be read.
    RenderResponseError(IoFailure),
    /// The renderer answered with an exception; holds its description.
    JsExceptionDuringRendering(String),
}

impl RenderingError {
    /// The text that presents this error to a reader.
    pub open spec fn message(&self) -> Seq<char> {
        match self {
            RenderingError::WorkerIsUnavailable => "Worker is unavailable"@,
            RenderingError::ConnectionError(err) => "Connection error: "@ + err.description@,
            RenderingError::InvalidUri => "Invalid URI"@,
            RenderingError::GlobalRendererNotProvided =>
                "Rendering request supposed to use global js renderer but it wasn't provided on renderer initialization"@,
            RenderingError::UrlSerializationError(err) => "Failed to serialize URL: "@ + err@,
            RenderingError::DataSerializationError(err) => "Failed to serialize data: "@ + err@,
            RenderingError::RenderRequestError(err) =>
                "Failed to communicate with rendering process: "@ + err.description@,
            RenderingError::RenderResponseError(err) =>
                "Failed to communicate with rendering process: "@ + err.description@,
            RenderingError::JsExceptionDuringRendering(err) => "JS Exception during rendering: "@
                + err@,
        }
    }

    pub fn to_string(&self) -> (res: String)
        ensures
            res@ == self.message(),
    {
        match self {
            RenderingError::WorkerIsUnavailable => String::from_str("Worker is unavailable"),
            RenderingError::ConnectionError(err) => {
                String::from_str("Connection error: ").concat(err.description.as_str())
            },
            RenderingError::InvalidUri => String::from_str("Invalid URI"),
            RenderingError::GlobalRendererNotProvided => {
                String::from_str(
                    "Rendering request supposed to use global js renderer but it wasn't provided on renderer initialization",
                )
            },
            RenderingError::UrlSerializationError(err) => {
                String::from_str("Failed to serialize URL: ").concat(err.as_str())
            },
            RenderingError::DataSerializationError(err) => {
                String::from_str("Failed to serialize data: ").concat(err.as_str())
            },
            RenderingError::RenderRequestError(err) => {
                String::from_str("Failed to communicate with rendering process: ").concat(
                    err.description.as_str(),
                )
            },
            RenderingError::RenderResponseError(err) => {
                String::from_str("Failed to communicate with rendering process: ").concat(
                    err.description.as_str(),
                )
            },
            RenderingError::JsExceptionDuringRendering(err) => {
                String::from_str("JS Exception during rendering: ").concat(err.as_str())
            },
        }
    }
}

} // verus!
