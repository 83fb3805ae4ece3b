use vstd::prelude::*;

verus! {

/// What a caller of a tool branches on.
#[derive(Debug, Clone, Copy, PartialEq, Eq, Structural)]
pub enum ToolErrorKind {
    /// Malformed or missing caller input.
    InvalidArgument,
    /// The namespace or table does not exist.
    NotFound,
    /// A transient backend or network fault: the caller may retry.
    Unavailable,
    /// An unexpected backend response or a broken invariant.
    Internal,
}

/// A structured tool error: a kind, a short message and the reason behind it.
#[derive(Debug, Clone)]
pub struct ToolError {
    pub kind: ToolErrorKind,
    pub message: String,
    pub reason: String,
}

impl ToolError {
    pub fn new(kind: ToolErrorKind, message: &str, reason: String) -> (r: ToolError)
        ensures
            r.kind == kind,
            r.message@ == message@,
            r.reason == reason,
    {
        ToolError { kind, message: message.to_string(), reason }
    }
}

/// The kinds of failure a backend catalog client reports.
#[derive(Debug, Clone, Copy, PartialEq, Eq, Structural)]
pub enum BackendErrorKind {
    PreconditionFailed,
    Unexpected,
    DataInvalid,
    NamespaceAlreadyExists,
    TableAlreadyExists,
    NamespaceNotFound,
    TableNotFound,
    FeatureUnsupported,
    CatalogCommitConflicts,
}

/// A failure reported by a backend catalog client, as plain values.
#[derive(Debug, Clone)]
pub struct BackendError {
    pub kind: BackendErrorKind,
    /// Whether the client marked the failure as safe to retry.
    pub retryable: bool,
    pub message: String,
}

/// The message a catalog client gives a request that never reached the server.
pub open spec fn transport_failure_message() -> Seq<char> {
    "Failed to execute http request"@
}

/// The backend could not be reached, or said the failure is temporary.
pub open spec fn is_connectivity_failure(e: BackendError) -> bool {
    e.retryable || (e.kind == BackendErrorKind::Unexpected && e.message@
        == transport_failure_message())
}

/// How a backend failure is reported to the caller.
pub open spec fn classify_spec(e: BackendError) -> ToolErrorKind {
    if is_connectivity_failure(e) {
        ToolErrorKind::Unavailable
    } else if e.kind == BackendErrorKind::NamespaceNotFound || e.kind
        == BackendErrorKind::TableNotFound {
        ToolErrorKind::NotFound
    } else {
        ToolErrorKind::Internal
    }
}

impl BackendError {
    /// The tool error kind for this failure.
    pub fn classify(&self) -> (k: ToolErrorKind)
        ensures
            k == classify_spec(*self),
    {
        let is_unexpected = match self.kind {
            BackendErrorKind::Unexpected => true,
            _ => false,
        };
        let transport = "Failed to execute http request".to_string();
        proof {
            reveal_strlit("Failed to execute http request");
        }
        if self.retryable || (is_unexpected && self.message == transport) {
            return ToolErrorKind::Unavailable;
        }
        match self.kind {
            BackendErrorKind::NamespaceNotFound | BackendErrorKind::TableNotFound => {
                ToolErrorKind::NotFound
            },
            _ => ToolErrorKind::Internal,
        }
    }
}

impl ToolError {
    /// Wraps a backend failure: the kind is its classification, the reason its
    /// message.
    pub fn from_backend(message: &str, e: BackendError) -> (r: ToolError)
        ensures
            r.kind == classify_spec(e),
            r.message@ == message@,
            r.reason == e.message,
    {
        let kind = e.classify();
        ToolError::new(kind, message, e.message)
    }
}

} // verus!
