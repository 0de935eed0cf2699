use std::time::Duration;
use vstd::prelude::*;

use crate::json::{Json, JsonView};
use crate::text::concat;
use crate::time::{debug_text, duration_debug};

verus! {

/// How a child process ended: its exit code when it has one, and the text
/// that the platform gives for its exit status.
#[derive(Debug, PartialEq, Eq)]
pub struct ExitReport {
    pub code: Option<i32>,
    pub description: String,
}

/// Everything that can go wrong in an E2E session.
#[derive(Debug, PartialEq, Eq)]
pub enum Error {
    /// The child could not be spawned or waited on; holds the OS error text.
    Spawn(String),
    Brp { method: String, message: String },
    UnsupportedWatch(String),
    SelectorNotFound(String),
    AmbiguousSelector(String),
    /// Timed-out operation. For startup, `operation` may include stdout/stderr snapshots.
    Timeout { operation: String, timeout: Duration },
    ChildExited(ExitReport),
    Artifact(String),
    Configuration(String),
}

/// The abstract content of an [`Error`].
pub enum ErrorView {
    Spawn(Seq<char>),
    Brp { method: Seq<char>, message: Seq<char> },
    UnsupportedWatch(Seq<char>),
    SelectorNotFound(Seq<char>),
    AmbiguousSelector(Seq<char>),
    Timeout { operation: Seq<char>, timeout: Duration },
    ChildExited { code: Option<i32>, description: Seq<char> },
    Artifact(Seq<char>),
    Configuration(Seq<char>),
}

impl View for Error {
    type V = ErrorView;

    open spec fn view(&self) -> ErrorView {
        match self {
            Error::Spawn(s) => ErrorView::Spawn(s@),
            Error::Brp { method, message } => ErrorView::Brp { method: method@, message: message@ },
            Error::UnsupportedWatch(s) => ErrorView::UnsupportedWatch(s@),
            Error::SelectorNotFound(s) => ErrorView::SelectorNotFound(s@),
            Error::AmbiguousSelector(s) => ErrorView::AmbiguousSelector(s@),
            Error::Timeout { operation, timeout } => ErrorView::Timeout {
                operation: operation@,
                timeout: *timeout,
            },
            Error::ChildExited(r) => ErrorView::ChildExited {
                code: r.code,
                description: r.description@,
            },
            Error::Artifact(s) => ErrorView::Artifact(s@),
            Error::Configuration(s) => ErrorView::Configuration(s@),
        }
    }
}

/// The human-readable text of an error.
pub open spec fn error_text(e: ErrorView) -> Seq<char> {
    match e {
        ErrorView::Spawn(s) => "failed to spawn child process: "@ + s,
        ErrorView::Brp { method, message } => "BRP request `"@ + method + "` failed: "@ + message,
        ErrorView::UnsupportedWatch(s) => "BRP watch/SSE response is not supported by v0.1: `"@ + s
            + "`"@,
        ErrorView::SelectorNotFound(s) => "selector `"@ + s + "` was not found"@,
        ErrorView::AmbiguousSelector(s) => "selector `"@ + s + "` matched more than one entity"@,
        ErrorView::Timeout { operation, timeout } => "operation `"@ + operation
            + "` timed out after "@ + debug_text(timeout),
        ErrorView::ChildExited { code, description } =>
            "child process exited unexpectedly with status "@ + description,
        ErrorView::Artifact(s) => "artifact operation failed: "@ + s,
        ErrorView::Configuration(s) => "invalid E2E configuration: "@ + s,
    }
}

fn wrap(a: &str, b: &str, c: &str) -> (s: String)
    ensures
        s@ == a@ + b@ + c@,
{
    let ab = concat(a, b);
    concat(ab.as_str(), c)
}

impl Error {
    /// The error's message, as its `Display` text reads.
    pub fn message(&self) -> (s: String)
        ensures
            s@ == error_text(self@),
    {
        proof {
            reveal_strlit("failed to spawn child process: ");
            reveal_strlit("BRP request `");
            reveal_strlit("` failed: ");
            reveal_strlit("BRP watch/SSE response is not supported by v0.1: `");
            reveal_strlit("`");
            reveal_strlit("selector `");
            reveal_strlit("` was not found");
            reveal_strlit("` matched more than one entity");
            reveal_strlit("operation `");
            reveal_strlit("` timed out after ");
            reveal_strlit("child process exited unexpectedly with status ");
            reveal_strlit("artifact operation failed: ");
            reveal_strlit("invalid E2E configuration: ");
            reveal_strlit("");
        }
        match self {
            Error::Spawn(s) => concat("failed to spawn child process: ", s.as_str()),
            Error::Brp { method, message } => {
                let head = wrap("BRP request `", method.as_str(), "` failed: ");
                concat(head.as_str(), message.as_str())
            },
            Error::UnsupportedWatch(s) => wrap(
                "BRP watch/SSE response is not supported by v0.1: `",
                s.as_str(),
                "`",
            ),
            Error::SelectorNotFound(s) => wrap("selector `", s.as_str(), "` was not found"),
            Error::AmbiguousSelector(s) => wrap(
                "selector `",
                s.as_str(),
                "` matched more than one entity",
            ),
            Error::Timeout { operation, timeout } => {
                let d = duration_debug(*timeout);
                let head = wrap("operation `", operation.as_str(), "` timed out after ");
                concat(head.as_str(), d.as_str())
            },
            Error::ChildExited(r) => concat(
                "child process exited unexpectedly with status ",
                r.description.as_str(),
            ),
            Error::Artifact(s) => concat("artifact operation failed: ", s.as_str()),
            Error::Configuration(s) => concat("invalid E2E configuration: ", s.as_str()),
        }
    }

    /// An artifact error for a failed file operation: `"{context}: {io_error}"`.
    pub fn artifact_io(context: &str, io_error: &str) -> (e: Error)
        ensures
            e@ == ErrorView::Artifact(context@ + ": "@ + io_error@),
    {
        proof {
            reveal_strlit(": ");
        }
        Error::Artifact(wrap(context, ": ", io_error))
    }
}

} // verus!

verus! {

/// A result with its error taken by view.
pub open spec fn view_err<T>(r: Result<T, Error>) -> Result<T, ErrorView> {
    match r {
        Ok(v) => Ok(v),
        Err(e) => Err(e@),
    }
}

/// A JSON result with both sides taken by view.
pub open spec fn json_result_view(r: Result<Json, Error>) -> Result<JsonView, ErrorView> {
    match r {
        Ok(v) => Ok(v@),
        Err(e) => Err(e@),
    }
}

/// The result type of the harness's fallible operations.
pub type E2eResult<T> = Result<T, Error>;

} // verus!
