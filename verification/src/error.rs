//! Call-level faults: conditions that fail an RPC call outright, as opposed
//! to the structured client-error responses that a call can return
//! successfully.

use vstd::prelude::*;
use vstd::string::StringExecFns;

verus! {

/// A fault that fails the whole call: the caller sees an operation failure
/// with a message, never a structured response.
#[derive(Debug, Clone, PartialEq, Eq)]
pub enum CallError {
    /// The request path contains a `.` or `..` segment or an empty segment
    /// other than a leading or trailing one.
    NonCanonicalPath { path: String },
    /// A PUT addressed a path outside the mutable `var/` tree.
    PutOutsideVar,
    /// A DELETE addressed a path outside the mutable `var/` tree.
    DeleteOutsideVar,
    /// A session of a type other than the web session type was requested.
    UnsupportedSessionType,
}

/// Mathematical image of a [`CallError`].
pub enum CallErrorView {
    NonCanonicalPath { path: Seq<char> },
    PutOutsideVar,
    DeleteOutsideVar,
    UnsupportedSessionType,
}

impl View for CallError {
    type V = CallErrorView;

    open spec fn view(&self) -> CallErrorView {
        match self {
            CallError::NonCanonicalPath { path } => CallErrorView::NonCanonicalPath {
                path: path@,
            },
            CallError::PutOutsideVar => CallErrorView::PutOutsideVar,
            CallError::DeleteOutsideVar => CallErrorView::DeleteOutsideVar,
            CallError::UnsupportedSessionType => CallErrorView::UnsupportedSessionType,
        }
    }
}

/// The descriptive message each fault carries to the caller.
pub open spec fn error_message(e: CallErrorView) -> Seq<char> {
    match e {
        CallErrorView::NonCanonicalPath { path } => "non-canonical path: "@ + path,
        CallErrorView::PutOutsideVar => "PUT only supported under /var."@,
        CallErrorView::DeleteOutsideVar => "DELETE only supported under /var."@,
        CallErrorView::UnsupportedSessionType => "unsupported session type"@,
    }
}

impl CallError {
    /// The human-readable message for this fault; a non-canonical path is
    /// named in full.
    pub fn message(&self) -> (r: String)
        ensures
            r@ == error_message(self@),
    {
        match self {
            CallError::NonCanonicalPath { path } => String::from_str(
                "non-canonical path: ",
            ).concat(path.as_str()),
            CallError::PutOutsideVar => String::from_str("PUT only supported under /var."),
            CallError::DeleteOutsideVar => String::from_str("DELETE only supported under /var."),
            CallError::UnsupportedSessionType => String::from_str("unsupported session type"),
        }
    }
}

} // verus!
