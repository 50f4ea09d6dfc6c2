//! The library's error type and the text each error reports.
use vstd::prelude::*;
use vstd::string::StringExecFns;

verus! {

/// Why an operation of the picker failed.
#[derive(Debug, Clone, PartialEq, Eq)]
pub enum CdxError {
    /// A stored thread has neither a positive recency nor a positive update
    /// timestamp; the thread's id is kept.
    MissingTimestamp(String),
    /// The loader found no conversation to pick from.
    NoConversations,
    /// The current directory could not be determined; the cause is kept.
    CurrentDirectory(String),
    /// The user cancelled the selection.
    SelectionCancelled,
    /// The dry-run command line could not be written; the cause is kept.
    DryRunOutput(String),
    /// The recorded child thread ids could not be decoded; the cause is kept.
    ChildThreadIds(String),
    /// A failure reported by a caller-supplied step, with its message.
    Failed(String),
}

/// The text that describes an error.
pub open spec fn error_text(e: CdxError) -> Seq<char> {
    match e {
        CdxError::MissingTimestamp(id) => "thread "@ + id@ + " is missing a usable timestamp"@,
        CdxError::NoConversations => "no Codex conversations found"@,
        CdxError::CurrentDirectory(cause) => "failed to determine current directory: "@ + cause@,
        CdxError::SelectionCancelled => "selection cancelled"@,
        CdxError::DryRunOutput(cause) => "failed to write dry-run output: "@ + cause@,
        CdxError::ChildThreadIds(cause) => "failed to decode thread_spawn_edges.child_thread_id values: "@
            + cause@,
        CdxError::Failed(message) => message@,
    }
}

impl CdxError {
    /// The text that describes this error.
    pub fn message(&self) -> (r: String)
        ensures
            r@ == error_text(*self),
    {
        match self {
            CdxError::MissingTimestamp(id) => {
                let mut s = String::from_str("thread ");
                s.append(id.as_str());
                s.append(" is missing a usable timestamp");
                s
            },
            CdxError::NoConversations => String::from_str("no Codex conversations found"),
            CdxError::CurrentDirectory(cause) => {
                let mut s = String::from_str("failed to determine current directory: ");
                s.append(cause.as_str());
                s
            },
            CdxError::SelectionCancelled => String::from_str("selection cancelled"),
            CdxError::DryRunOutput(cause) => {
                let mut s = String::from_str("failed to write dry-run output: ");
                s.append(cause.as_str());
                s
            },
            CdxError::ChildThreadIds(cause) => {
                let mut s = String::from_str(
                    "failed to decode thread_spawn_edges.child_thread_id values: ",
                );
                s.append(cause.as_str());
                s
            },
            CdxError::Failed(message) => message.clone(),
        }
    }
}

} // verus!
