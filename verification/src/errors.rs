//! The failures that a query or a download can end in.

use vstd::prelude::*;
use vstd::string::StringExecFns;

verus! {

/// What went wrong.
#[derive(Clone, Copy, Debug, PartialEq, Eq, Structural, Hash)]
pub enum ErrorKind {
    /// The source URL names a protocol that no registry client speaks, or is no URL.
    Configuration,
    /// The transport failed while records or an archive were fetched.
    Network,
    /// The file system failed while an archive was read, extracted or moved.
    Io,
    /// The content hash of an archive is not the checksum that the index advertises.
    Integrity,
    /// A target, section or version that was asked for does not exist.
    NotFound,
    /// The extracted directory holds no valid manifest.
    Manifest,
    /// The operating system refused the lock of a cache slot.
    Lock,
}

/// A failure with the text that describes it.
///
/// Every layer that passes a failure on puts its own context in front of the
/// message; the kind stays what it was where the failure arose.
#[derive(Debug, PartialEq, Eq)]
pub struct SourceError {
    pub kind: ErrorKind,
    pub message: String,
}

/// A failure as a mathematical value.
pub struct SourceErrorView {
    pub kind: ErrorKind,
    pub message: Seq<char>,
}

impl View for SourceError {
    type V = SourceErrorView;

    open spec fn view(&self) -> SourceErrorView {
        SourceErrorView { kind: self.kind, message: self.message@ }
    }
}

impl Clone for SourceError {
    fn clone(&self) -> (copy: Self)
        ensures
            copy@ == self@,
    {
        SourceError { kind: self.kind, message: self.message.clone() }
    }
}

/// The message of a failure once `context` stands in front of it.
pub open spec fn with_context(context: Seq<char>, message: Seq<char>) -> Seq<char> {
    context + ": "@ + message
}

impl SourceError {
    /// A failure of the given kind.
    pub fn new(kind: ErrorKind, message: String) -> (error: Self)
        ensures
            error@ == (SourceErrorView { kind, message: message@ }),
    {
        SourceError { kind, message }
    }

    /// The same failure, with `context` and a colon in front of its message.
    pub fn context(self, context: &str) -> (error: Self)
        ensures
            error@ == (SourceErrorView {
                kind: self.kind,
                message: with_context(context@, self.message@),
            }),
    {
        let mut message = String::from_str(context);
        message.append(": ");
        message.append(self.message.as_str());
        SourceError { kind: self.kind, message }
    }

    /// The text of the failure.
    pub fn to_string(&self) -> (text: String)
        ensures
            text@ == self.message@,
    {
        self.message.clone()
    }
}

} // verus!
