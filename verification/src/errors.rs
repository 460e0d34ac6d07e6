//! The fatal error taxonomy of an installer run.

use vstd::prelude::*;

verus! {

/// A fatal error of an installer run. Every variant carries the text that is
/// reported to the operator: the offending path for a refused deletion, and
/// the underlying cause for the other three.
#[derive(Debug, Clone, PartialEq, Eq)]
pub enum InstallError {
    /// The safety check refused the path as a deletion target.
    UnsafeDeletionTarget(String),
    /// A read, write, removal or creation on the filesystem failed.
    Filesystem(String),
    /// The archive fetch failed.
    Network(String),
    /// The archive was corrupt or held unexpected contents.
    ArchiveFormat(String),
}

/// The message that `InstallError::message` renders.
pub open spec fn spec_error_message(e: InstallError) -> Seq<char> {
    match e {
        InstallError::UnsafeDeletionTarget(p) => "Preventing the destruction of the whole "@
            + p@ + " directory."@,
        InstallError::Filesystem(c) => "Filesystem error: "@ + c@,
        InstallError::Network(c) => "Network error: "@ + c@,
        InstallError::ArchiveFormat(c) => "Archive error: "@ + c@,
    }
}

impl InstallError {
    /// The human-readable message reported to the operator.
    pub fn message(&self) -> (m: String)
        ensures
            m@ == spec_error_message(*self),
    {
        match self {
            InstallError::UnsafeDeletionTarget(p) => {
                let mut m = String::from_str("Preventing the destruction of the whole ");
                m.append(p.as_str());
                m.append(" directory.");
                m
            },
            InstallError::Filesystem(c) => {
                let mut m = String::from_str("Filesystem error: ");
                m.append(c.as_str());
                m
            },
            InstallError::Network(c) => {
                let mut m = String::from_str("Network error: ");
                m.append(c.as_str());
                m
            },
            InstallError::ArchiveFormat(c) => {
                let mut m = String::from_str("Archive error: ");
                m.append(c.as_str());
                m
            },
        }
    }
}

} // verus!
