//! What can go wrong: a domain value that breaks an invariant, and a failed
//! step of workspace provisioning.

use vstd::prelude::*;
use crate::layout::Artifact;

verus! {

/// A domain value was rejected at construction because it breaks an
/// invariant of the model.
#[derive(Debug, Clone, Copy, PartialEq, Eq, Structural)]
pub enum ValidationError {
    /// An account or envelope was given an empty name.
    EmptyName,
    /// A transfer names the same account, or the same envelope, as both its
    /// source and its sink.
    SameEndpoints,
    /// A transfer between accounts moves an amount that is not greater than
    /// zero.
    NonPositiveAmount,
}

/// Why the creation of a directory or file failed.
#[derive(Debug, Clone, Copy, PartialEq, Eq, Structural)]
pub enum IoErrorKind {
    /// Something already exists at the target path.
    AlreadyExists,
    /// Any other failure of the underlying file system, such as missing
    /// permissions.
    Other,
}

/// A failed step of workspace provisioning: which artifact could not be
/// created, and why.
#[derive(Debug, Clone, Copy, PartialEq, Eq, Structural)]
pub struct IoError {
    pub artifact: Artifact,
    pub kind: IoErrorKind,
}

impl IoError {
    /// Whether the step failed because its target already exists.
    pub fn is_already_exists(&self) -> (exists: bool)
        ensures
            exists == (self.kind == IoErrorKind::AlreadyExists),
    {
        self.kind == IoErrorKind::AlreadyExists
    }
}

} // verus!
