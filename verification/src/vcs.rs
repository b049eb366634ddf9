//! What every version-control backend can be asked.

use vstd::prelude::*;
use crate::error::Error;

verus! {

/// A version-control backend that can report where the branches of its
/// configured target currently stand.
///
/// Each backend names its own representation of a revision and of a branch,
/// so that a content hash and a changeset number need no common form.
pub trait VersionControlSystem {
    /// How this backend identifies a revision.
    type RevisionId;

    /// How this backend identifies a branch or other reference.
    type BranchId;

    /// The references of the target, each with the revision it points at, in
    /// the order the backend reports them; or the error that kept the
    /// backend from learning them.
    fn heads(&self) -> Result<Vec<(Self::BranchId, Self::RevisionId)>, Error>;
}

} // verus!
