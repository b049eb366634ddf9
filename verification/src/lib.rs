//! Lists the references that a remote repository advertises, together with
//! the revision each one points at, without cloning or fetching anything.
//!
//! The crate holds the part of that job that decides: which transport
//! operation comes next, what is handed to it, and what the query returns
//! for every way the operations can turn out. Performing the operations is
//! left to the caller.

pub mod error;
pub mod git;
pub mod head;
pub mod laws;
pub mod object_id;
pub mod query;
pub mod vcs;

pub use error::Error;
pub use git::Git;
pub use head::RemoteHead;
pub use object_id::ObjectId;
pub use query::{Action, Direction, Event, Progress, State};
pub use vcs::VersionControlSystem;
