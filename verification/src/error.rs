//! The failure taxonomy of the synchronization subsystem.
//!
//! Every sync operation is terminal on failure: no step is retried
//! internally beyond the single authentication attempt of the credential
//! negotiator, and no partial state is rolled back (a commit that succeeds
//! before a failing push stays in place).

use vstd::prelude::*;

verus! {

/// The failure classes a sync operation can surface.
#[derive(Clone, Copy, Debug, PartialEq, Eq, Structural)]
pub enum SyncError {
    /// Opening an existing repository failed.
    RepoOpenFailure,
    /// Initializing a fresh repository failed.
    RepoInitFailure,
    /// Staging the working tree into the index, or writing the index, failed.
    IndexFailure,
    /// Writing the staged index as a tree object failed.
    TreeWriteFailure,
    /// Resolving the ambient author/committer signature failed.
    SignatureFailure,
    /// Creating the commit object or updating its ref failed.
    CommitFailure,
    /// Looking up the `origin` remote failed.
    RemoteLookupFailure,
    /// The single-attempt authentication budget was exceeded.
    AuthExhausted,
    /// The remote rejected the (non-forced) push.
    PushFailure,
    /// Fetching the remote branch failed.
    FetchFailure,
    /// The local and remote branches have diverged; only fast-forward
    /// merges are supported.
    UnsupportedMerge,
    /// Force-checking-out the working tree failed.
    CheckoutFailure,
}

/// The failure classes of the note-file commands around the sync core.
#[derive(Clone, Copy, Debug, PartialEq, Eq, Structural)]
pub enum NoteError {
    /// The project to create already has a start file.
    AlreadyExists,
    /// The project to open has no start file.
    NotFound,
    /// There is no project to offer in the interactive picker.
    NoProjects,
    /// The interactive picker failed to produce a choice.
    SelectionFailure,
}

} // verus!
