//! A note-taking library whose core is a verified synchronization
//! subsystem: initializing a repository against a remote, committing the
//! full working tree, negotiating credentials with a bounded retry budget,
//! pushing, and pulling with fast-forward-only merge resolution.

pub mod auth;
pub mod diary;
pub mod error;
pub mod project;
pub mod quick_note;
pub mod repo;
pub mod sync;

pub use error::NoteError;
pub use error::SyncError;
