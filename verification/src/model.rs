//! Plain data records exchanged between the storage, the git reader and the
//! user interface.

use vstd::prelude::*;

verus! {

/// A note as it is handed to storage, before it has an id and a timestamp.
#[derive(Debug, Clone)]
pub struct NewNote {
    pub text: String,
    pub repo_path: String,
    pub branch: String,
    pub commit_hash: String,
    pub changed_files: Vec<String>,
}

/// A stored note.
#[derive(Debug, Clone)]
pub struct Note {
    pub id: i64,
    pub text: String,
    pub repo_path: String,
    pub branch: String,
    pub commit_hash: String,
    pub changed_files: Vec<String>,
    /// RFC3339 UTC timestamp.
    pub created_at: String,
    pub done: bool,
}

/// The working context read from a git repository.
#[derive(Debug, Clone)]
pub struct GitContext {
    pub repo_path: String,
    pub branch: String,
    pub commit_hash: String,
    pub changed_files: Vec<String>,
}

} // verus!
