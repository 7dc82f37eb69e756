//! Note storage. The SQLite backend is not written yet: every operation
//! answers that the module is not implemented.

use crate::model::{NewNote, Note};
use vstd::prelude::*;

verus! {

/// Errors of the storage module.
#[derive(Debug, PartialEq, Eq, Structural)]
pub enum StorageError {
    NotImplemented,
}

/// The text that the storage error shows to a user.
pub open spec fn storage_error_text(e: StorageError) -> Seq<char> {
    match e {
        StorageError::NotImplemented => "storage module not implemented yet"@,
    }
}

impl StorageError {
    /// The human-readable message of this error.
    pub fn to_string(&self) -> (s: String)
        ensures
            s@ == storage_error_text(*self),
    {
        match self {
            StorageError::NotImplemented => String::from_str("storage module not implemented yet"),
        }
    }
}

/// Initialize the SQLite database (0600 permissions, idempotent).
pub fn init_db() -> (r: Result<(), StorageError>)
    ensures
        r == Err::<(), StorageError>(StorageError::NotImplemented),
{
    Err(StorageError::NotImplemented)
}

/// Stores a new note and returns it with its id and timestamp.
pub fn insert_note(_note: NewNote) -> (r: Result<Note, StorageError>)
    ensures
        r == Err::<Note, StorageError>(StorageError::NotImplemented),
{
    Err(StorageError::NotImplemented)
}

/// Lists all notes ordered by `created_at` descending.
pub fn list_notes() -> (r: Result<Vec<Note>, StorageError>)
    ensures
        r == Err::<Vec<Note>, StorageError>(StorageError::NotImplemented),
{
    Err(StorageError::NotImplemented)
}

/// LIKE search over text/repo/branch.
pub fn search_notes(_query: &str) -> (r: Result<Vec<Note>, StorageError>)
    ensures
        r == Err::<Vec<Note>, StorageError>(StorageError::NotImplemented),
{
    Err(StorageError::NotImplemented)
}

/// Marks a note as done or not done.
pub fn set_note_done(_id: i64, _done: bool) -> (r: Result<(), StorageError>)
    ensures
        r == Err::<(), StorageError>(StorageError::NotImplemented),
{
    Err(StorageError::NotImplemented)
}

/// Physically deletes a note.
pub fn delete_note(_id: i64) -> (r: Result<(), StorageError>)
    ensures
        r == Err::<(), StorageError>(StorageError::NotImplemented),
{
    Err(StorageError::NotImplemented)
}

/// The most recent note parked on `branch` of `repo`, if any.
pub fn latest_note_for_branch(_repo: &str, _branch: &str) -> (r: Result<Option<Note>, StorageError>)
    ensures
        r == Err::<Option<Note>, StorageError>(StorageError::NotImplemented),
{
    Err(StorageError::NotImplemented)
}

/// The repositories that have notes, each once.
pub fn distinct_repos() -> (r: Result<Vec<String>, StorageError>)
    ensures
        r == Err::<Vec<String>, StorageError>(StorageError::NotImplemented),
{
    Err(StorageError::NotImplemented)
}

} // verus!
