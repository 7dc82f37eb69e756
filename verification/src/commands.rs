//! The commands that the user interface invokes. Each answers with a value
//! or with the message of the error that stopped it.

use crate::export::{export_all_notes, export_error_text, path_text, ExportError};
use crate::git_context::{git_error_describes, read_git_context, GitError};
use crate::model::{GitContext, NewNote, Note};
use crate::storage::{self, storage_error_text, StorageError};
use vstd::prelude::*;

verus! {

/// The note to store for `text`, parked in `repo_path` with context `ctx`.
pub fn new_note_from(text: String, repo_path: String, ctx: GitContext) -> (n: NewNote)
    ensures
        n.text == text,
        n.repo_path == repo_path,
        n.branch == ctx.branch,
        n.commit_hash == ctx.commit_hash,
        n.changed_files == ctx.changed_files,
{
    NewNote {
        text,
        repo_path,
        branch: ctx.branch,
        commit_hash: ctx.commit_hash,
        changed_files: ctx.changed_files,
    }
}

/// Parks `text` in the repository `repo_path`, given the outcome of reading
/// its git context: a failed read is answered with its message; otherwise
/// the note is handed to storage, and its answer is passed on.
pub fn park_with_context(text: String, repo_path: String, ctx: Result<GitContext, GitError>) -> (r:
    Result<Note, String>)
    ensures
        match ctx {
            Err(e) => (r matches Err(m) && git_error_describes(&e, m@)),
            Ok(_) => (r matches Err(m) && m@ == storage_error_text(StorageError::NotImplemented)),
        },
{
    let ctx = match ctx {
        Ok(c) => c,
        Err(e) => return Err(e.to_string()),
    };
    let new_note = new_note_from(text, repo_path, ctx);
    match storage::insert_note(new_note) {
        Ok(n) => Ok(n),
        Err(e) => Err(e.to_string()),
    }
}

/// Parks a one-line note with the git context of the detected repository.
///
/// `detected` is the outcome of detecting the repository the user works
/// in. A failed detection is answered with its message, no repository with
/// "no git repository detected"; otherwise the context of that repository
/// is read and the note is stored with it.
pub fn park_note(text: String, detected: Result<Option<String>, GitError>) -> (r: Result<
    Note,
    String,
>)
    ensures
        match detected {
            Err(e) => (r matches Err(m) && git_error_describes(&e, m@)),
            Ok(None) => (r matches Err(m) && m@ == "no git repository detected"@),
            Ok(Some(_)) => (r matches Err(m) && (m@ == storage_error_text(
                StorageError::NotImplemented,
            ) || exists|e: GitError|
                (e is Git || e is BareRepository) && #[trigger] git_error_describes(&e, m@))),
        },
{
    let repo_path = match detected {
        Err(e) => return Err(e.to_string()),
        Ok(None) => return Err(String::from_str("no git repository detected")),
        Ok(Some(p)) => p,
    };
    let ctx = read_git_context(repo_path.as_str());
    let ghost read = ctx;
    let r = park_with_context(text, repo_path, ctx);
    proof {
        if let Err(e) = read {
            assert(git_error_describes(&e, r->Err_0@));
        }
    }
    r
}

/// All notes, newest first.
pub fn get_notes() -> (r: Result<Vec<Note>, String>)
    ensures
        r matches Err(m) && m@ == storage_error_text(StorageError::NotImplemented),
{
    match storage::list_notes() {
        Ok(notes) => Ok(notes),
        Err(e) => Err(e.to_string()),
    }
}

/// The notes whose text, repository or branch match `query`.
pub fn search_notes(query: String) -> (r: Result<Vec<Note>, String>)
    ensures
        r matches Err(m) && m@ == storage_error_text(StorageError::NotImplemented),
{
    match storage::search_notes(query.as_str()) {
        Ok(notes) => Ok(notes),
        Err(e) => Err(e.to_string()),
    }
}

/// Marks the note `id` as done.
pub fn toggle_done(id: i64) -> (r: Result<(), String>)
    ensures
        r matches Err(m) && m@ == storage_error_text(StorageError::NotImplemented),
{
    match storage::set_note_done(id, true) {
        Ok(()) => Ok(()),
        Err(e) => Err(e.to_string()),
    }
}

/// Deletes the note `id`.
pub fn remove_note(id: i64) -> (r: Result<(), String>)
    ensures
        r matches Err(m) && m@ == storage_error_text(StorageError::NotImplemented),
{
    match storage::delete_note(id) {
        Ok(()) => Ok(()),
        Err(e) => Err(e.to_string()),
    }
}

/// Exports all notes and answers the path of the written file.
pub fn export_json() -> (r: Result<String, String>)
    ensures
        r matches Err(m) && m@ == export_error_text(ExportError::NotImplemented),
{
    match export_all_notes() {
        Ok(p) => Ok(path_text(&p)),
        Err(e) => Err(e.to_string()),
    }
}

} // verus!
