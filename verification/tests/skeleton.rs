use parkplatzcoder::git_context;
use parkplatzcoder::model::{GitContext, NewNote, Note};
use parkplatzcoder::{export, storage};
use std::path::PathBuf;

// The following tests assert only that the stub functions exist with the exact
// signatures the shared sprint contract promises.

#[test]
fn storage_stub_signatures_present() {
    let _: fn() -> Result<(), storage::StorageError> = storage::init_db;
    let _: fn(NewNote) -> Result<Note, storage::StorageError> = storage::insert_note;
    let _: fn() -> Result<Vec<Note>, storage::StorageError> = storage::list_notes;
    let _: fn(&str) -> Result<Vec<Note>, storage::StorageError> = storage::search_notes;
    let _: fn(i64, bool) -> Result<(), storage::StorageError> = storage::set_note_done;
    let _: fn(i64) -> Result<(), storage::StorageError> = storage::delete_note;
    let _: fn(&str, &str) -> Result<Option<Note>, storage::StorageError> =
        storage::latest_note_for_branch;
    let _: fn() -> Result<Vec<String>, storage::StorageError> = storage::distinct_repos;
}

#[test]
fn export_stub_signature_present() {
    let _: fn() -> Result<PathBuf, export::ExportError> = export::export_all_notes;
}

#[test]
fn git_context_stub_signatures_present() {
    let _: fn(&str) -> Result<GitContext, git_context::GitError> = git_context::read_git_context;
    let _: fn(&str) -> Result<String, git_context::GitError> = git_context::read_branch;
}
