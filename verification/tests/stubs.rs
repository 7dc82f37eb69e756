use parkplatzcoder::export::{export_all_notes, ExportError};
use parkplatzcoder::model::NewNote;
use parkplatzcoder::notifier::NotifyError;
use parkplatzcoder::storage::{self, StorageError};
use parkplatzcoder::watcher::WatcherError;

fn sample_new_note() -> NewNote {
    NewNote {
        text: "Refactor eingabefeld".to_string(),
        repo_path: "/home/dev/repo".to_string(),
        branch: "main".to_string(),
        commit_hash: "abc123def456".to_string(),
        changed_files: vec!["src/main.rs".to_string(), "README.md".to_string()],
    }
}

#[test]
fn every_storage_operation_answers_not_implemented() {
    assert_eq!(storage::init_db(), Err(StorageError::NotImplemented));
    assert!(matches!(storage::insert_note(sample_new_note()), Err(StorageError::NotImplemented)));
    assert!(matches!(storage::list_notes(), Err(StorageError::NotImplemented)));
    assert!(matches!(storage::search_notes("main"), Err(StorageError::NotImplemented)));
    assert_eq!(storage::set_note_done(7, true), Err(StorageError::NotImplemented));
    assert_eq!(storage::delete_note(7), Err(StorageError::NotImplemented));
    assert!(matches!(
        storage::latest_note_for_branch("/home/dev/repo", "main"),
        Err(StorageError::NotImplemented)
    ));
    assert_eq!(storage::distinct_repos(), Err(StorageError::NotImplemented));
}

#[test]
fn export_answers_not_implemented() {
    assert!(matches!(export_all_notes(), Err(ExportError::NotImplemented)));
}

#[test]
fn stub_errors_have_their_messages() {
    assert_eq!(StorageError::NotImplemented.to_string(), "storage module not implemented yet");
    assert_eq!(ExportError::NotImplemented.to_string(), "export module not implemented yet");
    assert_eq!(NotifyError::NotImplemented.to_string(), "notifier module not implemented yet");
    assert_eq!(WatcherError::NotImplemented.to_string(), "watcher module not implemented yet");
}
