use parkplatzcoder::commands::{
    export_json, get_notes, new_note_from, park_note, park_with_context, remove_note,
    search_notes, toggle_done,
};
use parkplatzcoder::git_context::GitError;
use parkplatzcoder::model::GitContext;

fn sample_context() -> GitContext {
    GitContext {
        repo_path: "/r".to_string(),
        branch: "main".to_string(),
        commit_hash: "c0ffee".to_string(),
        changed_files: vec!["a.txt".to_string()],
    }
}

#[test]
fn park_note_without_repository_is_refused() {
    assert_eq!(
        park_note("x".to_string(), Ok(None)).unwrap_err(),
        "no git repository detected"
    );
}

#[test]
fn park_note_passes_on_a_failed_detection() {
    assert_eq!(
        park_note("x".to_string(), Err(GitError::WindowManager("no display".to_string())))
            .unwrap_err(),
        "window manager lookup failed: no display"
    );
}

#[test]
fn park_note_in_a_missing_repository_reports_the_git_error() {
    let err = park_note(
        "x".to_string(),
        Ok(Some("/nonexistent/parkplatzcoder/no/such/dir".to_string())),
    )
    .unwrap_err();
    assert!(err.starts_with("git operation failed: "), "{}", err);
}

#[test]
fn new_note_takes_text_path_and_context() {
    let n = new_note_from("Refactor".to_string(), "/home/dev/repo".to_string(), sample_context());
    assert_eq!(n.text, "Refactor");
    assert_eq!(n.repo_path, "/home/dev/repo");
    assert_eq!(n.branch, "main");
    assert_eq!(n.commit_hash, "c0ffee");
    assert_eq!(n.changed_files, vec!["a.txt".to_string()]);
}

#[test]
fn parking_with_a_context_reaches_storage() {
    assert_eq!(
        park_with_context("x".to_string(), "/r".to_string(), Ok(sample_context())).unwrap_err(),
        "storage module not implemented yet"
    );
    assert_eq!(
        park_with_context("x".to_string(), "/r".to_string(), Err(GitError::BareRepository))
            .unwrap_err(),
        "repository is bare and has no working directory"
    );
}

#[test]
fn list_commands_report_the_storage_error() {
    let msg = "storage module not implemented yet";
    assert_eq!(get_notes().unwrap_err(), msg);
    assert_eq!(search_notes("main".to_string()).unwrap_err(), msg);
    assert_eq!(toggle_done(3).unwrap_err(), msg);
    assert_eq!(remove_note(3).unwrap_err(), msg);
}

#[test]
fn export_command_reports_the_export_error() {
    assert_eq!(export_json().unwrap_err(), "export module not implemented yet");
}
