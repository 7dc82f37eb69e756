use parkplatzcoder::git_context::{changed_files_of, read_branch, read_git_context};

fn fresh_dir(tag: &str) -> String {
    let nanos = std::time::SystemTime::now()
        .duration_since(std::time::UNIX_EPOCH)
        .unwrap()
        .as_nanos();
    format!("/tmp/parkplatzcoder_test_{}_{}", tag, nanos)
}

/// A tree holding the given files, each path relative to the repository.
fn tree_of(repo: &git2::Repository, files: &[(&str, &str)]) -> git2::Oid {
    let mut index = git2::Index::new().unwrap();
    for (path, content) in files {
        let blob = repo.blob(content.as_bytes()).unwrap();
        let entry = git2::IndexEntry {
            ctime: git2::IndexTime::new(0, 0),
            mtime: git2::IndexTime::new(0, 0),
            dev: 0,
            ino: 0,
            mode: 0o100644,
            uid: 0,
            gid: 0,
            file_size: content.len() as u32,
            id: blob,
            flags: 0,
            flags_extended: 0,
            path: path.as_bytes().to_vec(),
        };
        index.add(&entry).unwrap();
    }
    index.write_tree_to(repo).unwrap()
}

/// Writes the files of `tree` into the working directory and the index,
/// without moving HEAD.
fn check_out(repo: &git2::Repository, tree: git2::Oid) {
    let tree = repo.find_tree(tree).unwrap();
    let mut opts = git2::build::CheckoutBuilder::new();
    opts.force();
    repo.checkout_tree(tree.as_object(), Some(&mut opts)).unwrap();
}

/// Creates a fresh repository with one committed file (`hello.txt`) that is
/// also checked out, and returns its path and the repository.
fn init_test_repo(tag: &str) -> (String, git2::Repository) {
    let dir = fresh_dir(tag);
    let repo = git2::Repository::init(&dir).unwrap();
    {
        let tree_id = tree_of(&repo, &[("hello.txt", "hello\n")]);
        let tree = repo.find_tree(tree_id).unwrap();
        let sig = git2::Signature::now("Test", "test@example.com").unwrap();
        repo.commit(Some("HEAD"), &sig, &sig, "initial commit", &tree, &[]).unwrap();
        check_out(&repo, tree_id);
    }
    (dir, repo)
}

#[test]
fn read_branch_returns_the_current_branch() {
    let (dir, repo) = init_test_repo("branch");
    let expected = repo.head().unwrap().shorthand().unwrap().to_string();
    assert_eq!(read_branch(&dir).unwrap(), expected);
}

#[test]
fn read_branch_gives_the_commit_id_for_a_detached_head() {
    let (dir, repo) = init_test_repo("detached");
    let head = repo.head().unwrap().peel_to_commit().unwrap().id();
    repo.set_head_detached(head).unwrap();
    assert_eq!(read_branch(&dir).unwrap(), head.to_string());
    assert_eq!(head.to_string().len(), 40);
}

#[test]
fn read_git_context_reports_branch_commit_and_changed_files() {
    let (dir, repo) = init_test_repo("context");
    let head_commit = repo.head().unwrap().peel_to_commit().unwrap().id();
    let expected_branch = repo.head().unwrap().shorthand().unwrap().to_string();
    // Change the existing file and add a new, untracked one.
    let changed = tree_of(&repo, &[("hello.txt", "hello, world\n"), ("world.txt", "new file\n")]);
    check_out(&repo, changed);
    {
        let mut index = repo.index().unwrap();
        index.remove_path(std::path::Path::new("world.txt")).unwrap();
        index.write().unwrap();
    }
    let untracked = repo.status_file(std::path::Path::new("world.txt")).unwrap();
    assert!(untracked.contains(git2::Status::WT_NEW));

    let ctx = read_git_context(&dir).unwrap();
    assert_eq!(ctx.branch, expected_branch);
    assert_eq!(ctx.commit_hash, head_commit.to_string());
    assert_eq!(ctx.changed_files, vec!["hello.txt", "world.txt"]);
    assert_eq!(ctx.repo_path.trim_end_matches('/'), dir);
}

#[test]
fn read_git_context_works_from_a_nested_directory() {
    let (dir, repo) = init_test_repo("nested");
    let nested = tree_of(&repo, &[("hello.txt", "hello\n"), ("a/b/c.txt", "deep\n")]);
    check_out(&repo, nested);
    let ctx = read_git_context(&format!("{}/a/b", dir)).unwrap();
    assert_eq!(ctx.repo_path.trim_end_matches('/'), dir);
    assert_eq!(ctx.changed_files, vec!["a/b/c.txt"]);
}

#[test]
fn read_git_context_refuses_a_bare_repository() {
    let dir = fresh_dir("bare");
    git2::Repository::init_bare(&dir).unwrap();
    assert_eq!(
        read_git_context(&dir).unwrap_err().to_string(),
        "repository is bare and has no working directory"
    );
}

#[test]
fn changed_files_of_a_status_list_are_sorted() {
    let (_dir, repo) = init_test_repo("statuses");
    let changed = tree_of(&repo, &[("zeta.txt", "z\n"), ("hello.txt", "changed\n"), ("alpha/x.txt", "x\n")]);
    check_out(&repo, changed);
    let statuses = repo.statuses(None).unwrap();
    assert_eq!(changed_files_of(&statuses), vec!["alpha/x.txt", "hello.txt", "zeta.txt"]);
}
