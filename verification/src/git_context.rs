//! Reading the git working context of a repository, and finding the
//! repository the user is working in.

use crate::model::GitContext;
use crate::path_list::{normalize_changed_files, present_texts, strictly_sorted, texts};
use vstd::prelude::*;
use vstd::string::to_string_from_display_ensures;

verus! {

/// `git2::Repository`, an open repository; opaque here.
#[verifier::external_type_specification]
#[verifier::external_body]
pub struct ExGitRepository(git2::Repository);

/// `git2::Reference`, a git reference such as HEAD; opaque here.
#[verifier::external_type_specification]
#[verifier::external_body]
pub struct ExGitReference<'repo>(git2::Reference<'repo>);

/// `git2::Commit`; opaque here.
#[verifier::external_type_specification]
#[verifier::external_body]
pub struct ExGitCommit<'repo>(git2::Commit<'repo>);

/// `git2::Statuses`, the status list of a repository; its entries are
/// named by `status_entry_paths`.
#[verifier::external_type_specification]
#[verifier::external_body]
pub struct ExGitStatuses<'repo>(git2::Statuses<'repo>);

/// `git2::Error`; opaque here, shown through its `Display`.
#[verifier::external_type_specification]
#[verifier::external_body]
pub struct ExGitError(git2::Error);

/// `std::io::Error`; opaque here, shown through its `Display`.
#[verifier::external_type_specification]
#[verifier::external_body]
pub struct ExIoError(std::io::Error);

/// Errors of the git context reader.
#[derive(Debug)]
pub enum GitError {
    Git(git2::Error),
    BareRepository,
    Io(std::io::Error),
    WindowManager(String),
}

/// `msg` is the text that error `e` shows to a user.
pub open spec fn git_error_describes(e: &GitError, msg: Seq<char>) -> bool {
    match e {
        GitError::Git(g) => exists|r: String|
            #[trigger] to_string_from_display_ensures::<git2::Error>(g, r) && msg
                == "git operation failed: "@ + r@,
        GitError::BareRepository => msg == "repository is bare and has no working directory"@,
        GitError::Io(io) => exists|r: String|
            #[trigger] to_string_from_display_ensures::<std::io::Error>(io, r) && msg
                == "failed to read filesystem path: "@ + r@,
        GitError::WindowManager(s) => msg == "window manager lookup failed: "@ + s@,
    }
}

impl GitError {
    /// The human-readable message of this error.
    pub fn to_string(&self) -> (s: String)
        ensures
            git_error_describes(self, s@),
    {
        match self {
            GitError::Git(g) => {
                let detail = g.to_string();
                let s = String::from_str("git operation failed: ").concat(detail.as_str());
                assert(to_string_from_display_ensures::<git2::Error>(g, detail));
                s
            },
            GitError::BareRepository => String::from_str(
                "repository is bare and has no working directory",
            ),
            GitError::Io(io) => {
                let detail = io.to_string();
                let s = String::from_str("failed to read filesystem path: ").concat(
                    detail.as_str(),
                );
                assert(to_string_from_display_ensures::<std::io::Error>(io, detail));
                s
            },
            GitError::WindowManager(w) => String::from_str("window manager lookup failed: ").concat(
                w.as_str(),
            ),
        }
    }
}

/// A commit id as git prints it: forty lowercase hexadecimal digits.
pub open spec fn is_commit_id(s: Seq<char>) -> bool {
    &&& s.len() == 40
    &&& forall|i: int|
        0 <= i < s.len() ==> ('0' <= #[trigger] s[i] <= '9' || 'a' <= s[i] <= 'f')
}

/// `git2::Repository::discover`: opens the repository that contains `path`,
/// searching upward from it. What it finds depends on the disk, so nothing
/// is claimed of the result.
#[verifier::external_body]
fn discover_repository(path: &str) -> (r: Result<git2::Repository, git2::Error>) {
    git2::Repository::discover(path)
}

/// `git2::Repository::workdir`, the working directory as (lossily
/// converted) text; `None` for a bare repository. Nothing is claimed of it.
#[verifier::external_body]
fn repository_workdir(repo: &git2::Repository) -> (r: Option<String>) {
    match repo.workdir() {
        Some(p) => Some(p.to_string_lossy().into_owned()),
        None => None,
    }
}

/// `git2::Repository::head`: the reference that HEAD points to. Nothing is
/// claimed of it.
#[verifier::external_body]
fn repository_head<'r>(repo: &'r git2::Repository) -> (r: Result<git2::Reference<'r>, git2::Error>) {
    repo.head()
}

/// `git2::Reference::is_branch`: whether the reference lives under
/// `refs/heads`. Nothing is claimed of it.
#[verifier::external_body]
fn reference_is_branch(reference: &git2::Reference) -> (b: bool) {
    reference.is_branch()
}

/// `git2::Reference::shorthand`: the short name of the reference, or an
/// error where it is not valid UTF-8. Nothing is claimed of the name.
#[verifier::external_body]
fn reference_shorthand(reference: &git2::Reference) -> (r: Result<String, git2::Error>) {
    match reference.shorthand() {
        Ok(s) => Ok(s.to_string()),
        Err(e) => Err(e),
    }
}

/// `git2::Reference::peel_to_commit`: the commit the reference leads to.
/// Nothing is claimed of it.
#[verifier::external_body]
fn reference_peel_to_commit<'r>(reference: &git2::Reference<'r>) -> (r: Result<
    git2::Commit<'r>,
    git2::Error,
>) {
    reference.peel_to_commit()
}

/// The id of a commit printed by `Oid`'s `Display`: libgit2 writes the
/// SHA-1 id as forty lowercase hexadecimal digits. Which commit id it is
/// is not claimed.
#[verifier::external_body]
fn commit_id_text(commit: &git2::Commit) -> (s: String)
    ensures
        is_commit_id(s@),
{
    commit.id().to_string()
}

/// `git2::Repository::statuses` with default options: every file that
/// `git status` reports, untracked ones included. Nothing is claimed of it.
#[verifier::external_body]
fn repository_statuses<'r>(repo: &'r git2::Repository) -> (r: Result<git2::Statuses<'r>, git2::Error>) {
    repo.statuses(None)
}

/// A git2 outcome as an outcome of this library: a git2 failure becomes
/// `GitError::Git` with that error, a success stays as it is.
pub fn git_outcome<T>(r: Result<T, git2::Error>) -> (out: Result<T, GitError>)
    ensures
        match r {
            Ok(v) => out == Ok::<T, GitError>(v),
            Err(e) => out == Err::<T, GitError>(GitError::Git(e)),
        },
{
    match r {
        Ok(v) => Ok(v),
        Err(e) => Err(GitError::Git(e)),
    }
}

/// The path of each entry of a status list, in order: the text of the path
/// where it is valid UTF-8, nothing where it is not.
pub uninterp spec fn status_entry_paths(statuses: &git2::Statuses) -> Seq<Option<Seq<char>>>;

/// Hands out the entries of a status list (`Statuses::iter`) by their path
/// (`StatusEntry::path`, which fails on paths that are not UTF-8): one item
/// per entry, in order, each as `status_entry_paths` names it.
#[verifier::external_body]
fn status_paths(statuses: &git2::Statuses) -> (paths: Vec<Option<String>>)
    ensures
        paths@.len() == status_entry_paths(statuses).len(),
        forall|i: int|
            0 <= i < paths@.len() ==> (#[trigger] paths@[i] is Some) == (status_entry_paths(
                statuses,
            )[i] is Some),
        forall|i: int|
            0 <= i < paths@.len() && #[trigger] paths@[i] is Some ==> paths@[i]->0@
                == status_entry_paths(statuses)[i]->0,
{
    let mut out = Vec::new();
    for entry in statuses.iter() {
        match entry.path() {
            Ok(p) => out.push(Some(p.to_string())),
            Err(_) => out.push(None),
        }
    }
    out
}

/// The texts of the paths that are present in a list of optional paths.
pub open spec fn present_paths(paths: Seq<Option<Seq<char>>>) -> Set<Seq<char>> {
    Set::new(|t: Seq<char>| exists|i: int| 0 <= i < paths.len() && #[trigger] paths[i] == Some(t))
}

/// The changed files of a status list: the paths of its entries that are
/// UTF-8, sorted and without duplicates.
pub fn changed_files_of(statuses: &git2::Statuses) -> (files: Vec<String>)
    ensures
        strictly_sorted(texts(files@)),
        texts(files@).to_set() == present_paths(status_entry_paths(statuses)),
{
    let paths = status_paths(statuses);
    let files = normalize_changed_files(&paths);
    let ghost entries = status_entry_paths(statuses);
    assert forall|t: Seq<char>| present_texts(paths@).contains(t) <==> present_paths(entries).contains(t) by {
        if present_texts(paths@).contains(t) {
            let i = choose|i: int| 0 <= i < paths@.len() && #[trigger] paths@[i] is Some && paths@[i]->0@ == t;
            assert(entries[i] == Some(t));
        }
        if present_paths(entries).contains(t) {
            let i = choose|i: int| 0 <= i < entries.len() && #[trigger] entries[i] == Some(t);
            assert(paths@[i] is Some);
        }
    }
    assert(present_texts(paths@) =~= present_paths(entries));
    files
}

/// Collects the paths of every file that `git status` reports as changed
/// (untracked files included), sorted and without duplicates; paths that
/// are not UTF-8 are left out.
fn collect_changed_files(repo: &git2::Repository) -> (r: Result<Vec<String>, GitError>)
    ensures
        r matches Err(e) ==> e is Git,
        r matches Ok(files) ==> lists_status_paths(files@),
{
    let statuses = match git_outcome(repository_statuses(repo)) {
        Ok(s) => s,
        Err(e) => return Err(e),
    };
    let files = changed_files_of(&statuses);
    assert(present_paths(status_entry_paths(&statuses)) == texts(files@).to_set());
    Ok(files)
}

/// `files` lists, sorted and without duplicates, exactly the UTF-8 paths of
/// the entries of a status list that git reported.
pub open spec fn lists_status_paths(files: Seq<String>) -> bool {
    &&& strictly_sorted(texts(files))
    &&& exists|st: &git2::Statuses<'_>|
        #[trigger] present_paths(status_entry_paths(st)) == texts(files).to_set()
}

/// Every path that a status list reports as UTF-8 text is listed, and
/// nothing else is: no reported path is left out, whatever its name.
pub proof fn law_changed_files_are_the_reported_paths(files: Seq<String>, st: &git2::Statuses)
    requires
        present_paths(status_entry_paths(st)) == texts(files).to_set(),
    ensures
        forall|i: int|
            0 <= i < status_entry_paths(st).len() && #[trigger] status_entry_paths(st)[i] is Some
                ==> texts(files).contains(status_entry_paths(st)[i]->0),
        forall|j: int|
            0 <= j < files.len() ==> #[trigger] present_paths(status_entry_paths(st)).contains(
                texts(files)[j],
            ),
{
    let entries = status_entry_paths(st);
    assert forall|i: int| 0 <= i < entries.len() && #[trigger] entries[i] is Some implies texts(
        files,
    ).contains(entries[i]->0) by {
        assert(present_paths(entries).contains(entries[i]->0));
        assert(texts(files).to_set().contains(entries[i]->0));
    }
    assert forall|j: int| 0 <= j < files.len() implies #[trigger] present_paths(entries).contains(
        texts(files)[j],
    ) by {
        assert(texts(files).contains(texts(files)[j]));
        assert(texts(files).to_set().contains(texts(files)[j]));
    }
}

/// The branch label for a HEAD that is a branch: its short name, or
/// `"HEAD"` where the short name cannot be read.
pub fn shorthand_or_head(shorthand: Result<String, git2::Error>) -> (label: String)
    ensures
        match shorthand {
            Ok(s) => label@ == s@,
            Err(_) => label@ == "HEAD"@,
        },
{
    match shorthand {
        Ok(s) => s,
        Err(_) => String::from_str("HEAD"),
    }
}

/// What HEAD was found to be: a branch, with its short name as read, or a
/// detached HEAD, with the id of its commit.
#[derive(Debug)]
pub enum HeadKind {
    Branch(Result<String, git2::Error>),
    Detached(String),
}

/// The label of a HEAD: the short name of its branch (or `"HEAD"` where
/// the name cannot be read), or the commit id of a detached HEAD.
pub open spec fn branch_label_text(head: HeadKind) -> Seq<char> {
    match head {
        HeadKind::Branch(Ok(s)) => s@,
        HeadKind::Branch(Err(_)) => "HEAD"@,
        HeadKind::Detached(id) => id@,
    }
}

/// The branch label of a HEAD, as `branch_label_text` says.
pub fn branch_label(head: HeadKind) -> (label: String)
    ensures
        label@ == branch_label_text(head),
{
    match head {
        HeadKind::Branch(shorthand) => shorthand_or_head(shorthand),
        HeadKind::Detached(id) => id,
    }
}

/// `label` is what reading the reference `head` gave: where it read as a
/// branch, its short name as read (or `"HEAD"` where the name could not be
/// read); where it read as detached, the id of the commit it was peeled to.
pub closed spec fn reads_as_label<'r>(head: &git2::Reference<'r>, label: Seq<char>) -> bool {
    ||| call_ensures(reference_is_branch, (head,), true) && exists|sh: Result<String, git2::Error>|
        #[trigger] call_ensures(reference_shorthand, (head,), sh) && label == branch_label_text(
            HeadKind::Branch(sh),
        )
    ||| call_ensures(reference_is_branch, (head,), false) && reads_as_commit(head, label)
}

/// `label` is what reading some HEAD reference gave, as `reads_as_label`
/// says.
pub closed spec fn read_from_some_head(label: Seq<char>) -> bool {
    exists|head: &git2::Reference| #[trigger] reads_as_label(head, label)
}

/// `id` is the id of the commit that some HEAD reference was peeled to,
/// as `reads_as_commit` says.
pub closed spec fn commit_of_some_head(id: Seq<char>) -> bool {
    exists|head: &git2::Reference| #[trigger] reads_as_commit(head, id)
}

/// `id` is the id, as text, of a commit that the reference `head` was
/// peeled to.
pub closed spec fn reads_as_commit<'r>(head: &git2::Reference<'r>, id: Seq<char>) -> bool {
    exists|c: git2::Commit<'r>, t: String|
        call_ensures(reference_peel_to_commit, (head,), Ok::<git2::Commit<'r>, git2::Error>(c))
            && #[trigger] call_ensures(commit_id_text, (&c,), t) && t@ == id && is_commit_id(id)
}

/// Every read of `head` says that it is a branch.
pub closed spec fn head_is_branch<'r>(head: &git2::Reference<'r>) -> bool {
    forall|b: bool| #[trigger] call_ensures(reference_is_branch, (head,), b) ==> b
}

/// Every read of `head` says that it is not a branch.
pub closed spec fn head_is_detached<'r>(head: &git2::Reference<'r>) -> bool {
    forall|b: bool| #[trigger] call_ensures(reference_is_branch, (head,), b) ==> !b
}

/// Every read of the short name of `head` gives `name`.
pub closed spec fn head_short_name<'r>(head: &git2::Reference<'r>, name: Seq<char>) -> bool {
    forall|sh: Result<String, git2::Error>|
        #[trigger] call_ensures(reference_shorthand, (head,), sh) ==> (sh matches Ok(t) && t@
            == name)
}

/// Every commit that `head` is peeled to has the id `id`.
pub closed spec fn head_commit_id<'r>(head: &git2::Reference<'r>, id: Seq<char>) -> bool {
    forall|c: git2::Commit<'r>, t: String|
        call_ensures(reference_peel_to_commit, (head,), Ok::<git2::Commit<'r>, git2::Error>(c))
            && #[trigger] call_ensures(commit_id_text, (&c,), t) ==> t@ == id
}

/// A HEAD on a branch reads as the branch's short name: nothing cut off,
/// nothing added.
pub proof fn law_branch_reads_as_its_short_name<'r>(
    head: &git2::Reference<'r>,
    name: Seq<char>,
    label: Seq<char>,
)
    requires
        head_is_branch(head),
        head_short_name(head, name),
        reads_as_label(head, label),
    ensures
        label == name,
{
    if call_ensures(reference_is_branch, (head,), false) {
        assert(false);
    }
    let sh = choose|sh: Result<String, git2::Error>|
        #[trigger] call_ensures(reference_shorthand, (head,), sh) && label == branch_label_text(
            HeadKind::Branch(sh),
        );
    assert(sh matches Ok(t) && t@ == name);
}

/// A detached HEAD reads as the id of its commit, never as a branch name or
/// `"HEAD"`; and its commit id is that same text.
pub proof fn law_detached_head_reads_as_its_commit_id<'r>(
    head: &git2::Reference<'r>,
    id: Seq<char>,
    label: Seq<char>,
    commit: Seq<char>,
)
    requires
        head_is_detached(head),
        head_commit_id(head, id),
        reads_as_label(head, label),
        reads_as_commit(head, commit),
    ensures
        label == id,
        commit == id,
        label == commit,
        is_commit_id(label),
        label != "HEAD"@,
{
    if call_ensures(reference_is_branch, (head,), true) {
        assert(false);
    }
    assert(reads_as_commit(head, label));
    let (c, t) = choose|c: git2::Commit<'r>, t: String|
        call_ensures(reference_peel_to_commit, (head,), Ok::<git2::Commit<'r>, git2::Error>(c))
            && #[trigger] call_ensures(commit_id_text, (&c,), t) && t@ == label && is_commit_id(
            label,
        );
    let (c2, t2) = choose|c: git2::Commit<'r>, t: String|
        call_ensures(reference_peel_to_commit, (head,), Ok::<git2::Commit<'r>, git2::Error>(c))
            && #[trigger] call_ensures(commit_id_text, (&c,), t) && t@ == commit && is_commit_id(
            commit,
        );
    assert(t@ == id);
    assert(t2@ == id);
    reveal_strlit("HEAD");
    assert(label.len() == 40);
}

/// What HEAD is, given whether a read of it said it is a branch
/// (`is_branch`): for a branch its short name, otherwise the id of the
/// commit it is detached at.
fn read_head<'r>(head: &git2::Reference<'r>, is_branch: bool) -> (r: Result<HeadKind, GitError>)
    requires
        call_ensures(reference_is_branch, (head,), is_branch),
    ensures
        r matches Ok(k) ==> (k is Branch) == is_branch,
        r is Err ==> !is_branch,
        r matches Err(e) ==> e is Git,
        r matches Ok(HeadKind::Detached(id)) ==> is_commit_id(id@),
        r matches Ok(k) ==> reads_as_label(head, branch_label_text(k)),
{
    if is_branch {
        let sh = reference_shorthand(head);
        assert(call_ensures(reference_shorthand, (head,), sh));
        Ok(HeadKind::Branch(sh))
    } else {
        let peeled = reference_peel_to_commit(head);
        let ghost raw = peeled;
        match git_outcome(peeled) {
            Ok(c) => {
                let id = commit_id_text(&c);
                assert(call_ensures(reference_peel_to_commit, (head,), raw));
                assert(raw == Ok::<git2::Commit<'r>, git2::Error>(c));
                assert(call_ensures(commit_id_text, (&c,), id));
                assert(reads_as_commit(head, id@));
                Ok(HeadKind::Detached(id))
            },
            Err(e) => Err(e),
        }
    }
}

/// `label` is the label of some HEAD: a branch's short name, `"HEAD"`, or
/// the forty-digit id of the commit a detached HEAD is at.
pub open spec fn is_head_label(label: Seq<char>) -> bool {
    exists|k: HeadKind|
        #[trigger] branch_label_text(k) == label && (k matches HeadKind::Detached(id)
            ==> is_commit_id(id@))
}

/// Reads the current branch name of the repository at `repo_path`.
///
/// For a detached HEAD there is no branch name; then the full commit id of
/// HEAD is returned, so the caller always has a usable value.
pub fn read_branch(repo_path: &str) -> (r: Result<String, GitError>)
    ensures
        r matches Err(e) ==> e is Git,
        r matches Ok(s) ==> is_head_label(s@),
        r matches Ok(s) ==> read_from_some_head(s@),
{
    let repo = match git_outcome(discover_repository(repo_path)) {
        Ok(repo) => repo,
        Err(e) => return Err(e),
    };
    let head = match git_outcome(repository_head(&repo)) {
        Ok(h) => h,
        Err(e) => return Err(e),
    };
    let is_branch = reference_is_branch(&head);
    assert(call_ensures(reference_is_branch, (&head,), is_branch));
    match read_head(&head, is_branch) {
        Ok(kind) => {
            let ghost k = kind;
            let label = branch_label(kind);
            assert(branch_label_text(k) == label@);
            assert(reads_as_label(&head, label@));
            assert(read_from_some_head(label@));
            Ok(label)
        },
        Err(e) => Err(e),
    }
}

/// The working directory of a repository, where it has one; a bare
/// repository has none.
pub fn workdir_or_bare(workdir: Option<String>) -> (r: Result<String, GitError>)
    ensures
        match workdir {
            Some(w) => (r matches Ok(d) && d@ == w@),
            None => (r matches Err(e) && e is BareRepository),
        },
{
    match workdir {
        Some(w) => Ok(w),
        None => Err(GitError::BareRepository),
    }
}

/// The git context made of a working directory, a branch label, a commit
/// id and the changed files.
pub fn context_of(repo_path: String, branch: String, commit_hash: String, changed_files: Vec<
    String,
>) -> (ctx: GitContext)
    ensures
        ctx.repo_path == repo_path,
        ctx.branch == branch,
        ctx.commit_hash == commit_hash,
        ctx.changed_files == changed_files,
{
    GitContext { repo_path, branch, commit_hash, changed_files }
}

/// Assembles the git context of the repository at `repo_path`, which may be
/// the repository root or any directory inside it: the working directory,
/// the current branch, the commit id of HEAD and the changed files.
pub fn read_git_context(repo_path: &str) -> (r: Result<GitContext, GitError>)
    ensures
        r matches Err(e) ==> e is Git || e is BareRepository,
        r matches Ok(ctx) ==> is_commit_id(ctx.commit_hash@) && strictly_sorted(
            texts(ctx.changed_files@),
        ) && is_head_label(ctx.branch@),
        r matches Ok(ctx) ==> read_from_some_head(ctx.branch@) && commit_of_some_head(
            ctx.commit_hash@,
        ) && lists_status_paths(ctx.changed_files@),
{
    let repo = match git_outcome(discover_repository(repo_path)) {
        Ok(repo) => repo,
        Err(e) => return Err(e),
    };
    let workdir = match workdir_or_bare(repository_workdir(&repo)) {
        Ok(w) => w,
        Err(e) => return Err(e),
    };
    let branch = match read_branch(repo_path) {
        Ok(b) => b,
        Err(e) => return Err(e),
    };
    let head = match git_outcome(repository_head(&repo)) {
        Ok(h) => h,
        Err(e) => return Err(e),
    };
    let peeled = reference_peel_to_commit(&head);
    let ghost raw = peeled;
    let commit = match git_outcome(peeled) {
        Ok(c) => c,
        Err(e) => return Err(e),
    };
    let commit_hash = commit_id_text(&commit);
    assert(call_ensures(reference_peel_to_commit, (&head,), raw));
    assert(call_ensures(commit_id_text, (&commit,), commit_hash));
    assert(reads_as_commit(&head, commit_hash@));
    assert(commit_of_some_head(commit_hash@));
    let changed_files = match collect_changed_files(&repo) {
        Ok(files) => files,
        Err(e) => return Err(e),
    };
    Ok(context_of(workdir, branch, commit_hash, changed_files))
}

/// The text of an optional string.
pub open spec fn opt_text(s: Option<String>) -> Option<Seq<char>> {
    match s {
        Some(t) => Some(t@),
        None => None,
    }
}

/// The repository that detection answers, given what is remembered and
/// what the active window led to; it is also what is remembered afterwards.
pub open spec fn detected_repo(remembered: Option<Seq<char>>, found: Option<Seq<char>>) -> Option<
    Seq<char>,
> {
    match found {
        Some(p) => Some(p),
        None => remembered,
    }
}

/// The last repository that was detected successfully.
pub struct RepoMemory {
    last: Option<String>,
}

impl View for RepoMemory {
    type V = Option<Seq<char>>;

    closed spec fn view(&self) -> Option<Seq<char>> {
        opt_text(self.last)
    }
}

impl RepoMemory {
    /// Nothing remembered yet.
    pub fn new() -> (m: Self)
        ensures
            m@ == None::<Seq<char>>,
    {
        RepoMemory { last: None }
    }
}

/// Remembers `path` as the last detected repository.
pub fn remember_repo(memory: &mut RepoMemory, path: &str)
    ensures
        final(memory)@ == Some(path@),
{
    memory.last = Some(String::from_str(path));
}

/// The last detected repository, if any.
pub fn read_remembered_repo(memory: &RepoMemory) -> (r: Option<String>)
    ensures
        opt_text(r) == memory@,
{
    match &memory.last {
        Some(s) => Some(s.clone()),
        None => None,
    }
}

/// What the active-window lookup led to: a failed lookup resolves no
/// window.
pub open spec fn found_by(active: Result<Option<String>, GitError>) -> Option<Seq<char>> {
    match active {
        Ok(found) => opt_text(found),
        Err(_) => None,
    }
}

/// Resolves the repository to work in.
///
/// Detection order: the repository of the currently active window
/// (`active`, as the caller found it); if no active window can be resolved
/// (the lookup found none, or failed, as where the platform has no X11),
/// the last repository that was detected successfully; otherwise `None`.
/// A repository found through the active window is remembered.
pub fn detect_repo(memory: &mut RepoMemory, active: Result<Option<String>, GitError>) -> (r: Result<
    Option<String>,
    GitError,
>)
    ensures
        r matches Ok(o) && opt_text(o) == detected_repo(old(memory)@, found_by(active)),
        final(memory)@ == detected_repo(old(memory)@, found_by(active)),
{
    match active {
        Ok(Some(path)) => {
            remember_repo(memory, path.as_str());
            Ok(Some(path))
        },
        Ok(None) => Ok(read_remembered_repo(memory)),
        Err(_) => Ok(read_remembered_repo(memory)),
    }
}

/// Once a repository has been found through the active window, a later
/// detection that resolves no window answers that repository.
pub proof fn law_fallback_answers_last_detected(remembered: Option<Seq<char>>, path: Seq<char>)
    ensures
        detected_repo(detected_repo(remembered, Some(path)), None) == Some(path),
{
}

/// A detection that resolves no window neither forgets nor changes what is
/// remembered, however often it is repeated.
pub proof fn law_fallback_keeps_memory(remembered: Option<Seq<char>>)
    ensures
        detected_repo(remembered, None) == remembered,
{
}

/// A failed window lookup resolves no window: detection answers what is
/// remembered and keeps it.
pub proof fn law_failed_lookup_answers_remembered(remembered: Option<Seq<char>>, e: GitError)
    ensures
        detected_repo(remembered, found_by(Err(e))) == remembered,
{
}

/// The active window named by the first value of the `_NET_ACTIVE_WINDOW`
/// property; a missing value or window 0 means that there is none.
pub fn active_window_id(first_value: Option<u32>) -> (w: Option<u32>)
    ensures
        w == (match first_value {
            Some(v) => if v != 0 { Some(v) } else { None },
            None => None,
        }),
{
    match first_value {
        Some(v) => if v != 0 { Some(v) } else { None },
        None => None,
    }
}

/// `Path::parent`: the path without its final component; nothing for a
/// path that ends in a root or prefix, or for the empty path.
pub uninterp spec fn path_parent(path: Seq<char>) -> Option<Seq<char>>;

/// `std::path::Path::parent`, as text. The parent is named `path_parent`;
/// as std builds it by dropping the final component, it is a proper prefix
/// of the path.
#[verifier::external_body]
fn parent_path(path: &str) -> (parent: Option<String>)
    ensures
        opt_text(parent) == path_parent(path@),
        parent matches Some(q) ==> q@.len() < path@.len() && q@ == path@.subrange(0, q@.len() as int),
{
    match std::path::Path::new(path).parent() {
        Some(p) => Some(p.to_string_lossy().into_owned()),
        None => None,
    }
}

/// One step of the upward search for the repository that encloses a
/// directory.
#[derive(Debug, PartialEq, Eq)]
pub enum RepoSearch {
    /// The directory holds a `.git` entry: it is the repository.
    Found(String),
    /// Go on with this directory, the parent of the one just probed.
    Continue(String),
    /// The root was reached without finding a repository.
    Exhausted,
}

/// Decides the next step of the walk upward from a directory towards the
/// nearest one that contains a `.git` entry (a directory, or a gitfile as
/// used by worktrees and submodules). `has_git` tells whether `dir` holds
/// one. Each step either ends the walk or moves to a strictly shorter path,
/// so the walk ends.
pub fn repo_search_step(dir: &str, has_git: bool) -> (step: RepoSearch)
    ensures
        has_git ==> (step matches RepoSearch::Found(d) && d@ == dir@),
        !has_git ==> match path_parent(dir@) {
            Some(p) => (step matches RepoSearch::Continue(d) && d@ == p && d@.len() < dir@.len()),
            None => step is Exhausted,
        },
{
    if has_git {
        RepoSearch::Found(String::from_str(dir))
    } else {
        match parent_path(dir) {
            Some(p) => RepoSearch::Continue(p),
            None => RepoSearch::Exhausted,
        }
    }
}

} // verus!
