//! The version-control backend: every call into `git2`, and the few into
//! `std::path`, that the rest of the crate makes.
//!
//! Nothing in this file is proved. Each function makes one call and converts
//! what goes in and what comes out; what a call returns depends on the
//! repository on disk, so almost none of them promises anything of its result.
//! The callers are verified for every value that can come back.

use git2::{Branch, Commit, Object, Oid, Reference, Repository, Worktree};
use std::path::PathBuf;
use vstd::prelude::*;

verus! {

#[verifier::external_type_specification]
#[verifier::external_body]
pub struct ExRepository(git2::Repository);

#[verifier::external_type_specification]
#[verifier::external_body]
pub struct ExBackendError(git2::Error);

#[verifier::external_type_specification]
#[verifier::external_body]
pub struct ExReference<'repo>(git2::Reference<'repo>);

#[verifier::external_type_specification]
#[verifier::external_body]
pub struct ExCommit<'repo>(git2::Commit<'repo>);

#[verifier::external_type_specification]
#[verifier::external_body]
pub struct ExBranch<'repo>(git2::Branch<'repo>);

#[verifier::external_type_specification]
#[verifier::external_body]
pub struct ExObject<'repo>(git2::Object<'repo>);

#[verifier::external_type_specification]
#[verifier::external_body]
pub struct ExWorktree(git2::Worktree);

#[verifier::external_type_specification]
#[verifier::external_body]
pub struct ExOid(git2::Oid);

#[verifier::external_type_specification]
#[verifier::external_body]
pub struct ExPathBuf(std::path::PathBuf);

/// `git2::Repository::discover`: looks for a repository at `start` or above
/// it. Nothing is claimed of the result.
#[verifier::external_body]
pub(crate) fn discover_repository(start: &str) -> (r: Result<Repository, git2::Error>) {
    Repository::discover(start)
}

/// `git2::Repository::open`: opens the repository rooted at `path`. Nothing is
/// claimed of the result.
#[verifier::external_body]
pub(crate) fn open_repository(path: &PathBuf) -> (r: Result<Repository, git2::Error>) {
    Repository::open(path)
}

/// `git2::Repository::workdir`: the working directory, `None` for a bare
/// repository. The borrowed path is copied into an owned one.
#[verifier::external_body]
pub(crate) fn repository_workdir(repo: &Repository) -> (r: Option<PathBuf>) {
    repo.workdir().map(|p| p.to_path_buf())
}

/// `git2::Repository::head`: the reference that HEAD resolves to. Nothing is
/// claimed of the result.
#[verifier::external_body]
pub(crate) fn repository_head(repo: &Repository) -> (r: Result<Reference<'_>, git2::Error>) {
    repo.head()
}

/// `git2::Reference::shorthand`: the short name of a reference, `None` when it
/// is not valid UTF-8. The borrowed name is copied into an owned one.
#[verifier::external_body]
pub(crate) fn reference_shorthand(reference: &Reference<'_>) -> (r: Option<String>) {
    reference.shorthand().map(|s| s.to_string())
}

/// `git2::Reference::name`: the full name of a reference, `None` when it is
/// not valid UTF-8. The borrowed name is copied into an owned one.
#[verifier::external_body]
pub(crate) fn reference_name(reference: &Reference<'_>) -> (r: Option<String>) {
    reference.name().map(|s| s.to_string())
}

/// `git2::Reference::is_branch`: whether the reference is a local branch.
#[verifier::external_body]
pub(crate) fn reference_is_branch(reference: &Reference<'_>) -> (r: bool) {
    reference.is_branch()
}

/// `git2::Reference::target`: the commit id of a direct reference, `None` for
/// a symbolic one.
#[verifier::external_body]
pub(crate) fn reference_target(reference: &Reference<'_>) -> (r: Option<Oid>) {
    reference.target()
}

/// `git2::Reference::peel_to_commit`: follows the reference down to a commit.
/// Nothing is claimed of the result.
#[verifier::external_body]
pub(crate) fn reference_peel_to_commit<'repo>(reference: &Reference<'repo>) -> (r: Result<
    Commit<'repo>,
    git2::Error,
>) {
    reference.peel_to_commit()
}

/// `git2::Commit::id`: the id of a commit.
#[verifier::external_body]
pub(crate) fn commit_id(commit: &Commit<'_>) -> (r: Oid) {
    commit.id()
}

/// `git2::Repository::find_commit`: looks a commit up by its id. Nothing is
/// claimed of the result.
#[verifier::external_body]
pub(crate) fn find_commit(repo: &Repository, id: Oid) -> (r: Result<Commit<'_>, git2::Error>) {
    repo.find_commit(id)
}

/// `git2::Repository::find_reference`: looks a reference up by its full name.
/// Nothing is claimed of the result.
#[verifier::external_body]
pub(crate) fn find_reference<'repo>(repo: &'repo Repository, name: &str) -> (r: Result<
    Reference<'repo>,
    git2::Error,
>) {
    repo.find_reference(name)
}

/// `git2::Repository::branch`: creates a local branch `name` at `target`,
/// replacing an existing one only when `force` is set. Nothing is claimed of
/// the result.
#[verifier::external_body]
pub(crate) fn create_branch<'repo>(
    repo: &'repo Repository,
    name: &str,
    target: &Commit<'_>,
    force: bool,
) -> (r: Result<Branch<'repo>, git2::Error>) {
    repo.branch(name, target, force)
}

/// `git2::Branch::get`: the reference that a branch is.
#[verifier::external_body]
pub(crate) fn branch_reference<'a, 'repo>(branch: &'a Branch<'repo>) -> (r: &'a Reference<'repo>) {
    branch.get()
}

/// `git2::Repository::find_branch`, asked for a local branch. Nothing is
/// claimed of the result.
#[verifier::external_body]
pub(crate) fn find_local_branch<'repo>(repo: &'repo Repository, name: &str) -> (r: Result<
    Branch<'repo>,
    git2::Error,
>) {
    repo.find_branch(name, git2::BranchType::Local)
}

/// `git2::Branch::upstream`: the remote-tracking branch that a local branch is
/// configured to follow. Nothing is claimed of the result.
#[verifier::external_body]
pub(crate) fn branch_upstream<'repo>(branch: &Branch<'repo>) -> (r: Result<
    Branch<'repo>,
    git2::Error,
>) {
    branch.upstream()
}

/// `git2::Repository::revparse_single`: the object that a revision string
/// names. Nothing is claimed of the result.
#[verifier::external_body]
pub(crate) fn revparse_single<'repo>(repo: &'repo Repository, spec: &str) -> (r: Result<
    Object<'repo>,
    git2::Error,
>) {
    repo.revparse_single(spec)
}

/// `git2::Repository::checkout_tree` with the default options: brings index
/// and working tree to the tree of `treeish`. Nothing is claimed of the result.
#[verifier::external_body]
pub(crate) fn checkout_tree(repo: &Repository, treeish: &Object<'_>) -> (r: Result<
    (),
    git2::Error,
>) {
    repo.checkout_tree(treeish, None)
}

/// `git2::Repository::set_head`: points HEAD at the reference `refname`.
/// Nothing is claimed of the result.
#[verifier::external_body]
pub(crate) fn set_head(repo: &Repository, refname: &str) -> (r: Result<(), git2::Error>) {
    repo.set_head(refname)
}

/// `git2::Branch::delete`: deletes a branch. Nothing is claimed of the
/// result.
#[verifier::external_body]
pub(crate) fn branch_delete(branch: &mut Branch<'_>) -> (r: Result<(), git2::Error>) {
    branch.delete()
}

/// `git2::Branch::set_upstream`: makes a local branch follow the branch
/// `upstream_name`; the backend writes the tracking configuration in this one
/// operation. Nothing is claimed of the result.
#[verifier::external_body]
pub(crate) fn branch_set_upstream(branch: &mut Branch<'_>, upstream_name: &str) -> (r: Result<
    (),
    git2::Error,
>) {
    branch.set_upstream(Some(upstream_name))
}

/// `git2::Repository::worktree`: creates the worktree `name` at `path`, with
/// add options that check out `reference`. The handle that comes back is
/// dropped. Nothing is claimed of the result.
#[verifier::external_body]
pub(crate) fn add_worktree(
    repo: &Repository,
    name: &str,
    path: &PathBuf,
    reference: &Reference<'_>,
) -> (r: Result<(), git2::Error>) {
    let mut options = git2::WorktreeAddOptions::new();
    options.reference(Some(reference));
    repo.worktree(name, path, Some(&options)).map(|_| ())
}

/// `git2::Repository::statuses`: the number of entries in the status list
/// taken with the three inclusion flags as given. Nothing is claimed of the
/// result.
#[verifier::external_body]
pub(crate) fn status_entry_count(
    repo: &Repository,
    include_untracked: bool,
    include_ignored: bool,
    include_unmodified: bool,
) -> (r: Result<usize, git2::Error>) {
    let mut options = git2::StatusOptions::new();
    options.include_untracked(include_untracked);
    options.include_ignored(include_ignored);
    options.include_unmodified(include_unmodified);
    repo.statuses(Some(&mut options)).map(|s| s.len())
}

/// `git2::Repository::worktrees`: the names of the linked worktrees, in the
/// order the backend lists them; `None` stands for a name that is not valid
/// UTF-8. Each borrowed name is copied into an owned one. Nothing is claimed
/// of the result.
#[verifier::external_body]
pub(crate) fn worktree_names(repo: &Repository) -> (r: Result<Vec<Option<String>>, git2::Error>) {
    repo.worktrees().map(|names| names.iter().map(|n| n.map(|s| s.to_string())).collect())
}

/// `git2::Repository::find_worktree`: opens a linked worktree by its name.
/// Nothing is claimed of the result.
#[verifier::external_body]
pub(crate) fn find_worktree(repo: &Repository, name: &str) -> (r: Result<Worktree, git2::Error>) {
    repo.find_worktree(name)
}

/// `git2::Worktree::path`: the root of a worktree. The borrowed path is copied
/// into an owned one.
#[verifier::external_body]
pub(crate) fn worktree_path(worktree: &Worktree) -> (r: PathBuf) {
    worktree.path().to_path_buf()
}

/// `git2::Worktree::prune` with the default options: removes the metadata of a
/// worktree whose files are gone. Nothing is claimed of the result.
#[verifier::external_body]
pub(crate) fn worktree_prune(worktree: &Worktree) -> (r: Result<(), git2::Error>) {
    worktree.prune(None)
}

/// `git2::Repository::find_remote`: looks a remote up by its name. The handle
/// that comes back is dropped. Nothing is claimed of the result.
#[verifier::external_body]
pub(crate) fn find_remote(repo: &Repository, name: &str) -> (r: Result<(), git2::Error>) {
    repo.find_remote(name).map(|_| ())
}

/// `git2::Repository::branches`, asked for remote-tracking branches: the name
/// of each (`git2::Branch::name`, `None` when it is not valid UTF-8), in the
/// order the backend lists them, or the first error met on the way. Nothing is
/// claimed of the result.
#[verifier::external_body]
pub(crate) fn remote_branch_names(repo: &Repository) -> (r: Result<
    Vec<Option<String>>,
    git2::Error,
>) {
    let found = repo.branches(Some(git2::BranchType::Remote))?;
    found.map(|item| item.and_then(|(b, _)| b.name().map(|n| n.map(|s| s.to_string())))).collect()
}

/// `git2::Repository::graph_ahead_behind`: how many commits are reachable from
/// `local` and not from `upstream`, and the other way round. Nothing is
/// claimed of the result.
#[verifier::external_body]
pub(crate) fn graph_ahead_behind(repo: &Repository, local: Oid, upstream: Oid) -> (r: Result<
    (usize, usize),
    git2::Error,
>) {
    repo.graph_ahead_behind(local, upstream)
}

/// `git2::Error::message`: the text of a backend error, copied into an owned
/// string.
#[verifier::external_body]
pub(crate) fn error_message(error: &git2::Error) -> (r: String) {
    error.message().to_string()
}

/// `PathBuf::clone`: a copy of a path, equal to the path.
#[verifier::external_body]
pub(crate) fn clone_path(path: &PathBuf) -> (r: PathBuf)
    ensures
        r == *path,
{
    path.clone()
}

/// `Path::parent`: the path without its last component, `None` for a root or
/// an empty path. The borrowed path is copied into an owned one.
#[verifier::external_body]
pub(crate) fn path_parent(path: &PathBuf) -> (r: Option<PathBuf>) {
    path.parent().map(|p| p.to_path_buf())
}

/// `Path::join`: `base` with `name` appended as a further component.
#[verifier::external_body]
pub(crate) fn path_join(base: &PathBuf, name: &str) -> (r: PathBuf) {
    base.join(name)
}

} // verus!
