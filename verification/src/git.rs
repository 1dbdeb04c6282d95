//! Opening the repository, listing the branches of `origin`, and creating a
//! local branch, or a branch and a worktree, from one of them.
//!
//! Every function here that talks to the backend can fail wherever the
//! backend does. What it promises is which failure it reports for which step,
//! with the name of the branch that the step was about, and what it hands to
//! the backend: the reference names and the tracking configuration are
//! computed by functions with exact contracts.

use crate::backend::{
    add_worktree, branch_delete, branch_reference, branch_set_upstream, checkout_tree, commit_id,
    create_branch, discover_repository, error_message, find_commit, find_local_branch,
    find_reference, find_remote, path_join, path_parent, reference_name,
    reference_peel_to_commit, remote_branch_names, repository_workdir, revparse_single, set_head,
};
use crate::text::{join, same_text, strip_prefix, spec_strip_prefix};
use git2::Repository;
use std::path::PathBuf;
use vstd::prelude::*;
use vstd::string::*;

verus! {

/// What went wrong.
#[derive(Clone, Copy, Debug, PartialEq, Eq, Structural)]
pub enum ErrorKind {
    /// No repository at the starting directory or above it.
    NotARepository,
    /// The repository has no remote named `origin`.
    MissingOrigin,
    /// The backend could not enumerate its branches or worktrees.
    Enumeration,
    /// The remote-tracking branch does not exist; a fetch may bring it.
    RemoteRefNotFound,
    /// The remote-tracking branch does not lead to a commit.
    CommitUnresolvable,
    /// The commit could not be looked up again by its id.
    CommitLookupFailed,
    /// The local branch could not be created; its name may be taken.
    BranchNameCollision,
    /// The branch was created and could not be looked up afterwards.
    BranchLookupFailed,
    /// Local changes stand in the way of switching the working directory. The
    /// new branch was removed again: nothing has changed.
    CheckoutBlocked,
    /// Local changes stand in the way of switching the working directory, and
    /// the new branch could not be removed again.
    RollbackFailed,
    /// The name of the new branch's reference is not valid text.
    InvalidBranchRef,
    /// HEAD could not be pointed at the new branch.
    HeadUpdateFailed,
    /// The branch was created and the worktree could not be.
    WorktreeCreateFailed,
    /// The tracking configuration could not be written.
    ConfigWriteFailure,
    /// The worktree's metadata could not be pruned.
    PruneFailed,
    /// The repository has no working directory to put a worktree beside.
    BareRepository,
    /// The working directory has no directory above it.
    NoParentDirectory,
}

/// A failed operation: what went wrong, the branch, remote or worktree it went
/// wrong for, and what the backend said.
#[derive(Debug, PartialEq, Eq)]
pub struct GitError {
    pub kind: ErrorKind,
    pub subject: String,
    pub detail: String,
}

impl GitError {
    /// The error is of `kind` and about `subject`.
    pub open spec fn is(self, kind: ErrorKind, subject: Seq<char>) -> bool {
        self.kind == kind && self.subject@ == subject
    }
}

/// Whether a failure of this kind, out of a provisioning operation, leaves the
/// new local branch behind: the branch is created before the step that
/// failed, and it is not rolled back. A checkout that local changes block is
/// no such failure: the branch is removed again before it is reported.
pub open spec fn spec_leaves_branch(kind: ErrorKind) -> bool {
    kind == ErrorKind::BranchLookupFailed || kind == ErrorKind::RollbackFailed || kind
        == ErrorKind::InvalidBranchRef || kind == ErrorKind::HeadUpdateFailed || kind
        == ErrorKind::WorktreeCreateFailed || kind == ErrorKind::ConfigWriteFailure
}

/// Whether a failure of this kind leaves the new local branch behind.
pub fn leaves_branch(kind: ErrorKind) -> (left: bool)
    ensures
        left == spec_leaves_branch(kind),
{
    match kind {
        ErrorKind::BranchLookupFailed => true,
        ErrorKind::RollbackFailed => true,
        ErrorKind::InvalidBranchRef => true,
        ErrorKind::HeadUpdateFailed => true,
        ErrorKind::WorktreeCreateFailed => true,
        ErrorKind::ConfigWriteFailure => true,
        _ => false,
    }
}

/// An error of `kind` about `subject`, with the backend's message.
pub fn failure(kind: ErrorKind, subject: &str, cause: &git2::Error) -> (e: GitError)
    ensures
        e.is(kind, subject@),
{
    GitError { kind, subject: subject.to_string(), detail: error_message(cause) }
}

/// An error of `kind` about `subject` that the backend had no part in.
pub fn refusal(kind: ErrorKind, subject: &str) -> (e: GitError)
    ensures
        e.is(kind, subject@),
        e.detail@ == Seq::<char>::empty(),
{
    GitError { kind, subject: subject.to_string(), detail: String::new() }
}

/// The name of the remote that branches are taken from.
pub open spec fn spec_origin() -> Seq<char> {
    "origin"@
}

/// The full name of the remote-tracking reference of `remote_branch`.
pub open spec fn spec_remote_tracking_ref(remote_branch: Seq<char>) -> Seq<char> {
    "refs/remotes/origin/"@ + remote_branch
}

/// The full name of the reference of the local branch `name`.
pub open spec fn spec_local_branch_ref(name: Seq<char>) -> Seq<char> {
    "refs/heads/"@ + name
}

/// The name under which the backend knows the branch that `upstream`
/// follows: the remote, a slash, and what follows `refs/heads/` in the
/// reference. A reference that is no branch of the remote has none.
pub open spec fn spec_tracked_branch(upstream: Upstream) -> Option<Seq<char>> {
    match spec_strip_prefix(upstream.remote_ref@, "refs/heads/"@) {
        Some(branch) => Some(upstream.remote_name@ + "/"@ + branch),
        None => None,
    }
}

/// The name that a branch cut from `remote_branch` at `timestamp` gets.
pub open spec fn spec_provision_name(remote_branch: Seq<char>, timestamp: Seq<char>) -> Seq<char> {
    remote_branch + "-"@ + timestamp
}

/// The short name of a remote-tracking branch of `origin`: what follows
/// `origin/`. `origin/HEAD` has none, nor has a branch of another remote.
pub open spec fn spec_short_name(name: Seq<char>) -> Option<Seq<char>> {
    match spec_strip_prefix(name, "origin/"@) {
        Some(short) => if short == "HEAD"@ {
            None
        } else {
            Some(short)
        },
        None => None,
    }
}

/// The short names of those of `names` that have one, in order. `None` stands
/// for a name that is not valid text.
pub open spec fn spec_short_names(names: Seq<Option<String>>) -> Seq<Seq<char>>
    decreases names.len(),
{
    if names.len() == 0 {
        Seq::empty()
    } else {
        let earlier = spec_short_names(names.drop_last());
        match names.last() {
            Some(name) => match spec_short_name(name@) {
                Some(short) => earlier.push(short),
                None => earlier,
            },
            None => earlier,
        }
    }
}

/// `HEAD` is never among the short names.
pub proof fn lemma_head_is_never_listed(names: Seq<Option<String>>)
    ensures
        forall|i: int|
            0 <= i < spec_short_names(names).len() ==> #[trigger] spec_short_names(names)[i]
                != "HEAD"@,
    decreases names.len(),
{
    if names.len() > 0 {
        let earlier = spec_short_names(names.drop_last());
        lemma_head_is_never_listed(names.drop_last());
        assert forall|i: int| 0 <= i < spec_short_names(names).len() implies #[trigger] spec_short_names(
            names,
        )[i] != "HEAD"@ by {
            if i < earlier.len() {
                assert(spec_short_names(names)[i] == earlier[i]);
            }
        }
    }
}

/// The full name of the remote-tracking reference of `remote_branch`.
pub fn remote_tracking_ref(remote_branch: &str) -> (name: String)
    ensures
        name@ == spec_remote_tracking_ref(remote_branch@),
{
    join("refs/remotes/origin/", remote_branch)
}

/// The full name of the reference of the local branch `name`.
pub fn local_branch_ref(name: &str) -> (full: String)
    ensures
        full@ == spec_local_branch_ref(name@),
{
    join("refs/heads/", name)
}

/// The name for a branch cut from `remote_branch` at `timestamp`: the two
/// joined by a hyphen, so that repeated cuts from one remote branch do not
/// collide and can be told apart.
pub fn provision_name(remote_branch: &str, timestamp: &str) -> (name: String)
    ensures
        name@ == spec_provision_name(remote_branch@, timestamp@),
{
    let stem = join(remote_branch, "-");
    stem.concat(timestamp)
}

/// The tracking configuration of a local branch: the remote it follows and the
/// reference it follows there.
#[derive(Debug, PartialEq, Eq)]
pub struct Upstream {
    pub remote_name: String,
    pub remote_ref: String,
}

impl Upstream {
    /// This configuration follows `remote_branch` on `origin`.
    pub open spec fn tracks(self, remote_branch: Seq<char>) -> bool {
        self.remote_name@ == spec_origin() && self.remote_ref@ == spec_local_branch_ref(
            remote_branch,
        )
    }
}

/// The tracking configuration that follows `remote_branch` on `origin`.
pub fn tracking_for(remote_branch: &str) -> (upstream: Upstream)
    ensures
        upstream.tracks(remote_branch@),
{
    Upstream { remote_name: "origin".to_string(), remote_ref: local_branch_ref(remote_branch) }
}

/// The name under which the backend knows the branch that `upstream`
/// follows.
pub fn tracked_branch(upstream: &Upstream) -> (name: Option<String>)
    ensures
        name is Some <==> spec_tracked_branch(*upstream) is Some,
        name matches Some(n) ==> Some(n@) == spec_tracked_branch(*upstream),
{
    match strip_prefix(upstream.remote_ref.as_str(), "refs/heads/") {
        Some(branch) => {
            let remote = join(upstream.remote_name.as_str(), "/");
            Some(remote.concat(branch.as_str()))
        },
        None => None,
    }
}

/// The tracking configuration for `remote_branch` is known to the backend as
/// `origin/<remote_branch>`.
pub proof fn lemma_tracking_names_the_remote_branch(upstream: Upstream, remote_branch: Seq<char>)
    requires
        upstream.tracks(remote_branch),
    ensures
        spec_tracked_branch(upstream) == Some("origin/"@ + remote_branch),
{
    reveal_strlit("origin");
    reveal_strlit("/");
    reveal_strlit("origin/");
    reveal_strlit("refs/heads/");
    let prefix = "refs/heads/"@;
    let full = upstream.remote_ref@;
    assert(full.subrange(0, prefix.len() as int) =~= prefix);
    assert(full.subrange(prefix.len() as int, full.len() as int) =~= remote_branch);
    assert("origin"@ + "/"@ =~= "origin/"@);
    assert(upstream.remote_name@ + "/"@ + remote_branch =~= "origin/"@ + remote_branch);
}

/// The short name of a remote-tracking branch of `origin`.
pub fn short_name(name: &str) -> (short: Option<String>)
    ensures
        short is Some <==> spec_short_name(name@) is Some,
        short matches Some(s) ==> Some(s@) == spec_short_name(name@),
{
    match strip_prefix(name, "origin/") {
        Some(rest) => {
            if same_text(rest.as_str(), "HEAD") {
                None
            } else {
                Some(rest)
            }
        },
        None => None,
    }
}

/// The branches of `origin` among the remote-tracking branches `names`, by
/// their short names and in the order given.
pub fn select_origin_branches(names: &Vec<Option<String>>) -> (branches: Vec<String>)
    ensures
        crate::text::views(branches@) == spec_short_names(names@),
        forall|i: int| 0 <= i < branches.len() ==> (#[trigger] branches[i])@ != "HEAD"@,
{
    let mut branches: Vec<String> = Vec::new();
    let mut i: usize = 0;
    assert(names@.take(0) =~= Seq::<Option<String>>::empty());
    assert(crate::text::views(branches@) =~= Seq::<Seq<char>>::empty());
    while i < names.len()
        invariant
            i <= names.len(),
            crate::text::views(branches@) == spec_short_names(names@.take(i as int)),
        decreases names.len() - i,
    {
        let ghost before = branches@;
        let ghost seen = names@.take(i as int + 1);
        assert(seen.drop_last() =~= names@.take(i as int));
        assert(seen.last() == names@[i as int]);
        match &names[i] {
            Some(name) => {
                match short_name(name.as_str()) {
                    Some(short) => {
                        branches.push(short);
                        assert(crate::text::views(branches@) =~= crate::text::views(before).push(
                            short@,
                        ));
                    },
                    None => {},
                }
            },
            None => {},
        }
        i += 1;
    }
    assert(names@.take(names.len() as int) =~= names@);
    proof {
        lemma_head_is_never_listed(names@);
        assert forall|i: int| 0 <= i < branches.len() implies (#[trigger] branches[i])@
            != "HEAD"@ by {
            assert(crate::text::views(branches@)[i] == branches[i]@);
        }
    }
    branches
}

/// Finds the repository that the current directory belongs to.
pub fn open_repo() -> (r: Result<Repository, GitError>)
    ensures
        r matches Err(e) ==> e.is(ErrorKind::NotARepository, "."@),
{
    match discover_repository(".") {
        Ok(repo) => Ok(repo),
        Err(cause) => Err(failure(ErrorKind::NotARepository, ".", &cause)),
    }
}

/// The short names of the branches that `repo` knows of `origin`, in the
/// backend's order; `origin/HEAD` is left out.
pub fn list_remote_branches(repo: &Repository) -> (r: Result<Vec<String>, GitError>)
    ensures
        r matches Ok(branches) ==> forall|i: int|
            0 <= i < branches.len() ==> (#[trigger] branches[i])@ != "HEAD"@,
        r matches Err(e) ==> e.is(ErrorKind::MissingOrigin, spec_origin()) || e.is(
            ErrorKind::Enumeration,
            spec_origin(),
        ),
{
    match find_remote(repo, "origin") {
        Ok(_) => {},
        Err(cause) => {
            return Err(failure(ErrorKind::MissingOrigin, "origin", &cause));
        },
    }
    match remote_branch_names(repo) {
        Ok(names) => Ok(select_origin_branches(&names)),
        Err(cause) => Err(failure(ErrorKind::Enumeration, "origin", &cause)),
    }
}

/// Makes the local branch `branch` follow what `upstream` names. The backend
/// writes the tracking configuration in one operation of its own. An
/// `upstream` whose reference is no branch of its remote is refused before
/// the backend is asked.
pub fn set_upstream(repo: &Repository, branch: &str, upstream: &Upstream) -> (r: Result<
    (),
    GitError,
>)
    ensures
        r matches Err(e) ==> e.is(ErrorKind::ConfigWriteFailure, branch@),
        spec_tracked_branch(*upstream) is None ==> r is Err,
{
    let followed = match tracked_branch(upstream) {
        Some(name) => name,
        None => {
            return Err(refusal(ErrorKind::ConfigWriteFailure, branch));
        },
    };
    let mut local = match find_local_branch(repo, branch) {
        Ok(found) => found,
        Err(cause) => {
            return Err(failure(ErrorKind::ConfigWriteFailure, branch, &cause));
        },
    };
    match branch_set_upstream(&mut local, followed.as_str()) {
        Ok(_) => Ok(()),
        Err(cause) => Err(failure(ErrorKind::ConfigWriteFailure, branch, &cause)),
    }
}

/// What is reported when local changes block the checkout, given how the
/// removal of the new branch went: the blocked checkout where the branch is
/// gone again, a failed rollback where it is not.
pub open spec fn spec_blocked_kind(undone: bool) -> ErrorKind {
    if undone {
        ErrorKind::CheckoutBlocked
    } else {
        ErrorKind::RollbackFailed
    }
}

/// The error for a checkout of `new_name` that local changes blocked;
/// `undone` is what the removal of the new branch gave.
pub fn checkout_blocked(new_name: &str, cause: &git2::Error, undone: Result<(), git2::Error>) -> (e:
    GitError)
    ensures
        e.is(spec_blocked_kind(undone is Ok), new_name@),
        spec_leaves_branch(e.kind) <==> undone is Err,
{
    match undone {
        Ok(_) => failure(ErrorKind::CheckoutBlocked, new_name, cause),
        Err(still_there) => failure(ErrorKind::RollbackFailed, new_name, &still_there),
    }
}

/// What `create_and_checkout` can fail with, for these two names.
pub open spec fn checkout_failure(e: GitError, remote_branch: Seq<char>, new_name: Seq<char>) -> bool {
    ||| e.is(ErrorKind::RemoteRefNotFound, remote_branch)
    ||| e.is(ErrorKind::CommitUnresolvable, remote_branch)
    ||| e.is(ErrorKind::BranchNameCollision, new_name)
    ||| e.is(ErrorKind::BranchLookupFailed, new_name)
    ||| e.is(ErrorKind::CheckoutBlocked, new_name)
    ||| e.is(ErrorKind::RollbackFailed, new_name)
    ||| e.is(ErrorKind::InvalidBranchRef, new_name)
    ||| e.is(ErrorKind::HeadUpdateFailed, new_name)
    ||| e.is(ErrorKind::ConfigWriteFailure, new_name)
}

/// What `create_worktree` can fail with, for these two names.
pub open spec fn worktree_failure(e: GitError, remote_branch: Seq<char>, new_name: Seq<char>) -> bool {
    ||| e.is(ErrorKind::RemoteRefNotFound, remote_branch)
    ||| e.is(ErrorKind::CommitUnresolvable, remote_branch)
    ||| e.is(ErrorKind::CommitLookupFailed, remote_branch)
    ||| e.is(ErrorKind::BranchNameCollision, new_name)
    ||| e.is(ErrorKind::BranchLookupFailed, new_name)
    ||| e.is(ErrorKind::WorktreeCreateFailed, new_name)
    ||| e.is(ErrorKind::ConfigWriteFailure, new_name)
}

/// Creates the local branch `new_name` at the commit of `origin/remote_branch`,
/// switches the working directory and HEAD to it, and makes it track
/// `origin/remote_branch`.
///
/// The steps run in this order and the first that fails ends the operation.
/// A name that is taken, and local changes that block the checkout, leave
/// everything as it was: where the checkout is blocked, the branch that was
/// just created is removed again. After any later failure the branch stays
/// (see [`leaves_branch`]).
pub fn create_and_checkout(repo: &Repository, remote_branch: &str, new_name: &str) -> (r: Result<
    (),
    GitError,
>)
    ensures
        r matches Err(e) ==> checkout_failure(e, remote_branch@, new_name@),
{
    let remote_ref = remote_tracking_ref(remote_branch);
    let reference = match find_reference(repo, remote_ref.as_str()) {
        Ok(found) => found,
        Err(cause) => {
            return Err(failure(ErrorKind::RemoteRefNotFound, remote_branch, &cause));
        },
    };
    let commit = match reference_peel_to_commit(&reference) {
        Ok(found) => found,
        Err(cause) => {
            return Err(failure(ErrorKind::CommitUnresolvable, remote_branch, &cause));
        },
    };
    let mut branch = match create_branch(repo, new_name, &commit, REPLACE_EXISTING_BRANCH) {
        Ok(created) => created,
        Err(cause) => {
            return Err(failure(ErrorKind::BranchNameCollision, new_name, &cause));
        },
    };
    let local_ref = local_branch_ref(new_name);
    let tree = match revparse_single(repo, local_ref.as_str()) {
        Ok(found) => found,
        Err(cause) => {
            return Err(failure(ErrorKind::BranchLookupFailed, new_name, &cause));
        },
    };
    match checkout_tree(repo, &tree) {
        Ok(_) => {},
        Err(cause) => {
            let undone = branch_delete(&mut branch);
            return Err(checkout_blocked(new_name, &cause, undone));
        },
    }
    let head_name = match reference_name(branch_reference(&branch)) {
        Some(name) => name,
        None => {
            return Err(refusal(ErrorKind::InvalidBranchRef, new_name));
        },
    };
    match set_head(repo, head_name.as_str()) {
        Ok(_) => {},
        Err(cause) => {
            return Err(failure(ErrorKind::HeadUpdateFailed, new_name, &cause));
        },
    }
    let upstream = tracking_for(remote_branch);
    set_upstream(repo, new_name, &upstream)
}

/// Creates the local branch `new_name` at the commit of `origin/remote_branch`
/// without touching HEAD, creates a worktree of that name at `worktree_path`
/// with the branch checked out, and makes the branch track
/// `origin/remote_branch`.
///
/// Branch and worktree are two writes, not one: the commit is held only by its
/// id while the branch is created, and the branch is looked up afresh for the
/// worktree. Where the worktree cannot be created the branch is left in place
/// (see [`leaves_branch`]).
pub fn create_worktree(
    repo: &Repository,
    remote_branch: &str,
    new_name: &str,
    worktree_path: &PathBuf,
) -> (r: Result<(), GitError>)
    ensures
        r matches Err(e) ==> worktree_failure(e, remote_branch@, new_name@),
{
    let remote_ref = remote_tracking_ref(remote_branch);
    let tip = match resolve_tip(repo, remote_ref.as_str(), remote_branch) {
        Ok(id) => id,
        Err(e) => {
            return Err(e);
        },
    };
    match branch_at(repo, new_name, tip, remote_branch) {
        Ok(_) => {},
        Err(e) => {
            return Err(e);
        },
    }
    let local_ref = local_branch_ref(new_name);
    let branch_ref = match find_reference(repo, local_ref.as_str()) {
        Ok(found) => found,
        Err(cause) => {
            return Err(failure(ErrorKind::BranchLookupFailed, new_name, &cause));
        },
    };
    match add_worktree(repo, new_name, worktree_path, &branch_ref) {
        Ok(_) => {},
        Err(cause) => {
            return Err(failure(ErrorKind::WorktreeCreateFailed, new_name, &cause));
        },
    }
    let upstream = tracking_for(remote_branch);
    set_upstream(repo, new_name, &upstream)
}

/// The id of the commit that the reference `remote_ref` leads to. What was
/// borrowed from the repository to find it is given back before this returns.
fn resolve_tip(repo: &Repository, remote_ref: &str, remote_branch: &str) -> (r: Result<
    git2::Oid,
    GitError,
>)
    ensures
        r matches Err(e) ==> e.is(ErrorKind::RemoteRefNotFound, remote_branch@) || e.is(
            ErrorKind::CommitUnresolvable,
            remote_branch@,
        ),
{
    let reference = match find_reference(repo, remote_ref) {
        Ok(found) => found,
        Err(cause) => {
            return Err(failure(ErrorKind::RemoteRefNotFound, remote_branch, &cause));
        },
    };
    match reference_peel_to_commit(&reference) {
        Ok(commit) => Ok(commit_id(&commit)),
        Err(cause) => Err(failure(ErrorKind::CommitUnresolvable, remote_branch, &cause)),
    }
}

/// Creates the local branch `new_name` at the commit `tip`. What was borrowed
/// from the repository to do so is given back before this returns.
fn branch_at(repo: &Repository, new_name: &str, tip: git2::Oid, remote_branch: &str) -> (r: Result<
    (),
    GitError,
>)
    ensures
        r matches Err(e) ==> e.is(ErrorKind::CommitLookupFailed, remote_branch@) || e.is(
            ErrorKind::BranchNameCollision,
            new_name@,
        ),
{
    let commit = match find_commit(repo, tip) {
        Ok(found) => found,
        Err(cause) => {
            return Err(failure(ErrorKind::CommitLookupFailed, remote_branch, &cause));
        },
    };
    match create_branch(repo, new_name, &commit, REPLACE_EXISTING_BRANCH) {
        Ok(_) => Ok(()),
        Err(cause) => Err(failure(ErrorKind::BranchNameCollision, new_name, &cause)),
    }
}

/// A request for a new local branch, and for a worktree where a path is given.
#[derive(Debug, PartialEq, Eq)]
pub struct BranchProvisionRequest {
    /// The short name of a branch of `origin`.
    pub remote_branch: String,
    /// The name of the local branch to create.
    pub new_branch_name: String,
    /// Where to put the worktree; without it the working directory is
    /// switched to the new branch.
    pub target_path: Option<PathBuf>,
}

/// Carries a request out: a branch and a worktree where the request has a
/// path, a branch checked out in place where it has none. Either way the new
/// branch is made to track `origin/<remote_branch>`.
pub fn provision(repo: &Repository, request: &BranchProvisionRequest) -> (r: Result<(), GitError>)
    ensures
        r matches Err(e) ==> (match request.target_path {
            Some(_) => worktree_failure(e, request.remote_branch@, request.new_branch_name@),
            None => checkout_failure(e, request.remote_branch@, request.new_branch_name@),
        }),
{
    match &request.target_path {
        Some(path) => create_worktree(
            repo,
            request.remote_branch.as_str(),
            request.new_branch_name.as_str(),
            path,
        ),
        None => create_and_checkout(
            repo,
            request.remote_branch.as_str(),
            request.new_branch_name.as_str(),
        ),
    }
}

/// Where the worktree of the new branch `name` goes: beside the working
/// directory of `repo`, in a directory named like the branch.
pub fn sibling_path(repo: &Repository, name: &str) -> (r: Result<PathBuf, GitError>)
    ensures
        r matches Err(e) ==> e.is(ErrorKind::BareRepository, name@) || e.is(
            ErrorKind::NoParentDirectory,
            name@,
        ),
{
    let root = match repository_workdir(repo) {
        Some(path) => path,
        None => {
            return Err(refusal(ErrorKind::BareRepository, name));
        },
    };
    match path_parent(&root) {
        Some(above) => Ok(path_join(&above, name)),
        None => Err(refusal(ErrorKind::NoParentDirectory, name)),
    }
}

/// Whether a new branch may replace one of the same name. It may not: a name
/// that is taken fails the operation.
pub const REPLACE_EXISTING_BRANCH: bool = false;

} // verus!
