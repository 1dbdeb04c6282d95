//! Deciding whether a linked worktree may be deleted.
//!
//! A worktree is described by [`WorktreeFacts`]: what the backend reports of
//! it. [`verdict_of`] turns the facts into a [`SafetyVerdict`], checking them in
//! a fixed order and naming the first check that fails. [`evaluate_worktree`]
//! gathers the facts from the backend, stopping at the first failed check.
//! Whatever is missing or ambiguous counts against deletion.

use crate::backend::{
    branch_reference, branch_upstream, find_local_branch, find_worktree, graph_ahead_behind,
    open_repository, reference_is_branch, reference_shorthand, reference_target, repository_head,
    status_entry_count, worktree_path,
};
use crate::worktree::WorktreeEntry;
use git2::Repository;
use std::path::PathBuf;
use vstd::prelude::*;
use vstd::string::*;

verus! {

/// Why a worktree is not deleted.
#[derive(Clone, Copy, Debug, PartialEq, Eq, Structural)]
pub enum SkipReason {
    /// The backend could not load the worktree by its name.
    LoadFailure,
    /// The worktree could not be opened as a repository of its own.
    OpenFailure,
    /// The working tree has changes, or its status could not be computed.
    DirtyWorkingTree,
    /// HEAD could not be read.
    NoHead,
    /// HEAD points at a commit, not at a branch.
    DetachedHead,
    /// HEAD names a branch whose tip is not known.
    HeadUnresolvable,
    /// The branch that HEAD names does not exist locally.
    NoLocalBranch,
    /// The local branch has no upstream.
    NoUpstream,
    /// The upstream's tip is not known.
    UpstreamUnresolvable,
    /// The local branch has commits that its upstream lacks.
    AheadOfUpstream,
    /// The two tips could not be compared.
    GraphComparisonFailure,
}

/// The outcome of evaluating one worktree.
#[derive(Clone, Copy, Debug, PartialEq, Eq, Structural)]
pub enum SafetyVerdict {
    Eligible,
    Ineligible(SkipReason),
}

/// The state of a working tree, ignored files left out.
#[derive(Clone, Copy, Debug, PartialEq, Eq, Structural)]
pub enum TreeStatus {
    /// No modified, added, deleted or untracked entry.
    Clean,
    /// At least one such entry.
    Dirty,
    /// The backend could not tell.
    Unknown,
}

/// Where HEAD stands.
#[derive(Clone, Copy, Debug, PartialEq, Eq, Structural)]
pub enum HeadState {
    /// HEAD could not be read.
    Missing,
    /// HEAD points straight at a commit.
    Detached,
    /// HEAD names a branch, and the branch's tip is not known.
    Unresolvable,
    /// HEAD names a branch with a known tip.
    OnBranch,
}

/// What is known of the upstream of the checked-out branch.
#[derive(Clone, Copy, Debug, PartialEq, Eq, Structural)]
pub enum UpstreamState {
    /// No upstream is configured.
    Missing,
    /// An upstream is configured, and its tip is not known.
    Unresolvable,
    /// An upstream is configured and its tip is known.
    Resolved,
}

/// How the local tip stands against the upstream tip.
#[derive(Clone, Copy, Debug, PartialEq, Eq, Structural)]
pub enum Divergence {
    /// The backend could not compare the two.
    Incomparable,
    /// The number of commits reachable from the local tip and not from the
    /// upstream tip.
    Ahead(usize),
}

/// What the backend reports of one linked worktree.
#[derive(Clone, Copy, Debug, PartialEq, Eq, Structural)]
pub struct WorktreeFacts {
    /// The backend found the worktree under its name.
    pub loaded: bool,
    /// The worktree opened as a repository of its own.
    pub opened: bool,
    pub status: TreeStatus,
    pub head: HeadState,
    /// The branch that HEAD names exists as a local branch.
    pub local_branch: bool,
    pub upstream: UpstreamState,
    pub divergence: Divergence,
}

impl WorktreeFacts {
    /// A fact can only be known through what it is read from: nothing of a
    /// worktree that did not load, no status or HEAD of one that did not open,
    /// no branch without a HEAD on one, no upstream without the branch, no
    /// comparison without the upstream's tip.
    pub open spec fn wf(self) -> bool {
        &&& self.opened ==> self.loaded
        &&& !self.opened ==> self.status == TreeStatus::Unknown && self.head == HeadState::Missing
        &&& self.head != HeadState::OnBranch ==> !self.local_branch
        &&& !self.local_branch ==> self.upstream == UpstreamState::Missing
        &&& self.upstream != UpstreamState::Resolved ==> self.divergence
            == Divergence::Incomparable
    }

    /// The four conditions under which a worktree may go: a clean working tree,
    /// HEAD on a local branch, an upstream, and nothing unpushed.
    pub open spec fn safe(self) -> bool {
        &&& self.loaded && self.opened
        &&& self.status == TreeStatus::Clean
        &&& self.head == HeadState::OnBranch && self.local_branch
        &&& self.upstream == UpstreamState::Resolved
        &&& self.divergence == Divergence::Ahead(0)
    }

    /// Nothing was looked at past a working tree that is not clean.
    pub open spec fn stops_at_dirty(self) -> bool {
        self.status != TreeStatus::Clean ==> self.head == HeadState::Missing
    }

    /// The facts of a worktree of which nothing is known.
    pub open spec fn spec_unknown() -> WorktreeFacts {
        WorktreeFacts {
            loaded: false,
            opened: false,
            status: TreeStatus::Unknown,
            head: HeadState::Missing,
            local_branch: false,
            upstream: UpstreamState::Missing,
            divergence: Divergence::Incomparable,
        }
    }

    /// The facts of a worktree of which nothing is known: every check fails.
    pub fn unknown() -> (f: WorktreeFacts)
        ensures
            f == Self::spec_unknown(),
            f.wf(),
    {
        WorktreeFacts {
            loaded: false,
            opened: false,
            status: TreeStatus::Unknown,
            head: HeadState::Missing,
            local_branch: false,
            upstream: UpstreamState::Missing,
            divergence: Divergence::Incomparable,
        }
    }
}

/// The first check that `facts` fails, in the order in which the checks are
/// made; `None` when they all pass.
pub open spec fn first_failure(facts: WorktreeFacts) -> Option<SkipReason> {
    if !facts.loaded {
        Some(SkipReason::LoadFailure)
    } else if !facts.opened {
        Some(SkipReason::OpenFailure)
    } else if facts.status != TreeStatus::Clean {
        Some(SkipReason::DirtyWorkingTree)
    } else if facts.head == HeadState::Missing {
        Some(SkipReason::NoHead)
    } else if facts.head == HeadState::Detached {
        Some(SkipReason::DetachedHead)
    } else if facts.head == HeadState::Unresolvable {
        Some(SkipReason::HeadUnresolvable)
    } else if !facts.local_branch {
        Some(SkipReason::NoLocalBranch)
    } else if facts.upstream == UpstreamState::Missing {
        Some(SkipReason::NoUpstream)
    } else if facts.upstream == UpstreamState::Unresolvable {
        Some(SkipReason::UpstreamUnresolvable)
    } else if facts.divergence == Divergence::Incomparable {
        Some(SkipReason::GraphComparisonFailure)
    } else if facts.divergence != Divergence::Ahead(0) {
        Some(SkipReason::AheadOfUpstream)
    } else {
        None
    }
}

/// The verdict that `facts` call for.
pub open spec fn spec_verdict(facts: WorktreeFacts) -> SafetyVerdict {
    match first_failure(facts) {
        Some(reason) => SafetyVerdict::Ineligible(reason),
        None => SafetyVerdict::Eligible,
    }
}

/// Whether a working tree in this state counts as dirty. A status that could
/// not be computed does.
pub open spec fn spec_is_dirty(status: TreeStatus) -> bool {
    status != TreeStatus::Clean
}

/// The status that a count of status entries stands for; `None` is a count
/// that the backend failed to give.
pub open spec fn spec_status_of_count(count: Option<usize>) -> TreeStatus {
    match count {
        None => TreeStatus::Unknown,
        Some(n) => if n == 0 {
            TreeStatus::Clean
        } else {
            TreeStatus::Dirty
        },
    }
}

/// The divergence that an ahead/behind pair stands for; `None` is a
/// comparison that the backend failed to make. The behind count plays no part.
pub open spec fn spec_divergence_of(counts: Option<(usize, usize)>) -> Divergence {
    match counts {
        None => Divergence::Incomparable,
        Some(pair) => Divergence::Ahead(pair.0),
    }
}

/// Decides on a worktree from its facts. The worktree is eligible exactly when
/// it is [`safe`](WorktreeFacts::safe); otherwise the reason is the first
/// check that fails.
pub fn verdict_of(facts: &WorktreeFacts) -> (v: SafetyVerdict)
    ensures
        v == spec_verdict(*facts),
        v == SafetyVerdict::Eligible <==> facts.safe(),
{
    if !facts.loaded {
        return SafetyVerdict::Ineligible(SkipReason::LoadFailure);
    }
    if !facts.opened {
        return SafetyVerdict::Ineligible(SkipReason::OpenFailure);
    }
    match facts.status {
        TreeStatus::Clean => {},
        _ => {
            return SafetyVerdict::Ineligible(SkipReason::DirtyWorkingTree);
        },
    }
    match facts.head {
        HeadState::Missing => {
            return SafetyVerdict::Ineligible(SkipReason::NoHead);
        },
        HeadState::Detached => {
            return SafetyVerdict::Ineligible(SkipReason::DetachedHead);
        },
        HeadState::Unresolvable => {
            return SafetyVerdict::Ineligible(SkipReason::HeadUnresolvable);
        },
        HeadState::OnBranch => {},
    }
    if !facts.local_branch {
        return SafetyVerdict::Ineligible(SkipReason::NoLocalBranch);
    }
    match facts.upstream {
        UpstreamState::Missing => {
            return SafetyVerdict::Ineligible(SkipReason::NoUpstream);
        },
        UpstreamState::Unresolvable => {
            return SafetyVerdict::Ineligible(SkipReason::UpstreamUnresolvable);
        },
        UpstreamState::Resolved => {},
    }
    match facts.divergence {
        Divergence::Incomparable => SafetyVerdict::Ineligible(SkipReason::GraphComparisonFailure),
        Divergence::Ahead(ahead) => {
            if ahead > 0 {
                SafetyVerdict::Ineligible(SkipReason::AheadOfUpstream)
            } else {
                SafetyVerdict::Eligible
            }
        },
    }
}

/// Whether a working tree in this state counts as dirty.
pub fn is_dirty(status: TreeStatus) -> (dirty: bool)
    ensures
        dirty == spec_is_dirty(status),
{
    match status {
        TreeStatus::Clean => false,
        TreeStatus::Dirty => true,
        TreeStatus::Unknown => true,
    }
}

/// Reads a count of status entries as a status.
pub fn status_of_count(count: Option<usize>) -> (status: TreeStatus)
    ensures
        status == spec_status_of_count(count),
{
    match count {
        None => TreeStatus::Unknown,
        Some(n) => if n == 0 {
            TreeStatus::Clean
        } else {
            TreeStatus::Dirty
        },
    }
}

/// Reads an ahead/behind pair as a divergence.
pub fn divergence_of(counts: Option<(usize, usize)>) -> (divergence: Divergence)
    ensures
        divergence == spec_divergence_of(counts),
{
    match counts {
        None => Divergence::Incomparable,
        Some(pair) => Divergence::Ahead(pair.0),
    }
}

/// A worktree that is clean, on a branch with an upstream, and has nothing
/// unpushed is eligible.
pub proof fn lemma_clean_and_pushed_is_eligible(facts: WorktreeFacts)
    requires
        facts.wf(),
        facts.status == TreeStatus::Clean,
        facts.head == HeadState::OnBranch,
        facts.upstream != UpstreamState::Missing,
        facts.divergence == Divergence::Ahead(0),
    ensures
        spec_verdict(facts) == SafetyVerdict::Eligible,
{
}

/// A worktree with a change in its working tree is skipped as dirty, whatever
/// its HEAD, its upstream and its distance from the upstream are.
pub proof fn lemma_dirty_is_skipped(facts: WorktreeFacts)
    requires
        facts.wf(),
        facts.status == TreeStatus::Dirty,
    ensures
        spec_verdict(facts) == SafetyVerdict::Ineligible(SkipReason::DirtyWorkingTree),
{
}

/// A worktree with a clean working tree and a detached HEAD is skipped for the
/// detached HEAD.
pub proof fn lemma_detached_is_skipped(facts: WorktreeFacts)
    requires
        facts.wf(),
        facts.status == TreeStatus::Clean,
        facts.head == HeadState::Detached,
    ensures
        spec_verdict(facts) == SafetyVerdict::Ineligible(SkipReason::DetachedHead),
{
}

/// Pushing is all that stands between a worktree that is only ahead of its
/// upstream and eligibility: with the ahead count at zero and nothing else
/// changed, the verdict turns from ahead-of-upstream to eligible.
pub proof fn lemma_push_makes_eligible(before: WorktreeFacts, after: WorktreeFacts, ahead: usize)
    requires
        spec_verdict(before) == SafetyVerdict::Ineligible(SkipReason::AheadOfUpstream),
        before.divergence == Divergence::Ahead(ahead),
        after == (WorktreeFacts { divergence: Divergence::Ahead(0), ..before }),
    ensures
        ahead > 0,
        spec_verdict(after) == SafetyVerdict::Eligible,
{
}

/// Absence of information never clears a worktree: where any fact is missing
/// or unknown, the worktree is not eligible.
pub proof fn lemma_missing_information_blocks(facts: WorktreeFacts)
    requires
        !facts.loaded || !facts.opened || facts.status == TreeStatus::Unknown || facts.head
            != HeadState::OnBranch || !facts.local_branch || facts.upstream
            != UpstreamState::Resolved || facts.divergence == Divergence::Incomparable,
    ensures
        spec_verdict(facts) != SafetyVerdict::Eligible,
{
}

/// One evaluated worktree: the facts that were gathered, the root of the
/// worktree where the backend gave it, and the verdict.
#[derive(Debug, PartialEq, Eq)]
pub struct Evaluation {
    pub facts: WorktreeFacts,
    pub path: Option<PathBuf>,
    pub verdict: SafetyVerdict,
}

impl Evaluation {
    /// The verdict is the one that the facts call for, and the path is known
    /// exactly when the worktree loaded.
    pub open spec fn wf(self) -> bool {
        &&& self.facts.wf()
        &&& self.verdict == spec_verdict(self.facts)
        &&& self.path is Some <==> self.facts.loaded
    }
}

/// Closes an evaluation over the facts gathered so far.
fn conclude(facts: WorktreeFacts, path: Option<PathBuf>) -> (e: Evaluation)
    requires
        facts.wf(),
        path is Some <==> facts.loaded,
    ensures
        e.wf(),
        e.facts == facts,
        e.path == path,
{
    let verdict = verdict_of(&facts);
    Evaluation { facts, path, verdict }
}

/// The status of the working tree of `repo`: untracked files count, ignored
/// and unmodified ones do not. A backend error gives `Unknown`.
pub fn tree_status(repo: &Repository) -> (status: TreeStatus) {
    let scope = dirtiness_scope();
    match status_entry_count(repo, scope.untracked, scope.ignored, scope.unmodified) {
        Ok(n) => status_of_count(Some(n)),
        Err(_) => status_of_count(None),
    }
}

/// Whether the working tree of `repo` has uncommitted changes. Where the
/// backend cannot tell, it counts as dirty.
pub fn worktree_is_dirty(repo: &Repository) -> (dirty: bool) {
    is_dirty(tree_status(repo))
}

/// Whether the worktree rooted at `path` has uncommitted changes. One that
/// cannot be opened counts as dirty.
pub fn path_is_dirty(path: &PathBuf) -> (dirty: bool) {
    let status = match open_repository(path) {
        Ok(repo) => Some(tree_status(&repo)),
        Err(_) => None,
    };
    dirty_where(status)
}

/// Which entries a status query reports.
#[derive(Clone, Copy, Debug, PartialEq, Eq, Structural)]
pub struct StatusScope {
    /// Files that the repository does not track.
    pub untracked: bool,
    /// Files that the repository is told to ignore.
    pub ignored: bool,
    /// Files that stand as they were committed.
    pub unmodified: bool,
}

/// What counts when a working tree is asked whether it is dirty: untracked
/// files do, ignored and unmodified ones do not.
pub open spec fn spec_dirtiness_scope() -> StatusScope {
    StatusScope { untracked: true, ignored: false, unmodified: false }
}

/// What counts when a working tree is asked whether it is dirty.
pub fn dirtiness_scope() -> (scope: StatusScope)
    ensures
        scope == spec_dirtiness_scope(),
{
    StatusScope { untracked: true, ignored: false, unmodified: false }
}

/// Whether a worktree counts as dirty, given the status of its working tree
/// where it opened. `None` stands for a worktree that did not open: it counts
/// as dirty, like a status that could not be computed.
pub open spec fn spec_dirty_where(status: Option<TreeStatus>) -> bool {
    match status {
        Some(known) => spec_is_dirty(known),
        None => true,
    }
}

/// Whether a worktree counts as dirty, given the status of its working tree
/// where it opened.
pub fn dirty_where(status: Option<TreeStatus>) -> (dirty: bool)
    ensures
        dirty == spec_dirty_where(status),
        dirty == (status != Some(TreeStatus::Clean)),
{
    match status {
        Some(known) => is_dirty(known),
        None => true,
    }
}

/// Evaluates the linked worktree `name` of `repo`. The checks run in order and
/// stop at the first that fails: load the worktree, open it, take the status of
/// its working tree, read HEAD, find the local branch and its upstream, compare
/// the two tips.
pub fn evaluate_worktree(repo: &Repository, name: &str) -> (e: Evaluation)
    ensures
        e.wf(),
        e.facts.stops_at_dirty(),
{
    let mut facts = WorktreeFacts::unknown();
    let worktree = match find_worktree(repo, name) {
        Ok(w) => w,
        Err(_) => {
            return conclude(facts, None);
        },
    };
    facts.loaded = true;
    let path = worktree_path(&worktree);
    let wt_repo = match open_repository(&path) {
        Ok(r) => r,
        Err(_) => {
            return conclude(facts, Some(path));
        },
    };
    facts.opened = true;
    facts.status = tree_status(&wt_repo);
    if is_dirty(facts.status) {
        return conclude(facts, Some(path));
    }
    let head = match repository_head(&wt_repo) {
        Ok(h) => h,
        Err(_) => {
            return conclude(facts, Some(path));
        },
    };
    if !reference_is_branch(&head) {
        facts.head = HeadState::Detached;
        return conclude(facts, Some(path));
    }
    let branch_name = lookup_name(reference_shorthand(&head));
    let local_tip = match reference_target(&head) {
        Some(id) => id,
        None => {
            facts.head = HeadState::Unresolvable;
            return conclude(facts, Some(path));
        },
    };
    facts.head = HeadState::OnBranch;
    let branch = match find_local_branch(&wt_repo, branch_name.as_str()) {
        Ok(b) => b,
        Err(_) => {
            return conclude(facts, Some(path));
        },
    };
    facts.local_branch = true;
    let upstream = match branch_upstream(&branch) {
        Ok(u) => u,
        Err(_) => {
            return conclude(facts, Some(path));
        },
    };
    let upstream_tip = match reference_target(branch_reference(&upstream)) {
        Some(id) => id,
        None => {
            facts.upstream = UpstreamState::Unresolvable;
            return conclude(facts, Some(path));
        },
    };
    facts.upstream = UpstreamState::Resolved;
    facts.divergence = match graph_ahead_behind(&wt_repo, local_tip, upstream_tip) {
        Ok(counts) => divergence_of(Some(counts)),
        Err(_) => divergence_of(None),
    };
    conclude(facts, Some(path))
}

/// Evaluates an inventory record. The primary worktree is never evaluated: it
/// can only be entered.
pub fn evaluate(repo: &Repository, record: &WorktreeEntry) -> (e: Evaluation)
    requires
        !record.is_main,
    ensures
        e.wf(),
        e.facts.stops_at_dirty(),
{
    evaluate_worktree(repo, record.name.as_str())
}

/// The name under which the checked-out branch is looked up: the short name
/// of HEAD, or `unknown` where HEAD has none that is valid text.
pub open spec fn spec_lookup_name(short: Option<String>) -> Seq<char> {
    match short {
        Some(name) => name@,
        None => "unknown"@,
    }
}

/// The name under which the checked-out branch is looked up.
pub fn lookup_name(short: Option<String>) -> (name: String)
    ensures
        name@ == spec_lookup_name(short),
{
    match short {
        Some(name) => name,
        None => "unknown".to_string(),
    }
}

} // verus!
