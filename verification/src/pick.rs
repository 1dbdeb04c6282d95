//! Picking a remote branch and creating a branch or a worktree from it.
//!
//! This is a state machine. It says what to do next and is told how it went;
//! whoever drives it shows the branches, reads the keys and the clock, counts
//! the pick and talks to the backend. The machine decides what is created:
//! the name of the new branch, and which remote branch it is made to follow.

use crate::backend::clone_path;
use crate::git::{provision_name, spec_provision_name, BranchProvisionRequest};
use crate::ui::{Action, BranchItem};
use std::path::PathBuf;
use vstd::prelude::*;
use vstd::string::*;

verus! {

/// Where the picking stands.
#[derive(Debug, PartialEq, Eq)]
pub enum PickState {
    /// The branches are shown and a pick is awaited.
    Choosing { items: Vec<BranchItem> },
    /// A branch is picked and a key is awaited.
    Deciding { branch: String },
    /// The pick is being counted and the clock read.
    Stamping { branch: String, worktree: bool },
    /// The place for the worktree of the new branch `name` is being found.
    Locating { branch: String, name: String },
    /// The backend is creating the branch, and the worktree where there is a
    /// place for one.
    Provisioning { worktree_at: Option<PathBuf> },
    /// The operator is asked whether to enter the new worktree.
    Offering { path: PathBuf },
    /// The picking is over.
    Finished,
}

/// What the driver reports back.
#[derive(Debug, PartialEq, Eq)]
pub enum PickEvent {
    /// The operator picked the branch at this place in the list.
    Picked(usize),
    /// The operator left a prompt without an answer.
    Dismissed,
    /// The operator asked for this action on the picked branch.
    Chose(Action),
    /// The pick is counted; the time, as text.
    Stamped(String),
    /// The place for the worktree.
    Located(PathBuf),
    /// Whether the backend created what was asked for.
    Provisioned(bool),
    /// The operator's answer to the offer.
    Answered(bool),
}

/// What the driver is to do next.
#[derive(Debug, PartialEq, Eq)]
pub enum PickAction {
    /// Report that `origin` has no branch, and stop.
    ReportNoBranches,
    /// Show the branches and ask for a pick.
    Select,
    /// Read a key for the picked branch.
    ReadAction,
    /// Count one more pick of `branch`, and read the clock.
    Stamp { branch: String },
    /// Find the place for the worktree of the new branch `name`.
    Locate { name: String },
    /// Have the backend carry the request out.
    Provision { request: BranchProvisionRequest },
    /// Report the new branch, and stop.
    ReportBranch,
    /// Report the new worktree, and ask whether to enter it.
    OfferEntry { path: PathBuf },
    /// Start a session in `path`, and stop.
    Enter { path: PathBuf },
    /// Report that nothing was created, and stop.
    ReportCancelled,
    /// Stop.
    Leave,
    /// The report did not answer what was asked: stop, and create nothing.
    Abort,
}

/// How the picking begins: with no branch to show it is over at once.
pub open spec fn spec_start_pick(items: Vec<BranchItem>) -> (PickState, PickAction) {
    if items.len() == 0 {
        (PickState::Finished, PickAction::ReportNoBranches)
    } else {
        (PickState::Choosing { items }, PickAction::Select)
    }
}

/// `request` asks for the branch `name` from `branch`, with a worktree at
/// `place` where there is one.
pub open spec fn asks_for(
    request: BranchProvisionRequest,
    branch: Seq<char>,
    name: Seq<char>,
    place: Option<PathBuf>,
) -> bool {
    request.remote_branch@ == branch && request.new_branch_name@ == name && request.target_path
        == place
}

/// What a key does to the picked branch.
pub open spec fn chose_ok(branch: String, choice: Action, next: PickState, action: PickAction) -> bool {
    match choice {
        Action::Cancel => next == PickState::Finished && action == PickAction::ReportCancelled,
        Action::CreateBranch => next == (PickState::Stamping { branch, worktree: false })
            && action == (PickAction::Stamp { branch }),
        Action::CreateWorktree => next == (PickState::Stamping { branch, worktree: true })
            && action == (PickAction::Stamp { branch }),
    }
}

/// What the time leads to: the new branch is named after the picked one and
/// the time. For a worktree its place is looked for next; a branch alone is
/// asked of the backend at once.
pub open spec fn stamped_ok(
    branch: String,
    worktree: bool,
    stamp: String,
    next: PickState,
    action: PickAction,
) -> bool {
    let new_name = spec_provision_name(branch@, stamp@);
    if worktree {
        &&& next matches PickState::Locating { branch: kept, name }
        &&& kept == branch
        &&& name@ == new_name
        &&& action matches PickAction::Locate { name: wanted }
        &&& wanted@ == new_name
    } else {
        &&& next == (PickState::Provisioning { worktree_at: None })
        &&& action matches PickAction::Provision { request }
        &&& asks_for(request, branch@, new_name, None)
    }
}

/// What the outcome of the backend leads to.
pub open spec fn provisioned_ok(
    worktree_at: Option<PathBuf>,
    done: bool,
    next: PickState,
    action: PickAction,
) -> bool {
    if !done {
        next == PickState::Finished && action == PickAction::Leave
    } else {
        match worktree_at {
            Some(path) => next == (PickState::Offering { path }) && action == (
                PickAction::OfferEntry { path }
            ),
            None => next == PickState::Finished && action == PickAction::ReportBranch,
        }
    }
}

/// One step of the picking: `next` and `action` are what `state` and `event`
/// lead to.
pub open spec fn pick_step_ok(
    state: PickState,
    event: PickEvent,
    next: PickState,
    action: PickAction,
) -> bool {
    match (state, event) {
        (PickState::Choosing { items }, PickEvent::Picked(at)) => if at < items.len() {
            next == (PickState::Deciding { branch: items[at as int].name }) && action
                == PickAction::ReadAction
        } else {
            next == PickState::Finished && action == PickAction::Abort
        },
        (PickState::Choosing { .. }, PickEvent::Dismissed) => next == PickState::Finished
            && action == PickAction::ReportCancelled,
        (PickState::Deciding { branch }, PickEvent::Chose(choice)) => chose_ok(
            branch,
            choice,
            next,
            action,
        ),
        (PickState::Stamping { branch, worktree }, PickEvent::Stamped(stamp)) => stamped_ok(
            branch,
            worktree,
            stamp,
            next,
            action,
        ),
        (PickState::Locating { branch, name }, PickEvent::Located(path)) => {
            &&& next == (PickState::Provisioning { worktree_at: Some(path) })
            &&& action matches PickAction::Provision { request }
            &&& asks_for(request, branch@, name@, Some(path))
        },
        (PickState::Provisioning { worktree_at }, PickEvent::Provisioned(done)) => {
            provisioned_ok(worktree_at, done, next, action)
        },
        (PickState::Offering { path }, PickEvent::Answered(yes)) => next == PickState::Finished
            && action == (if yes {
            PickAction::Enter { path }
        } else {
            PickAction::Leave
        }),
        (PickState::Offering { .. }, PickEvent::Dismissed) => next == PickState::Finished
            && action == PickAction::Leave,
        _ => next == PickState::Finished && action == PickAction::Abort,
    }
}

/// Begins the picking with the branches on offer.
pub fn start_pick(items: Vec<BranchItem>) -> (r: (PickState, PickAction))
    ensures
        r == spec_start_pick(items),
{
    if items.len() == 0 {
        (PickState::Finished, PickAction::ReportNoBranches)
    } else {
        (PickState::Choosing { items }, PickAction::Select)
    }
}

/// Takes one step of the picking: from where it stands and what the driver
/// reports to where it stands next and what the driver is to do.
pub fn pick_step(state: PickState, event: PickEvent) -> (r: (PickState, PickAction))
    ensures
        pick_step_ok(state, event, r.0, r.1),
{
    match state {
        PickState::Choosing { items } => match event {
            PickEvent::Picked(at) => {
                if at < items.len() {
                    let mut items = items;
                    let item = items.remove(at);
                    (PickState::Deciding { branch: item.name }, PickAction::ReadAction)
                } else {
                    (PickState::Finished, PickAction::Abort)
                }
            },
            PickEvent::Dismissed => (PickState::Finished, PickAction::ReportCancelled),
            _ => (PickState::Finished, PickAction::Abort),
        },
        PickState::Deciding { branch } => match event {
            PickEvent::Chose(choice) => match choice {
                Action::Cancel => (PickState::Finished, PickAction::ReportCancelled),
                Action::CreateBranch => {
                    let counted = branch.clone();
                    (
                        PickState::Stamping { branch, worktree: false },
                        PickAction::Stamp { branch: counted },
                    )
                },
                Action::CreateWorktree => {
                    let counted = branch.clone();
                    (
                        PickState::Stamping { branch, worktree: true },
                        PickAction::Stamp { branch: counted },
                    )
                },
            },
            _ => (PickState::Finished, PickAction::Abort),
        },
        PickState::Stamping { branch, worktree } => match event {
            PickEvent::Stamped(stamp) => {
                let name = provision_name(branch.as_str(), stamp.as_str());
                if worktree {
                    let wanted = name.clone();
                    (PickState::Locating { branch, name }, PickAction::Locate { name: wanted })
                } else {
                    let request = BranchProvisionRequest {
                        remote_branch: branch,
                        new_branch_name: name,
                        target_path: None,
                    };
                    (
                        PickState::Provisioning { worktree_at: None },
                        PickAction::Provision { request },
                    )
                }
            },
            _ => (PickState::Finished, PickAction::Abort),
        },
        PickState::Locating { branch, name } => match event {
            PickEvent::Located(path) => {
                let place = clone_path(&path);
                let request = BranchProvisionRequest {
                    remote_branch: branch,
                    new_branch_name: name,
                    target_path: Some(place),
                };
                (
                    PickState::Provisioning { worktree_at: Some(path) },
                    PickAction::Provision { request },
                )
            },
            _ => (PickState::Finished, PickAction::Abort),
        },
        PickState::Provisioning { worktree_at } => match event {
            PickEvent::Provisioned(done) => {
                if !done {
                    (PickState::Finished, PickAction::Leave)
                } else {
                    match worktree_at {
                        Some(path) => {
                            let shown = clone_path(&path);
                            (PickState::Offering { path }, PickAction::OfferEntry { path: shown })
                        },
                        None => (PickState::Finished, PickAction::ReportBranch),
                    }
                }
            },
            _ => (PickState::Finished, PickAction::Abort),
        },
        PickState::Offering { path } => match event {
            PickEvent::Answered(yes) => {
                if yes {
                    (PickState::Finished, PickAction::Enter { path })
                } else {
                    (PickState::Finished, PickAction::Leave)
                }
            },
            PickEvent::Dismissed => (PickState::Finished, PickAction::Leave),
            _ => (PickState::Finished, PickAction::Abort),
        },
        PickState::Finished => (PickState::Finished, PickAction::Abort),
    }
}

/// Whatever is asked of the backend names the remote branch that the operator
/// picked, with or without a worktree: that is the branch the new one is made
/// to follow.
pub proof fn lemma_request_follows_the_pick(
    state: PickState,
    event: PickEvent,
    next: PickState,
    action: PickAction,
)
    requires
        pick_step_ok(state, event, next, action),
        action is Provision,
    ensures
        state matches PickState::Stamping { branch, .. } ==> action->request.remote_branch@
            == branch@ && action->request.target_path is None,
        state matches PickState::Locating { branch, name } ==> action->request.remote_branch@
            == branch@ && action->request.new_branch_name@ == name@
            && action->request.target_path is Some,
        state is Stamping || state is Locating,
{
}

/// Nothing is asked of the backend unless the operator chose to create: a
/// cancelled prompt or key leads to the end, with nothing counted, named or
/// created.
pub proof fn lemma_cancel_creates_nothing(
    state: PickState,
    event: PickEvent,
    next: PickState,
    action: PickAction,
)
    requires
        pick_step_ok(state, event, next, action),
        event is Dismissed || event == PickEvent::Chose(Action::Cancel),
    ensures
        next is Finished,
        !(action is Provision) && !(action is Stamp) && !(action is Locate),
{
}

} // verus!
