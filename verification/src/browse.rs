//! Browsing the worktrees: pick one, then enter it, delete it, or go back.
//!
//! This is a state machine. It says what to do next and is told how it went;
//! whoever drives it shows the list, reads the keys, asks the operator,
//! removes the files, prunes the metadata and takes stock again. Records are
//! never reused across a change: the list is shown only from an inventory
//! that was taken for it.

use crate::backend::clone_path;
use crate::ui::WtAction;
use crate::worktree::WorktreeEntry;
use std::path::PathBuf;
use vstd::prelude::*;
use vstd::string::*;

verus! {

/// Where the browsing stands.
#[derive(Debug, PartialEq, Eq)]
pub enum BrowseState {
    /// The list is shown and a pick is awaited.
    Listing { entries: Vec<WorktreeEntry> },
    /// A worktree is picked and a key is awaited.
    ItemSelected { entry: WorktreeEntry },
    /// A deletion was asked for; the working tree is being looked at so that
    /// the operator can be warned.
    Inspecting { entry: WorktreeEntry },
    /// The operator is asked whether to delete.
    ConfirmingDelete { entry: WorktreeEntry, dirty: bool },
    /// The files are being removed.
    Removing { entry: WorktreeEntry },
    /// The files are gone and the metadata is being pruned.
    Pruning { entry: WorktreeEntry },
    /// A fresh inventory is awaited; `after_delete` tells whether a deletion
    /// was asked for on the way here.
    Refreshing { after_delete: bool },
    /// The browsing is over.
    Finished,
}

/// What the driver reports back.
#[derive(Debug, PartialEq, Eq)]
pub enum BrowseEvent {
    /// The operator picked the record at this place in the list.
    Picked(usize),
    /// The operator left a prompt without an answer.
    Dismissed,
    /// The operator asked for this action on the picked worktree.
    Chose(WtAction),
    /// Whether the working tree has uncommitted changes.
    Inspected(bool),
    /// The operator's answer to the confirmation.
    Answered(bool),
    /// Whether the files were removed.
    Removed(bool),
    /// Whether the metadata was pruned.
    Pruned(bool),
    /// A fresh inventory.
    Inventory(Vec<WorktreeEntry>),
}

/// What the driver is to do next.
#[derive(Debug, PartialEq, Eq)]
pub enum BrowseAction {
    /// Report that there is no worktree at all, and stop.
    ReportNoWorktrees,
    /// Show the list and ask for a pick.
    Select,
    /// Read a key for the picked worktree.
    ReadAction { is_main: bool },
    /// Look whether the working tree at `path` has uncommitted changes.
    Inspect { path: PathBuf },
    /// Ask whether to delete the worktree `name`, with a warning when it is
    /// dirty.
    Confirm { name: String, dirty: bool },
    /// Remove the directory `path`.
    RemoveFiles { path: PathBuf },
    /// Prune the metadata of the worktree `name`.
    PruneMetadata { name: String },
    /// Take stock of the worktrees again.
    Refresh,
    /// Start a session in `path`, and stop.
    Enter { path: PathBuf },
    /// Report that no worktree is left, and stop.
    ReportNoneLeft,
    /// Stop.
    Leave,
    /// The report did not answer what was asked: stop, and delete nothing.
    Abort,
}

impl BrowseState {
    /// The worktree that a deletion is about, in the states that are part of
    /// one.
    pub open spec fn doomed(self) -> Option<WorktreeEntry> {
        match self {
            BrowseState::Inspecting { entry } => Some(entry),
            BrowseState::ConfirmingDelete { entry, .. } => Some(entry),
            BrowseState::Removing { entry } => Some(entry),
            BrowseState::Pruning { entry } => Some(entry),
            _ => None,
        }
    }

    /// A deletion is never about the primary worktree.
    pub open spec fn wf(self) -> bool {
        self.doomed() matches Some(entry) ==> !entry.is_main
    }

    /// Whether the state is well formed.
    pub fn well_formed(&self) -> (ok: bool)
        ensures
            ok == self.wf(),
    {
        match self {
            BrowseState::Inspecting { entry } => !entry.is_main,
            BrowseState::ConfirmingDelete { entry, .. } => !entry.is_main,
            BrowseState::Removing { entry } => !entry.is_main,
            BrowseState::Pruning { entry } => !entry.is_main,
            _ => true,
        }
    }
}

/// How the browsing begins: with an empty inventory it is over at once,
/// otherwise the list is shown.
pub open spec fn spec_start_browse(entries: Vec<WorktreeEntry>) -> (BrowseState, BrowseAction) {
    if entries.len() == 0 {
        (BrowseState::Finished, BrowseAction::ReportNoWorktrees)
    } else {
        (BrowseState::Listing { entries }, BrowseAction::Select)
    }
}

/// What a key does to the picked worktree. A deletion of the primary worktree
/// is not on offer: the key is read again.
pub open spec fn spec_on_choice(entry: WorktreeEntry, choice: WtAction) -> (
    BrowseState,
    BrowseAction,
) {
    match choice {
        WtAction::Cd => (BrowseState::Finished, BrowseAction::Enter { path: entry.path }),
        WtAction::Delete => if entry.is_main {
            (BrowseState::ItemSelected { entry }, BrowseAction::ReadAction { is_main: true })
        } else {
            (BrowseState::Inspecting { entry }, BrowseAction::Inspect { path: entry.path })
        },
        WtAction::Back => (
            BrowseState::Refreshing { after_delete: false },
            BrowseAction::Refresh,
        ),
        WtAction::Cancel => (BrowseState::Finished, BrowseAction::Leave),
    }
}

/// What a fresh inventory leads to: the list again, or the end when a
/// deletion has left nothing.
pub open spec fn spec_on_inventory(after_delete: bool, entries: Vec<WorktreeEntry>) -> (
    BrowseState,
    BrowseAction,
) {
    if after_delete && entries.len() == 0 {
        (BrowseState::Finished, BrowseAction::ReportNoneLeft)
    } else {
        (BrowseState::Listing { entries }, BrowseAction::Select)
    }
}

/// One step of the browsing.
pub open spec fn spec_browse_step(state: BrowseState, event: BrowseEvent) -> (
    BrowseState,
    BrowseAction,
) {
    match (state, event) {
        (BrowseState::Listing { entries }, BrowseEvent::Picked(at)) => if at < entries.len() {
            (
                BrowseState::ItemSelected { entry: entries[at as int] },
                BrowseAction::ReadAction { is_main: entries[at as int].is_main },
            )
        } else {
            (BrowseState::Finished, BrowseAction::Abort)
        },
        (BrowseState::Listing { .. }, BrowseEvent::Dismissed) => (
            BrowseState::Finished,
            BrowseAction::Leave,
        ),
        (BrowseState::ItemSelected { entry }, BrowseEvent::Chose(choice)) => spec_on_choice(
            entry,
            choice,
        ),
        (BrowseState::Inspecting { entry }, BrowseEvent::Inspected(dirty)) => (
            BrowseState::ConfirmingDelete { entry, dirty },
            BrowseAction::Confirm { name: entry.name, dirty },
        ),
        (BrowseState::ConfirmingDelete { entry, .. }, BrowseEvent::Answered(yes)) => if yes {
            (BrowseState::Removing { entry }, BrowseAction::RemoveFiles { path: entry.path })
        } else {
            (BrowseState::Refreshing { after_delete: true }, BrowseAction::Refresh)
        },
        (BrowseState::ConfirmingDelete { .. }, BrowseEvent::Dismissed) => (
            BrowseState::Refreshing { after_delete: true },
            BrowseAction::Refresh,
        ),
        (BrowseState::Removing { entry }, BrowseEvent::Removed(ok)) => if ok {
            (BrowseState::Pruning { entry }, BrowseAction::PruneMetadata { name: entry.name })
        } else {
            (BrowseState::Refreshing { after_delete: true }, BrowseAction::Refresh)
        },
        (BrowseState::Pruning { .. }, BrowseEvent::Pruned(_)) => (
            BrowseState::Refreshing { after_delete: true },
            BrowseAction::Refresh,
        ),
        (BrowseState::Refreshing { after_delete }, BrowseEvent::Inventory(entries)) => {
            spec_on_inventory(after_delete, entries)
        },
        _ => (BrowseState::Finished, BrowseAction::Abort),
    }
}

/// Begins the browsing with a fresh inventory.
pub fn start_browse(entries: Vec<WorktreeEntry>) -> (r: (BrowseState, BrowseAction))
    ensures
        r == spec_start_browse(entries),
        r.0.wf(),
{
    if entries.len() == 0 {
        (BrowseState::Finished, BrowseAction::ReportNoWorktrees)
    } else {
        (BrowseState::Listing { entries }, BrowseAction::Select)
    }
}

/// What a key does to the picked worktree.
fn on_choice(entry: WorktreeEntry, choice: WtAction) -> (r: (BrowseState, BrowseAction))
    ensures
        r == spec_on_choice(entry, choice),
        r.0.wf(),
{
    match choice {
        WtAction::Cd => {
            let path = clone_path(&entry.path);
            (BrowseState::Finished, BrowseAction::Enter { path })
        },
        WtAction::Delete => {
            if entry.is_main {
                (BrowseState::ItemSelected { entry }, BrowseAction::ReadAction { is_main: true })
            } else {
                let path = clone_path(&entry.path);
                (BrowseState::Inspecting { entry }, BrowseAction::Inspect { path })
            }
        },
        WtAction::Back => (BrowseState::Refreshing { after_delete: false }, BrowseAction::Refresh),
        WtAction::Cancel => (BrowseState::Finished, BrowseAction::Leave),
    }
}

/// Takes one step of the browsing: from where it stands and what the driver
/// reports to where it stands next and what the driver is to do.
pub fn browse_step(state: BrowseState, event: BrowseEvent) -> (r: (BrowseState, BrowseAction))
    requires
        state.wf(),
    ensures
        r == spec_browse_step(state, event),
        r.0.wf(),
{
    match state {
        BrowseState::Listing { entries } => match event {
            BrowseEvent::Picked(at) => {
                if at < entries.len() {
                    let mut entries = entries;
                    let entry = entries.remove(at);
                    let is_main = entry.is_main;
                    (BrowseState::ItemSelected { entry }, BrowseAction::ReadAction { is_main })
                } else {
                    (BrowseState::Finished, BrowseAction::Abort)
                }
            },
            BrowseEvent::Dismissed => (BrowseState::Finished, BrowseAction::Leave),
            _ => (BrowseState::Finished, BrowseAction::Abort),
        },
        BrowseState::ItemSelected { entry } => match event {
            BrowseEvent::Chose(choice) => on_choice(entry, choice),
            _ => (BrowseState::Finished, BrowseAction::Abort),
        },
        BrowseState::Inspecting { entry } => match event {
            BrowseEvent::Inspected(dirty) => {
                let name = entry.name.clone();
                (BrowseState::ConfirmingDelete { entry, dirty }, BrowseAction::Confirm { name, dirty })
            },
            _ => (BrowseState::Finished, BrowseAction::Abort),
        },
        BrowseState::ConfirmingDelete { entry, dirty } => match event {
            BrowseEvent::Answered(yes) => {
                if yes {
                    let path = clone_path(&entry.path);
                    (BrowseState::Removing { entry }, BrowseAction::RemoveFiles { path })
                } else {
                    (BrowseState::Refreshing { after_delete: true }, BrowseAction::Refresh)
                }
            },
            BrowseEvent::Dismissed => (
                BrowseState::Refreshing { after_delete: true },
                BrowseAction::Refresh,
            ),
            _ => (BrowseState::Finished, BrowseAction::Abort),
        },
        BrowseState::Removing { entry } => match event {
            BrowseEvent::Removed(ok) => {
                if ok {
                    let name = entry.name.clone();
                    (BrowseState::Pruning { entry }, BrowseAction::PruneMetadata { name })
                } else {
                    (BrowseState::Refreshing { after_delete: true }, BrowseAction::Refresh)
                }
            },
            _ => (BrowseState::Finished, BrowseAction::Abort),
        },
        BrowseState::Pruning { entry } => match event {
            BrowseEvent::Pruned(_) => (
                BrowseState::Refreshing { after_delete: true },
                BrowseAction::Refresh,
            ),
            _ => (BrowseState::Finished, BrowseAction::Abort),
        },
        BrowseState::Refreshing { after_delete } => match event {
            BrowseEvent::Inventory(entries) => {
                if after_delete && entries.len() == 0 {
                    (BrowseState::Finished, BrowseAction::ReportNoneLeft)
                } else {
                    (BrowseState::Listing { entries }, BrowseAction::Select)
                }
            },
            _ => (BrowseState::Finished, BrowseAction::Abort),
        },
        BrowseState::Finished => (BrowseState::Finished, BrowseAction::Abort),
    }
}

/// The primary worktree is never up for deletion: no step leads into a
/// deletion of it, whatever is reported.
pub proof fn lemma_primary_is_never_deleted(state: BrowseState, event: BrowseEvent)
    requires
        state.wf(),
    ensures
        spec_browse_step(state, event).0.wf(),
        spec_browse_step(state, event).0 matches BrowseState::ConfirmingDelete { entry, .. }
            ==> !entry.is_main,
{
}

/// Metadata is pruned only in answer to files that were removed: where the
/// removal failed, or anything else was reported, no prune is asked for.
pub proof fn lemma_prune_only_after_removal(state: BrowseState, event: BrowseEvent)
    ensures
        spec_browse_step(state, event).1 is PruneMetadata <==> state is Removing && event
            matches BrowseEvent::Removed(true),
        state matches BrowseState::Removing { entry } ==> (spec_browse_step(
            state,
            event,
        ).1 matches BrowseAction::PruneMetadata { name } ==> name == entry.name),
{
}

/// Files are removed only in answer to a yes, and only of the worktree that
/// the question was about.
pub proof fn lemma_removal_needs_a_yes(state: BrowseState, event: BrowseEvent)
    ensures
        spec_browse_step(state, event).1 is RemoveFiles <==> state is ConfirmingDelete && event
            matches BrowseEvent::Answered(true),
        state matches BrowseState::ConfirmingDelete { entry, .. } ==> (spec_browse_step(
            state,
            event,
        ).1 matches BrowseAction::RemoveFiles { path } ==> path == entry.path),
{
}

/// The confirmation is asked for whether the working tree is dirty or clean;
/// the question only differs in the warning.
pub proof fn lemma_confirmation_is_always_asked(entry: WorktreeEntry, dirty: bool)
    ensures
        spec_browse_step(BrowseState::Inspecting { entry }, BrowseEvent::Inspected(dirty)) == (
            BrowseState::ConfirmingDelete { entry, dirty },
            BrowseAction::Confirm { name: entry.name, dirty },
        ),
{
}

/// The list is shown only from an inventory taken for it: every step into the
/// list is the arrival of a fresh inventory, and everything that may have
/// changed the worktrees leads to a new query before the list.
pub proof fn lemma_list_is_always_fresh(state: BrowseState, event: BrowseEvent)
    ensures
        spec_browse_step(state, event).0 matches BrowseState::Listing { entries } ==> state
            is Refreshing && event == BrowseEvent::Inventory(entries),
        state is Pruning || state is Removing || state is ConfirmingDelete ==> {
            let next = spec_browse_step(state, event);
            next.0 is Removing || next.0 is Pruning || next.0 is Finished || (next.0
                is Refreshing && next.1 is Refresh)
        },
{
}

} // verus!
