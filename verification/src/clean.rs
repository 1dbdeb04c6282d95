//! Bulk cleaning: scan every linked worktree, split the result into those that
//! may go and those that stay, and delete the first lot after one
//! confirmation.
//!
//! The scan talks to the backend. The deletion does not: it is a state machine
//! that says what to do next and is told how it went. Whoever drives it asks
//! the operator, removes the files and prunes the metadata.

use crate::backend::{clone_path, find_worktree, worktree_names, worktree_prune};
use crate::git::{failure, ErrorKind, GitError};
use crate::safety::{evaluate_worktree, Evaluation, SafetyVerdict, SkipReason};
use git2::Repository;
use std::path::PathBuf;
use vstd::prelude::*;
use vstd::string::*;

verus! {

/// One scanned worktree.
#[derive(Debug, PartialEq, Eq)]
pub struct ScanEntry {
    pub name: String,
    pub evaluation: Evaluation,
}

/// The outcome of a scan.
#[derive(Debug, PartialEq, Eq)]
pub struct CleanScan {
    /// How many worktrees the backend listed, those with unreadable names
    /// included.
    pub listed: usize,
    /// The worktrees that have a name, in the backend's order.
    pub entries: Vec<ScanEntry>,
}

/// A worktree that may be deleted.
#[derive(Debug, PartialEq, Eq)]
pub struct WtInfo {
    pub name: String,
    pub path: PathBuf,
}

/// A worktree that stays, and why.
#[derive(Debug, PartialEq, Eq)]
pub struct Skipped {
    pub name: String,
    pub reason: SkipReason,
}

/// The two lots of a scan.
#[derive(Debug, PartialEq, Eq)]
pub struct CleanPlan {
    pub eligible: Vec<WtInfo>,
    pub skipped: Vec<Skipped>,
}

/// The names among `listed` that are valid text, in order.
pub open spec fn spec_present(listed: Seq<Option<String>>) -> Seq<Seq<char>>
    decreases listed.len(),
{
    if listed.len() == 0 {
        Seq::empty()
    } else {
        let earlier = spec_present(listed.drop_last());
        match listed.last() {
            Some(name) => earlier.push(name@),
            None => earlier,
        }
    }
}

/// The names of scanned worktrees.
pub open spec fn scanned_names(entries: Seq<ScanEntry>) -> Seq<Seq<char>> {
    entries.map_values(|e: ScanEntry| e.name@)
}

/// Every evaluation in the scan is well formed.
pub open spec fn scan_wf(entries: Seq<ScanEntry>) -> bool {
    forall|i: int| 0 <= i < entries.len() ==> (#[trigger] entries[i]).evaluation.wf()
}

/// Where a scanned worktree goes: into the first lot with its path when it is
/// eligible and its path is known, into the second with a reason otherwise.
/// An eligible verdict without a path counts as a worktree that did not load.
pub open spec fn spec_lot(entry: ScanEntry) -> Result<(Seq<char>, PathBuf), (Seq<char>, SkipReason)> {
    match entry.evaluation.verdict {
        SafetyVerdict::Eligible => match entry.evaluation.path {
            Some(path) => Ok((entry.name@, path)),
            None => Err((entry.name@, SkipReason::LoadFailure)),
        },
        SafetyVerdict::Ineligible(reason) => Err((entry.name@, reason)),
    }
}

/// The first lot: names and paths of the worktrees that may go, in scan order.
pub open spec fn spec_eligible(entries: Seq<ScanEntry>) -> Seq<(Seq<char>, PathBuf)>
    decreases entries.len(),
{
    if entries.len() == 0 {
        Seq::empty()
    } else {
        let earlier = spec_eligible(entries.drop_last());
        match spec_lot(entries.last()) {
            Ok(item) => earlier.push(item),
            Err(_) => earlier,
        }
    }
}

/// The second lot: names and reasons of the worktrees that stay, in scan
/// order.
pub open spec fn spec_skipped(entries: Seq<ScanEntry>) -> Seq<(Seq<char>, SkipReason)>
    decreases entries.len(),
{
    if entries.len() == 0 {
        Seq::empty()
    } else {
        let earlier = spec_skipped(entries.drop_last());
        match spec_lot(entries.last()) {
            Ok(_) => earlier,
            Err(item) => earlier.push(item),
        }
    }
}

/// The first lot as names and paths.
pub open spec fn eligible_views(lot: Seq<WtInfo>) -> Seq<(Seq<char>, PathBuf)> {
    lot.map_values(|w: WtInfo| (w.name@, w.path))
}

/// The second lot as names and reasons.
pub open spec fn skipped_views(lot: Seq<Skipped>) -> Seq<(Seq<char>, SkipReason)> {
    lot.map_values(|s: Skipped| (s.name@, s.reason))
}

/// Every scanned worktree is in exactly one of the two lots.
pub proof fn lemma_lots_cover(entries: Seq<ScanEntry>)
    ensures
        spec_eligible(entries).len() + spec_skipped(entries).len() == entries.len(),
    decreases entries.len(),
{
    if entries.len() > 0 {
        lemma_lots_cover(entries.drop_last());
    }
}

/// A worktree whose verdict is not eligible is in the second lot with the
/// reason of its verdict, and the first lot is short of at least one worktree.
pub proof fn lemma_ineligible_is_skipped(entries: Seq<ScanEntry>, i: int)
    requires
        0 <= i < entries.len(),
        entries[i].evaluation.verdict is Ineligible,
    ensures
        spec_skipped(entries).contains(
            (entries[i].name@, entries[i].evaluation.verdict->Ineligible_0),
        ),
        spec_eligible(entries).len() < entries.len(),
    decreases entries.len(),
{
    let earlier = entries.drop_last();
    lemma_lots_cover(earlier);
    lemma_lots_cover(entries);
    if i == entries.len() - 1 {
        let item = (entries[i].name@, entries[i].evaluation.verdict->Ineligible_0);
        assert(spec_skipped(entries) == spec_skipped(earlier).push(item));
        assert(spec_skipped(entries)[spec_skipped(earlier).len() as int] == item);
    } else {
        lemma_ineligible_is_skipped(earlier, i);
        let item = (earlier[i].name@, earlier[i].evaluation.verdict->Ineligible_0);
        let k = choose|k: int|
            0 <= k < spec_skipped(earlier).len() && spec_skipped(earlier)[k] == item;
        assert(spec_skipped(entries)[k] == item);
    }
}

/// Splits a scan into its two lots, each in scan order.
pub fn partition(entries: &Vec<ScanEntry>) -> (plan: CleanPlan)
    ensures
        eligible_views(plan.eligible@) == spec_eligible(entries@),
        skipped_views(plan.skipped@) == spec_skipped(entries@),
        plan.eligible.len() + plan.skipped.len() == entries.len(),
{
    let mut eligible: Vec<WtInfo> = Vec::new();
    let mut skipped: Vec<Skipped> = Vec::new();
    let mut i: usize = 0;
    assert(entries@.take(0) =~= Seq::<ScanEntry>::empty());
    assert(eligible_views(eligible@) =~= Seq::empty());
    assert(skipped_views(skipped@) =~= Seq::empty());
    while i < entries.len()
        invariant
            i <= entries.len(),
            eligible_views(eligible@) == spec_eligible(entries@.take(i as int)),
            skipped_views(skipped@) == spec_skipped(entries@.take(i as int)),
        decreases entries.len() - i,
    {
        let ghost was_eligible = eligible@;
        let ghost was_skipped = skipped@;
        let ghost seen = entries@.take(i as int + 1);
        assert(seen.drop_last() =~= entries@.take(i as int));
        assert(seen.last() == entries@[i as int]);
        let entry = &entries[i];
        match entry.evaluation.verdict {
            SafetyVerdict::Eligible => {
                match &entry.evaluation.path {
                    Some(path) => {
                        let item = WtInfo { name: entry.name.clone(), path: clone_path(path) };
                        eligible.push(item);
                        assert(eligible_views(eligible@) =~= eligible_views(was_eligible).push(
                            (item.name@, item.path),
                        ));
                    },
                    None => {
                        let item = Skipped {
                            name: entry.name.clone(),
                            reason: SkipReason::LoadFailure,
                        };
                        skipped.push(item);
                        assert(skipped_views(skipped@) =~= skipped_views(was_skipped).push(
                            (item.name@, item.reason),
                        ));
                    },
                }
            },
            SafetyVerdict::Ineligible(reason) => {
                let item = Skipped { name: entry.name.clone(), reason };
                skipped.push(item);
                assert(skipped_views(skipped@) =~= skipped_views(was_skipped).push(
                    (item.name@, item.reason),
                ));
            },
        }
        i += 1;
    }
    assert(entries@.take(entries.len() as int) =~= entries@);
    proof {
        lemma_lots_cover(entries@);
        assert(eligible_views(eligible@).len() == eligible@.len());
        assert(skipped_views(skipped@).len() == skipped@.len());
    }
    CleanPlan { eligible, skipped }
}

/// Evaluates each of the listed worktrees that has a readable name, in order.
/// One that cannot be evaluated is recorded with the reason; it does not stop
/// the scan.
pub fn scan_named(repo: &Repository, listed: &Vec<Option<String>>) -> (entries: Vec<ScanEntry>)
    ensures
        scanned_names(entries@) == spec_present(listed@),
        scan_wf(entries@),
{
    let mut entries: Vec<ScanEntry> = Vec::new();
    let mut i: usize = 0;
    assert(listed@.take(0) =~= Seq::<Option<String>>::empty());
    assert(scanned_names(entries@) =~= Seq::empty());
    while i < listed.len()
        invariant
            i <= listed.len(),
            scanned_names(entries@) == spec_present(listed@.take(i as int)),
            scan_wf(entries@),
        decreases listed.len() - i,
    {
        let ghost before = entries@;
        let ghost seen = listed@.take(i as int + 1);
        assert(seen.drop_last() =~= listed@.take(i as int));
        assert(seen.last() == listed@[i as int]);
        match &listed[i] {
            Some(name) => {
                let evaluation = evaluate_worktree(repo, name.as_str());
                let entry = ScanEntry { name: name.clone(), evaluation };
                entries.push(entry);
                assert(scanned_names(entries@) =~= scanned_names(before).push(entry.name@));
                assert forall|k: int| 0 <= k < entries@.len() implies (
                #[trigger] entries@[k]).evaluation.wf() by {
                    if k < before.len() {
                        assert(entries@[k] == before[k]);
                    }
                }
            },
            None => {},
        }
        i += 1;
    }
    assert(listed@.take(listed.len() as int) =~= listed@);
    entries
}

/// Scans the linked worktrees of `repo`. Fails only where the backend cannot
/// list them.
pub fn scan_worktrees(repo: &Repository) -> (r: Result<CleanScan, GitError>)
    ensures
        r matches Ok(scan) ==> scan_wf(scan.entries@) && scan.entries.len() <= scan.listed,
        r matches Err(e) ==> e.is(ErrorKind::Enumeration, "worktrees"@),
{
    let listed = match worktree_names(repo) {
        Ok(names) => names,
        Err(cause) => {
            return Err(failure(ErrorKind::Enumeration, "worktrees", &cause));
        },
    };
    let entries = scan_named(repo, &listed);
    proof {
        lemma_present_bounded(listed@);
        assert(scanned_names(entries@).len() == entries@.len());
    }
    Ok(CleanScan { listed: listed.len(), entries })
}

/// There are no more readable names than names.
pub proof fn lemma_present_bounded(listed: Seq<Option<String>>)
    ensures
        spec_present(listed).len() <= listed.len(),
    decreases listed.len(),
{
    if listed.len() > 0 {
        lemma_present_bounded(listed.drop_last());
    }
}

/// Prunes the metadata of the linked worktree `name`. To be called once the
/// files of the worktree are gone, and not before.
pub fn prune_worktree(repo: &Repository, name: &str) -> (r: Result<(), GitError>)
    ensures
        r matches Err(e) ==> e.is(ErrorKind::PruneFailed, name@),
{
    let worktree = match find_worktree(repo, name) {
        Ok(found) => found,
        Err(cause) => {
            return Err(failure(ErrorKind::PruneFailed, name, &cause));
        },
    };
    match worktree_prune(&worktree) {
        Ok(_) => Ok(()),
        Err(cause) => Err(failure(ErrorKind::PruneFailed, name, &cause)),
    }
}

/// Where a bulk clean stands.
#[derive(Debug, PartialEq, Eq)]
pub enum CleanState {
    /// The operator is asked, once, for the whole batch.
    Confirming { batch: Vec<WtInfo> },
    /// The files of `batch[next]` are being removed; `removed` worktrees are
    /// gone so far.
    Removing { batch: Vec<WtInfo>, next: usize, removed: usize },
    /// The files of `batch[next]` are gone and its metadata is being pruned.
    Pruning { batch: Vec<WtInfo>, next: usize, removed: usize },
    /// Nothing is left to do.
    Finished,
}

/// What the driver reports back.
#[derive(Clone, Copy, Debug, PartialEq, Eq, Structural)]
pub enum CleanEvent {
    /// The operator's answer; a prompt that was cancelled is a no.
    Answered(bool),
    /// Whether the files were removed.
    Removed(bool),
    /// Whether the metadata was pruned.
    Pruned(bool),
}

/// What the driver is to do next.
#[derive(Debug, PartialEq, Eq)]
pub enum CleanAction {
    /// Report that the repository has no linked worktree, and stop.
    ReportNoWorktrees,
    /// Report that no worktree is eligible, and stop.
    ReportNothingEligible,
    /// Ask once whether the `count` eligible worktrees shall be deleted.
    Confirm { count: usize },
    /// Report that nothing was deleted, and stop.
    ReportCancelled,
    /// Remove the directory `path` of the worktree `name`.
    RemoveFiles { name: String, path: PathBuf },
    /// Prune the metadata of the worktree `name`.
    PruneMetadata { name: String },
    /// Report that `removed` worktrees were deleted, and stop.
    ReportDone { removed: usize },
    /// The report did not answer what was asked: stop, and delete no more.
    Abort,
}

impl CleanState {
    /// A batch under confirmation is not empty; a deletion under way is at a
    /// worktree of the batch, with no more deleted than were tried.
    pub open spec fn wf(self) -> bool {
        match self {
            CleanState::Confirming { batch } => batch.len() > 0,
            CleanState::Removing { batch, next, removed } => next < batch.len() && removed <= next,
            CleanState::Pruning { batch, next, removed } => next < batch.len() && removed <= next,
            CleanState::Finished => true,
        }
    }

    /// Whether the state is well formed.
    pub fn well_formed(&self) -> (ok: bool)
        ensures
            ok == self.wf(),
    {
        match self {
            CleanState::Confirming { batch } => batch.len() > 0,
            CleanState::Removing { batch, next, removed } => *next < batch.len() && *removed
                <= *next,
            CleanState::Pruning { batch, next, removed } => *next < batch.len() && *removed
                <= *next,
            CleanState::Finished => true,
        }
    }
}

/// How a clean begins: with nothing listed or nothing eligible it is over at
/// once; otherwise the operator is asked.
pub open spec fn spec_start_clean(listed: usize, eligible: Vec<WtInfo>) -> (CleanState, CleanAction) {
    if listed == 0 {
        (CleanState::Finished, CleanAction::ReportNoWorktrees)
    } else if eligible.len() == 0 {
        (CleanState::Finished, CleanAction::ReportNothingEligible)
    } else {
        (CleanState::Confirming { batch: eligible }, CleanAction::Confirm { count: eligible.len() })
    }
}

/// Moves on to the worktree at `next`: removes its files, or reports the count
/// when the batch is through.
pub open spec fn spec_turn_to(batch: Vec<WtInfo>, next: usize, removed: usize) -> (
    CleanState,
    CleanAction,
) {
    if next < batch.len() {
        (
            CleanState::Removing { batch, next, removed },
            CleanAction::RemoveFiles { name: batch[next as int].name, path: batch[next as int].path },
        )
    } else {
        (CleanState::Finished, CleanAction::ReportDone { removed })
    }
}

/// One step of a clean.
///
/// A yes starts the deletion at the first worktree; a no ends the clean.
/// Files that were removed are followed by a prune of the metadata; files that
/// were not are followed by the next worktree, with nothing pruned. A prune,
/// however it went, counts the worktree as deleted and is followed by the next
/// worktree. A report that does not answer what was asked ends the clean.
pub open spec fn spec_clean_step(state: CleanState, event: CleanEvent) -> (CleanState, CleanAction) {
    match (state, event) {
        (CleanState::Confirming { batch }, CleanEvent::Answered(yes)) => if yes {
            spec_turn_to(batch, 0, 0)
        } else {
            (CleanState::Finished, CleanAction::ReportCancelled)
        },
        (CleanState::Removing { batch, next, removed }, CleanEvent::Removed(ok)) => if ok {
            (
                CleanState::Pruning { batch, next, removed },
                CleanAction::PruneMetadata { name: batch[next as int].name },
            )
        } else {
            spec_turn_to(batch, (next + 1) as usize, removed)
        },
        (CleanState::Pruning { batch, next, removed }, CleanEvent::Pruned(_)) => spec_turn_to(
            batch,
            (next + 1) as usize,
            (removed + 1) as usize,
        ),
        _ => (CleanState::Finished, CleanAction::Abort),
    }
}

/// Begins a clean over the worktrees that a scan found eligible.
pub fn start_clean(listed: usize, eligible: Vec<WtInfo>) -> (r: (CleanState, CleanAction))
    ensures
        r == spec_start_clean(listed, eligible),
        r.0.wf(),
{
    if listed == 0 {
        (CleanState::Finished, CleanAction::ReportNoWorktrees)
    } else if eligible.len() == 0 {
        (CleanState::Finished, CleanAction::ReportNothingEligible)
    } else {
        let count = eligible.len();
        (CleanState::Confirming { batch: eligible }, CleanAction::Confirm { count })
    }
}

/// Moves on to the worktree at `next`.
fn turn_to(batch: Vec<WtInfo>, next: usize, removed: usize) -> (r: (CleanState, CleanAction))
    requires
        next <= batch.len(),
        removed <= next,
    ensures
        r == spec_turn_to(batch, next, removed),
        r.0.wf(),
{
    if next < batch.len() {
        let name = batch[next].name.clone();
        let path = clone_path(&batch[next].path);
        (CleanState::Removing { batch, next, removed }, CleanAction::RemoveFiles { name, path })
    } else {
        (CleanState::Finished, CleanAction::ReportDone { removed })
    }
}

/// Takes one step of a clean: from where it stands and what the driver
/// reports to where it stands next and what the driver is to do.
pub fn clean_step(state: CleanState, event: CleanEvent) -> (r: (CleanState, CleanAction))
    requires
        state.wf(),
    ensures
        r == spec_clean_step(state, event),
        r.0.wf(),
{
    match state {
        CleanState::Confirming { batch } => match event {
            CleanEvent::Answered(yes) => {
                if yes {
                    turn_to(batch, 0, 0)
                } else {
                    (CleanState::Finished, CleanAction::ReportCancelled)
                }
            },
            _ => (CleanState::Finished, CleanAction::Abort),
        },
        CleanState::Removing { batch, next, removed } => match event {
            CleanEvent::Removed(ok) => {
                if ok {
                    let name = batch[next].name.clone();
                    (
                        CleanState::Pruning { batch, next, removed },
                        CleanAction::PruneMetadata { name },
                    )
                } else {
                    turn_to(batch, next + 1, removed)
                }
            },
            _ => (CleanState::Finished, CleanAction::Abort),
        },
        CleanState::Pruning { batch, next, removed } => match event {
            CleanEvent::Pruned(_) => turn_to(batch, next + 1, removed + 1),
            _ => (CleanState::Finished, CleanAction::Abort),
        },
        CleanState::Finished => (CleanState::Finished, CleanAction::Abort),
    }
}

/// Metadata is pruned only in answer to files that were removed: where the
/// removal failed, or anything else was reported, no prune is asked for.
pub proof fn lemma_prune_only_after_removal(state: CleanState, event: CleanEvent)
    requires
        state.wf(),
    ensures
        spec_clean_step(state, event).1 is PruneMetadata <==> state is Removing && event
            == CleanEvent::Removed(true),
        state matches CleanState::Removing { batch, next, .. } ==> (spec_clean_step(
            state,
            event,
        ).1 matches CleanAction::PruneMetadata { name } ==> name == batch[next as int].name),
{
}

/// Files are removed only of a worktree of the batch, and only once the
/// operator has said yes to the batch.
pub proof fn lemma_only_the_batch_is_removed(state: CleanState, event: CleanEvent)
    requires
        state.wf(),
    ensures
        spec_clean_step(state, event).1 matches CleanAction::RemoveFiles { name, path } ==> {
            &&& state !is Finished
            &&& state is Confirming ==> event == CleanEvent::Answered(true)
            &&& exists|i: int|
                0 <= i < batch_of(state).len() && (#[trigger] batch_of(state)[i]).name == name
                    && batch_of(state)[i].path == path
        },
{
    let step = spec_clean_step(state, event);
    if step.1 is RemoveFiles {
        match state {
            CleanState::Confirming { batch } => {
                assert(batch_of(state)[0] == batch[0]);
            },
            CleanState::Removing { batch, next, removed } => {
                assert(batch_of(state)[next + 1] == batch[next + 1]);
            },
            CleanState::Pruning { batch, next, removed } => {
                assert(batch_of(state)[next + 1] == batch[next + 1]);
            },
            CleanState::Finished => {},
        }
    }
}

/// The batch of a clean; empty once it is finished.
pub open spec fn batch_of(state: CleanState) -> Seq<WtInfo> {
    match state {
        CleanState::Confirming { batch } => batch@,
        CleanState::Removing { batch, .. } => batch@,
        CleanState::Pruning { batch, .. } => batch@,
        CleanState::Finished => Seq::empty(),
    }
}

/// How the deletion of one worktree went.
pub enum Fate {
    /// Its files could not be removed.
    Kept,
    /// Its files were removed; `pruned` tells whether its metadata went too.
    Gone { pruned: bool },
}

/// What the driver reports over a batch whose worktrees fare as `fates` say.
pub open spec fn spec_reports(fates: Seq<Fate>) -> Seq<CleanEvent>
    decreases fates.len(),
{
    if fates.len() == 0 {
        Seq::empty()
    } else {
        let first = match fates[0] {
            Fate::Kept => seq![CleanEvent::Removed(false)],
            Fate::Gone { pruned } => seq![CleanEvent::Removed(true), CleanEvent::Pruned(pruned)],
        };
        first + spec_reports(fates.skip(1))
    }
}

/// How many of the worktrees are gone.
pub open spec fn spec_gone(fates: Seq<Fate>) -> nat
    decreases fates.len(),
{
    if fates.len() == 0 {
        0
    } else {
        (if fates[0] is Gone {
            1nat
        } else {
            0nat
        }) + spec_gone(fates.skip(1))
    }
}

/// Where a clean stands, and what it asked for last, after the reports
/// `events` from `state` on; `last` is what was asked for before them.
pub open spec fn spec_clean_run(state: CleanState, last: CleanAction, events: Seq<CleanEvent>) -> (
    CleanState,
    CleanAction,
)
    decreases events.len(),
{
    if events.len() == 0 {
        (state, last)
    } else {
        let step = spec_clean_step(state, events[0]);
        spec_clean_run(step.0, step.1, events.skip(1))
    }
}

/// From any point of a deletion, the clean runs through the rest of the batch
/// whatever happens to each worktree, and ends by reporting as many
/// deletions as there were before plus the worktrees whose files went.
pub proof fn lemma_rest_of_batch_is_counted(
    batch: Vec<WtInfo>,
    next: usize,
    removed: usize,
    fates: Seq<Fate>,
)
    requires
        next <= batch.len(),
        removed <= next,
        fates.len() == batch.len() - next,
    ensures
        ({
            let begin = spec_turn_to(batch, next, removed);
            spec_clean_run(begin.0, begin.1, spec_reports(fates))
        }) == (
            CleanState::Finished,
            CleanAction::ReportDone { removed: (removed + spec_gone(fates)) as usize },
        ),
        removed + spec_gone(fates) <= batch.len(),
    decreases fates.len(),
{
    let begin = spec_turn_to(batch, next, removed);
    let events = spec_reports(fates);
    if fates.len() == 0 {
        assert(events =~= Seq::empty());
        assert(spec_gone(fates) == 0);
    } else {
        let rest = fates.skip(1);
        let tail = spec_reports(rest);
        assert(begin.0 == CleanState::Removing { batch, next, removed });
        match fates[0] {
            Fate::Kept => {
                assert(events =~= seq![CleanEvent::Removed(false)] + tail);
                assert(events[0] == CleanEvent::Removed(false));
                assert(events.skip(1) =~= tail);
                let onward = spec_turn_to(batch, (next + 1) as usize, removed);
                assert(spec_clean_step(begin.0, events[0]) == onward);
                assert(spec_clean_run(begin.0, begin.1, events) == spec_clean_run(
                    onward.0,
                    onward.1,
                    tail,
                ));
                lemma_rest_of_batch_is_counted(batch, (next + 1) as usize, removed, rest);
                assert(spec_gone(fates) == spec_gone(rest));
            },
            Fate::Gone { pruned } => {
                assert(events =~= seq![CleanEvent::Removed(true), CleanEvent::Pruned(pruned)]
                    + tail);
                assert(events[0] == CleanEvent::Removed(true));
                let later = events.skip(1);
                assert(later[0] == CleanEvent::Pruned(pruned));
                assert(later.skip(1) =~= tail);
                let pruning = spec_clean_step(begin.0, events[0]);
                assert(pruning.0 == CleanState::Pruning { batch, next, removed });
                let onward = spec_turn_to(batch, (next + 1) as usize, (removed + 1) as usize);
                assert(spec_clean_step(pruning.0, later[0]) == onward);
                assert(spec_clean_run(pruning.0, pruning.1, later) == spec_clean_run(
                    onward.0,
                    onward.1,
                    tail,
                ));
                assert(spec_clean_run(begin.0, begin.1, events) == spec_clean_run(
                    pruning.0,
                    pruning.1,
                    later,
                ));
                lemma_rest_of_batch_is_counted(
                    batch,
                    (next + 1) as usize,
                    (removed + 1) as usize,
                    rest,
                );
                assert(spec_gone(fates) == 1 + spec_gone(rest));
            },
        }
    }
}

/// A confirmed batch is worked through to its end: one failed deletion does
/// not stop the others, and the count reported at the end is the number of
/// worktrees whose files were removed, whether or not their metadata could be
/// pruned.
pub proof fn lemma_confirmed_batch_is_counted(batch: Vec<WtInfo>, fates: Seq<Fate>)
    requires
        batch.len() > 0,
        fates.len() == batch.len(),
    ensures
        spec_clean_run(
            CleanState::Confirming { batch },
            CleanAction::Confirm { count: batch.len() },
            seq![CleanEvent::Answered(true)] + spec_reports(fates),
        ) == (
            CleanState::Finished,
            CleanAction::ReportDone { removed: spec_gone(fates) as usize },
        ),
{
    let events = seq![CleanEvent::Answered(true)] + spec_reports(fates);
    assert(events[0] == CleanEvent::Answered(true));
    assert(events.skip(1) =~= spec_reports(fates));
    lemma_rest_of_batch_is_counted(batch, 0, 0, fates);
}

/// A batch that the operator declines is left alone.
pub proof fn lemma_declined_batch_is_kept(batch: Vec<WtInfo>)
    requires
        batch.len() > 0,
    ensures
        spec_clean_step(CleanState::Confirming { batch }, CleanEvent::Answered(false)) == (
            CleanState::Finished,
            CleanAction::ReportCancelled,
        ),
{
}

} // verus!
