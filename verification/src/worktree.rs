//! The inventory of worktrees: the primary working directory first, then every
//! linked worktree in the backend's order.
//!
//! [`take_snapshot`] asks the backend; [`inventory_of`] turns what it said
//! into records. Records are made afresh on every query and never kept across
//! a change to the repository.

use crate::backend::{
    clone_path, find_worktree, open_repository, reference_shorthand, repository_head,
    repository_workdir, worktree_names, worktree_path,
};
use crate::git::{failure, ErrorKind, GitError};
use crate::text::{padded, spec_padded};
use git2::Repository;
use std::path::PathBuf;
use vstd::prelude::*;
use vstd::string::*;

verus! {

/// One checked-out copy of the repository.
#[derive(Debug, PartialEq, Eq)]
pub struct WorktreeEntry {
    /// The name under which the backend knows the worktree; `(main)` for the
    /// primary one.
    pub name: String,
    /// The short name of the branch that is checked out, `(detached)` where
    /// HEAD names none, `(unknown)` where the worktree cannot be opened.
    pub branch: String,
    /// The root of the worktree.
    pub path: PathBuf,
    /// Set for the one worktree that is the repository's own working
    /// directory. It can be entered and never deleted.
    pub is_main: bool,
}

/// A record with its two texts as sequences of characters.
pub struct EntryView {
    pub name: Seq<char>,
    pub branch: Seq<char>,
    pub path: PathBuf,
    pub is_main: bool,
}

impl View for WorktreeEntry {
    type V = EntryView;

    open spec fn view(&self) -> EntryView {
        EntryView { name: self.name@, branch: self.branch@, path: self.path, is_main: self.is_main }
    }
}

/// The views of a sequence of records.
pub open spec fn entry_views(entries: Seq<WorktreeEntry>) -> Seq<EntryView> {
    entries.map_values(|e: WorktreeEntry| e@)
}

/// What could be learned of the branch of a linked worktree.
#[derive(Debug, PartialEq, Eq)]
pub enum BranchProbe {
    /// The worktree did not open as a repository.
    Unopenable,
    /// The worktree opened; the short name that HEAD resolves to, if it
    /// resolves to one.
    Head(Option<String>),
}

/// The primary working directory as the backend reports it.
#[derive(Debug, PartialEq, Eq)]
pub struct Primary {
    pub path: PathBuf,
    /// The short name that HEAD resolves to, if it resolves to one.
    pub head: Option<String>,
}

/// One item of the backend's list of linked worktrees.
#[derive(Debug, PartialEq, Eq)]
pub enum Sighting {
    /// Listed under a name that is not valid text.
    Unnamed,
    /// Listed, and the backend could not load it.
    Unloadable { name: String },
    /// Listed and loaded.
    Loaded { name: String, path: PathBuf, branch: BranchProbe },
}

/// What the backend reports of the worktrees at one moment.
#[derive(Debug, PartialEq, Eq)]
pub struct Snapshot {
    /// The working directory; a bare repository has none.
    pub primary: Option<Primary>,
    /// The linked worktrees, in the backend's order.
    pub linked: Vec<Sighting>,
}

/// The name of the primary worktree in the inventory.
pub open spec fn spec_primary_label() -> Seq<char> {
    "(main)"@
}

/// The branch text for a HEAD that may name no branch.
pub open spec fn spec_head_label(head: Option<String>) -> Seq<char> {
    match head {
        Some(name) => name@,
        None => "(detached)"@,
    }
}

/// The branch text for a linked worktree.
pub open spec fn spec_branch_label(probe: BranchProbe) -> Seq<char> {
    match probe {
        BranchProbe::Unopenable => "(unknown)"@,
        BranchProbe::Head(head) => spec_head_label(head),
    }
}

/// The record of the primary worktree.
pub open spec fn spec_primary_entry(primary: Primary) -> EntryView {
    EntryView {
        name: spec_primary_label(),
        branch: spec_head_label(primary.head),
        path: primary.path,
        is_main: true,
    }
}

/// The record of a listed worktree: one that has a name and loaded is
/// recorded, whether or not it opens; any other is left out.
pub open spec fn spec_linked_entry(sighting: Sighting) -> Option<EntryView> {
    match sighting {
        Sighting::Loaded { name, path, branch } => Some(
            EntryView { name: name@, branch: spec_branch_label(branch), path, is_main: false },
        ),
        _ => None,
    }
}

/// The records of the listed worktrees, in order.
pub open spec fn spec_linked_entries(linked: Seq<Sighting>) -> Seq<EntryView>
    decreases linked.len(),
{
    if linked.len() == 0 {
        Seq::empty()
    } else {
        let earlier = spec_linked_entries(linked.drop_last());
        match spec_linked_entry(linked.last()) {
            Some(entry) => earlier.push(entry),
            None => earlier,
        }
    }
}

/// The head of the inventory: the record of the primary worktree, where there
/// is one.
pub open spec fn spec_lead(primary: Option<Primary>) -> Seq<EntryView> {
    match primary {
        Some(primary) => seq![spec_primary_entry(primary)],
        None => Seq::empty(),
    }
}

/// The inventory that a snapshot stands for: the primary worktree, where there
/// is one, and then the linked ones.
pub open spec fn spec_inventory(snapshot: Snapshot) -> Seq<EntryView> {
    spec_lead(snapshot.primary) + spec_linked_entries(snapshot.linked@)
}

/// Only the first record can be the primary worktree, and the primary worktree
/// goes by the name `(main)`.
pub open spec fn inventory_wf(entries: Seq<EntryView>) -> bool {
    forall|i: int|
        0 <= i < entries.len() && (#[trigger] entries[i]).is_main ==> i == 0 && entries[i].name
            == spec_primary_label()
}

/// No record of a listed worktree is primary.
pub proof fn lemma_linked_entries_not_primary(linked: Seq<Sighting>)
    ensures
        forall|i: int|
            0 <= i < spec_linked_entries(linked).len() ==> !(#[trigger] spec_linked_entries(
                linked,
            )[i]).is_main,
        spec_linked_entries(linked).len() <= linked.len(),
    decreases linked.len(),
{
    if linked.len() > 0 {
        lemma_linked_entries_not_primary(linked.drop_last());
    }
}

/// Every inventory is well formed.
pub proof fn lemma_inventory_wf(snapshot: Snapshot)
    ensures
        inventory_wf(spec_inventory(snapshot)),
        snapshot.primary is Some ==> spec_inventory(snapshot).len() > 0 && spec_inventory(
            snapshot,
        )[0].is_main,
{
    lemma_linked_entries_not_primary(snapshot.linked@);
}

/// Taking stock twice of a repository that did not change in between gives the
/// same records in the same order: same names, branches, paths and flags.
pub proof fn lemma_inventory_idempotent(
    state: Snapshot,
    first: Seq<WorktreeEntry>,
    second: Seq<WorktreeEntry>,
)
    requires
        entry_views(first) == spec_inventory(state),
        entry_views(second) == spec_inventory(state),
    ensures
        first.len() == second.len(),
        forall|i: int| 0 <= i < first.len() ==> (#[trigger] first[i])@ == second[i]@,
{
    assert(entry_views(first).len() == first.len());
    assert(entry_views(second).len() == second.len());
    assert forall|i: int| 0 <= i < first.len() implies (#[trigger] first[i])@ == second[i]@ by {
        assert(entry_views(first)[i] == first[i]@);
        assert(entry_views(second)[i] == second[i]@);
    }
}

/// The branch text for a HEAD that may name no branch.
pub fn head_label(head: &Option<String>) -> (label: String)
    ensures
        label@ == spec_head_label(*head),
{
    match head {
        Some(name) => name.clone(),
        None => "(detached)".to_string(),
    }
}

/// The branch text for a linked worktree.
pub fn branch_label(probe: &BranchProbe) -> (label: String)
    ensures
        label@ == spec_branch_label(*probe),
{
    match probe {
        BranchProbe::Unopenable => "(unknown)".to_string(),
        BranchProbe::Head(head) => head_label(head),
    }
}

/// The record of the primary worktree.
pub fn primary_entry(primary: &Primary) -> (entry: WorktreeEntry)
    ensures
        entry@ == spec_primary_entry(*primary),
{
    WorktreeEntry {
        name: "(main)".to_string(),
        branch: head_label(&primary.head),
        path: clone_path(&primary.path),
        is_main: true,
    }
}

/// The record of a listed worktree, where it gets one.
pub fn linked_entry(sighting: &Sighting) -> (entry: Option<WorktreeEntry>)
    ensures
        entry is Some <==> spec_linked_entry(*sighting) is Some,
        entry matches Some(e) ==> Some(e@) == spec_linked_entry(*sighting),
{
    match sighting {
        Sighting::Loaded { name, path, branch } => Some(
            WorktreeEntry {
                name: name.clone(),
                branch: branch_label(branch),
                path: clone_path(path),
                is_main: false,
            },
        ),
        _ => None,
    }
}

/// The inventory that a snapshot stands for.
pub fn inventory_of(snapshot: &Snapshot) -> (entries: Vec<WorktreeEntry>)
    ensures
        entry_views(entries@) == spec_inventory(*snapshot),
        inventory_wf(entry_views(entries@)),
{
    let mut entries: Vec<WorktreeEntry> = Vec::new();
    let ghost lead: Seq<EntryView> = spec_lead(snapshot.primary);
    match &snapshot.primary {
        Some(primary) => {
            let entry = primary_entry(primary);
            entries.push(entry);
        },
        None => {},
    }
    assert(entry_views(entries@) =~= lead);
    assert(snapshot.linked@.take(0) =~= Seq::<Sighting>::empty());
    let mut i: usize = 0;
    while i < snapshot.linked.len()
        invariant
            i <= snapshot.linked.len(),
            entry_views(entries@) == lead + spec_linked_entries(snapshot.linked@.take(i as int)),
        decreases snapshot.linked.len() - i,
    {
        let ghost before = entries@;
        let ghost seen = snapshot.linked@.take(i as int + 1);
        assert(seen.drop_last() =~= snapshot.linked@.take(i as int));
        assert(seen.last() == snapshot.linked@[i as int]);
        match linked_entry(&snapshot.linked[i]) {
            Some(entry) => {
                entries.push(entry);
                assert(entry_views(entries@) =~= entry_views(before).push(entry@));
                assert(entry_views(entries@) =~= lead + spec_linked_entries(seen));
            },
            None => {},
        }
        i += 1;
    }
    assert(snapshot.linked@.take(snapshot.linked.len() as int) =~= snapshot.linked@);
    proof {
        lemma_inventory_wf(*snapshot);
    }
    entries
}

/// The short name that HEAD of `repo` resolves to, if it resolves to one.
pub fn head_name(repo: &Repository) -> (name: Option<String>) {
    match repository_head(repo) {
        Ok(head) => reference_shorthand(&head),
        Err(_) => None,
    }
}

/// Looks one listed worktree up: loads it by name, and reads the branch of
/// its HEAD where it opens.
pub fn sight(repo: &Repository, listed: &Option<String>) -> (sighting: Sighting)
    ensures
        listed is None <==> sighting is Unnamed,
        listed matches Some(n) ==> (match sighting {
            Sighting::Unloadable { name } => name@ == n@,
            Sighting::Loaded { name, .. } => name@ == n@,
            Sighting::Unnamed => false,
        }),
{
    match listed {
        None => Sighting::Unnamed,
        Some(name) => {
            match find_worktree(repo, name.as_str()) {
                Err(_) => Sighting::Unloadable { name: name.clone() },
                Ok(worktree) => {
                    let path = worktree_path(&worktree);
                    let branch = match open_repository(&path) {
                        Ok(opened) => BranchProbe::Head(head_name(&opened)),
                        Err(_) => BranchProbe::Unopenable,
                    };
                    Sighting::Loaded { name: name.clone(), path, branch }
                },
            }
        },
    }
}

/// Asks the backend for the working directory and for the linked worktrees.
/// One worktree that cannot be read does not fail the query; a list that
/// cannot be had does.
pub fn take_snapshot(repo: &Repository) -> (r: Result<Snapshot, GitError>)
    ensures
        r matches Err(e) ==> e.is(ErrorKind::Enumeration, "worktrees"@),
{
    let primary = match repository_workdir(repo) {
        Some(path) => Some(Primary { path, head: head_name(repo) }),
        None => None,
    };
    let names = match worktree_names(repo) {
        Ok(names) => names,
        Err(cause) => {
            return Err(failure(ErrorKind::Enumeration, "worktrees", &cause));
        },
    };
    let mut linked: Vec<Sighting> = Vec::new();
    let mut i: usize = 0;
    while i < names.len()
        invariant
            i <= names.len(),
            linked.len() == i,
        decreases names.len() - i,
    {
        let sighting = sight(repo, &names[i]);
        linked.push(sighting);
        i += 1;
    }
    Ok(Snapshot { primary, linked })
}

/// The inventory of `repo`: the primary worktree first, then every linked
/// worktree that has a name and loads, in the backend's order. A linked
/// worktree that does not open is listed with the branch `(unknown)`.
pub fn gather_worktrees(repo: &Repository) -> (r: Result<Vec<WorktreeEntry>, GitError>)
    ensures
        r matches Ok(entries) ==> inventory_wf(entry_views(entries@)),
        r matches Err(e) ==> e.is(ErrorKind::Enumeration, "worktrees"@),
{
    match take_snapshot(repo) {
        Ok(snapshot) => Ok(inventory_of(&snapshot)),
        Err(e) => Err(e),
    }
}

/// The width of the branch column in the line of a record.
pub const BRANCH_COLUMN: usize = 30;

/// The line that stands for a record in a list: the branch, filled up to the
/// width of its column, a space, and the path.
pub open spec fn spec_entry_line(branch: Seq<char>, path: Seq<char>) -> Seq<char> {
    spec_padded(branch, 30) + " "@ + path
}

/// The line that stands for a record in a list. `path` is the path of the
/// record as it is to be shown.
pub fn entry_line(branch: &str, path: &str) -> (line: String)
    ensures
        line@ == spec_entry_line(branch@, path@),
        line@ == spec_padded(branch@, 30) + " "@ + path@,
{
    let mut line = padded(branch, BRANCH_COLUMN);
    line.append(" ");
    line.append(path);
    line
}

} // verus!
