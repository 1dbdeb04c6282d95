use branch_picker::worktree::{
    entry_line, BRANCH_COLUMN, branch_label, head_label, inventory_of, linked_entry, primary_entry, BranchProbe, Primary,
    Sighting, Snapshot, WorktreeEntry,
};
use std::path::PathBuf;

fn loaded(name: &str, branch: BranchProbe) -> Sighting {
    Sighting::Loaded { name: name.to_string(), path: PathBuf::from(format!("/work/{}", name)), branch }
}

fn entry(name: &str, branch: &str, path: &str, is_main: bool) -> WorktreeEntry {
    WorktreeEntry {
        name: name.to_string(),
        branch: branch.to_string(),
        path: PathBuf::from(path),
        is_main,
    }
}

fn sample() -> Snapshot {
    Snapshot {
        primary: Some(Primary { path: PathBuf::from("/work/repo"), head: Some("main".to_string()) }),
        linked: vec![
            loaded("a", BranchProbe::Head(Some("feature/a".to_string()))),
            Sighting::Unnamed,
            loaded("b", BranchProbe::Unopenable),
            Sighting::Unloadable { name: "gone".to_string() },
            loaded("c", BranchProbe::Head(None)),
        ],
    }
}

#[test]
fn labels_stand_in_for_missing_branches() {
    assert_eq!(head_label(&Some("main".to_string())), "main");
    assert_eq!(head_label(&None), "(detached)");
    assert_eq!(branch_label(&BranchProbe::Unopenable), "(unknown)");
    assert_eq!(branch_label(&BranchProbe::Head(None)), "(detached)");
    assert_eq!(branch_label(&BranchProbe::Head(Some("dev".to_string()))), "dev");
}

#[test]
fn primary_worktree_is_called_main() {
    let primary = Primary { path: PathBuf::from("/work/repo"), head: None };
    assert_eq!(primary_entry(&primary), entry("(main)", "(detached)", "/work/repo", true));
}

#[test]
fn only_loaded_worktrees_are_recorded() {
    assert_eq!(linked_entry(&Sighting::Unnamed), None);
    assert_eq!(linked_entry(&Sighting::Unloadable { name: "x".to_string() }), None);
    assert_eq!(
        linked_entry(&loaded("x", BranchProbe::Unopenable)),
        Some(entry("x", "(unknown)", "/work/x", false))
    );
}

#[test]
fn inventory_lists_primary_first_then_linked_in_order() {
    assert_eq!(
        inventory_of(&sample()),
        vec![
            entry("(main)", "main", "/work/repo", true),
            entry("a", "feature/a", "/work/a", false),
            entry("b", "(unknown)", "/work/b", false),
            entry("c", "(detached)", "/work/c", false),
        ]
    );
}

#[test]
fn unopenable_worktree_is_listed_not_dropped() {
    let snapshot = Snapshot { primary: None, linked: vec![loaded("broken", BranchProbe::Unopenable)] };
    assert_eq!(inventory_of(&snapshot), vec![entry("broken", "(unknown)", "/work/broken", false)]);
}

#[test]
fn bare_repository_has_no_primary_record() {
    let snapshot = Snapshot {
        primary: None,
        linked: vec![loaded("a", BranchProbe::Head(Some("a".to_string())))],
    };
    let entries = inventory_of(&snapshot);
    assert_eq!(entries, vec![entry("a", "a", "/work/a", false)]);
    assert!(entries.iter().all(|e| !e.is_main));
}

#[test]
fn empty_snapshot_gives_empty_inventory() {
    assert_eq!(inventory_of(&Snapshot { primary: None, linked: Vec::new() }), Vec::new());
}

#[test]
fn only_the_first_record_is_primary() {
    let entries = inventory_of(&sample());
    assert!(entries[0].is_main);
    assert!(entries.iter().skip(1).all(|e| !e.is_main));
}

#[test]
fn same_snapshot_gives_the_same_inventory() {
    assert_eq!(inventory_of(&sample()), inventory_of(&sample()));
    let snapshot = sample();
    assert_eq!(inventory_of(&snapshot), inventory_of(&snapshot));
}

#[test]
fn record_is_shown_as_branch_column_and_path() {
    assert_eq!(BRANCH_COLUMN, 30);
    assert_eq!(entry_line("main", "/work/repo"), format!("{:<30} {}", "main", "/work/repo"));
    assert_eq!(entry_line("main", "/work/repo"), "main                           /work/repo");
    assert_eq!(entry_line("", ""), format!("{:<30} {}", "", ""));
    let long = "feature/a-branch-whose-name-is-longer-than-the-column";
    assert_eq!(entry_line(long, "/w"), format!("{} /w", long));
    assert_eq!(entry_line("分支", "/工作"), format!("{:<30} {}", "分支", "/工作"));
    assert_eq!(entry_line("(detached)", "/w/x y"), format!("{:<30} {}", "(detached)", "/w/x y"));
}
