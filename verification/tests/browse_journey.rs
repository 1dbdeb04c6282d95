use branch_picker::browse::{browse_step, start_browse, BrowseAction, BrowseEvent, BrowseState};
use branch_picker::ui::WtAction;
use branch_picker::worktree::WorktreeEntry;
use std::path::PathBuf;

fn primary() -> WorktreeEntry {
    WorktreeEntry {
        name: "(main)".to_string(),
        branch: "main".to_string(),
        path: PathBuf::from("/work/repo"),
        is_main: true,
    }
}

fn linked(name: &str) -> WorktreeEntry {
    WorktreeEntry {
        name: name.to_string(),
        branch: name.to_string(),
        path: PathBuf::from(format!("/work/{}", name)),
        is_main: false,
    }
}

fn refresh(after_delete: bool) -> (BrowseState, BrowseAction) {
    (BrowseState::Refreshing { after_delete }, BrowseAction::Refresh)
}

fn abort() -> (BrowseState, BrowseAction) {
    (BrowseState::Finished, BrowseAction::Abort)
}

#[test]
fn browsing_nothing_ends_at_once() {
    assert_eq!(start_browse(Vec::new()), (BrowseState::Finished, BrowseAction::ReportNoWorktrees));
}

#[test]
fn browsing_shows_the_list() {
    assert_eq!(
        start_browse(vec![primary(), linked("a")]),
        (BrowseState::Listing { entries: vec![primary(), linked("a")] }, BrowseAction::Select)
    );
}

#[test]
fn pick_leads_to_the_key_for_that_worktree() {
    let listing = BrowseState::Listing { entries: vec![primary(), linked("a"), linked("b")] };
    assert_eq!(
        browse_step(listing, BrowseEvent::Picked(2)),
        (BrowseState::ItemSelected { entry: linked("b") }, BrowseAction::ReadAction { is_main: false })
    );
    let listing = BrowseState::Listing { entries: vec![primary(), linked("a")] };
    assert_eq!(
        browse_step(listing, BrowseEvent::Picked(0)),
        (BrowseState::ItemSelected { entry: primary() }, BrowseAction::ReadAction { is_main: true })
    );
}

#[test]
fn pick_outside_the_list_ends_the_browsing() {
    let listing = BrowseState::Listing { entries: vec![primary()] };
    assert_eq!(browse_step(listing, BrowseEvent::Picked(1)), abort());
}

#[test]
fn dismissed_list_ends_the_browsing() {
    let listing = BrowseState::Listing { entries: vec![primary()] };
    assert_eq!(
        browse_step(listing, BrowseEvent::Dismissed),
        (BrowseState::Finished, BrowseAction::Leave)
    );
}

#[test]
fn entering_starts_a_session_and_ends_the_browsing() {
    assert_eq!(
        browse_step(BrowseState::ItemSelected { entry: linked("a") }, BrowseEvent::Chose(WtAction::Cd)),
        (BrowseState::Finished, BrowseAction::Enter { path: PathBuf::from("/work/a") })
    );
    assert_eq!(
        browse_step(BrowseState::ItemSelected { entry: primary() }, BrowseEvent::Chose(WtAction::Cd)),
        (BrowseState::Finished, BrowseAction::Enter { path: PathBuf::from("/work/repo") })
    );
}

#[test]
fn going_back_takes_stock_again() {
    assert_eq!(
        browse_step(BrowseState::ItemSelected { entry: linked("a") }, BrowseEvent::Chose(WtAction::Back)),
        refresh(false)
    );
}

#[test]
fn cancel_ends_the_browsing() {
    assert_eq!(
        browse_step(
            BrowseState::ItemSelected { entry: linked("a") },
            BrowseEvent::Chose(WtAction::Cancel)
        ),
        (BrowseState::Finished, BrowseAction::Leave)
    );
}

#[test]
fn primary_worktree_cannot_be_deleted() {
    assert_eq!(
        browse_step(
            BrowseState::ItemSelected { entry: primary() },
            BrowseEvent::Chose(WtAction::Delete)
        ),
        (BrowseState::ItemSelected { entry: primary() }, BrowseAction::ReadAction { is_main: true })
    );
}

#[test]
fn deletion_looks_at_the_working_tree_first() {
    assert_eq!(
        browse_step(
            BrowseState::ItemSelected { entry: linked("a") },
            BrowseEvent::Chose(WtAction::Delete)
        ),
        (
            BrowseState::Inspecting { entry: linked("a") },
            BrowseAction::Inspect { path: PathBuf::from("/work/a") }
        )
    );
}

#[test]
fn confirmation_is_asked_for_dirty_and_clean_alike() {
    for dirty in [false, true] {
        assert_eq!(
            browse_step(BrowseState::Inspecting { entry: linked("a") }, BrowseEvent::Inspected(dirty)),
            (
                BrowseState::ConfirmingDelete { entry: linked("a"), dirty },
                BrowseAction::Confirm { name: "a".to_string(), dirty }
            )
        );
    }
}

#[test]
fn yes_removes_the_files() {
    assert_eq!(
        browse_step(
            BrowseState::ConfirmingDelete { entry: linked("a"), dirty: true },
            BrowseEvent::Answered(true)
        ),
        (
            BrowseState::Removing { entry: linked("a") },
            BrowseAction::RemoveFiles { path: PathBuf::from("/work/a") }
        )
    );
}

#[test]
fn no_or_no_answer_leaves_the_worktree_and_refreshes() {
    assert_eq!(
        browse_step(
            BrowseState::ConfirmingDelete { entry: linked("a"), dirty: false },
            BrowseEvent::Answered(false)
        ),
        refresh(true)
    );
    assert_eq!(
        browse_step(
            BrowseState::ConfirmingDelete { entry: linked("a"), dirty: false },
            BrowseEvent::Dismissed
        ),
        refresh(true)
    );
}

#[test]
fn removal_failure_leaves_the_metadata_alone() {
    assert_eq!(
        browse_step(BrowseState::Removing { entry: linked("a") }, BrowseEvent::Removed(false)),
        refresh(true)
    );
}

#[test]
fn removal_is_followed_by_a_prune() {
    assert_eq!(
        browse_step(BrowseState::Removing { entry: linked("a") }, BrowseEvent::Removed(true)),
        (
            BrowseState::Pruning { entry: linked("a") },
            BrowseAction::PruneMetadata { name: "a".to_string() }
        )
    );
}

#[test]
fn prune_is_followed_by_a_fresh_inventory_however_it_went() {
    for ok in [false, true] {
        assert_eq!(
            browse_step(BrowseState::Pruning { entry: linked("a") }, BrowseEvent::Pruned(ok)),
            refresh(true)
        );
    }
}

#[test]
fn fresh_inventory_is_shown() {
    assert_eq!(
        browse_step(
            BrowseState::Refreshing { after_delete: true },
            BrowseEvent::Inventory(vec![primary()])
        ),
        (BrowseState::Listing { entries: vec![primary()] }, BrowseAction::Select)
    );
    assert_eq!(
        browse_step(
            BrowseState::Refreshing { after_delete: false },
            BrowseEvent::Inventory(Vec::new())
        ),
        (BrowseState::Listing { entries: Vec::new() }, BrowseAction::Select)
    );
}

#[test]
fn nothing_left_after_a_deletion_ends_the_browsing() {
    assert_eq!(
        browse_step(
            BrowseState::Refreshing { after_delete: true },
            BrowseEvent::Inventory(Vec::new())
        ),
        (BrowseState::Finished, BrowseAction::ReportNoneLeft)
    );
}

#[test]
fn report_that_answers_nothing_ends_the_browsing() {
    assert_eq!(
        browse_step(BrowseState::Listing { entries: vec![primary()] }, BrowseEvent::Removed(true)),
        abort()
    );
    assert_eq!(
        browse_step(BrowseState::ItemSelected { entry: linked("a") }, BrowseEvent::Answered(true)),
        abort()
    );
    assert_eq!(
        browse_step(BrowseState::Inspecting { entry: linked("a") }, BrowseEvent::Answered(true)),
        abort()
    );
    assert_eq!(
        browse_step(
            BrowseState::ConfirmingDelete { entry: linked("a"), dirty: false },
            BrowseEvent::Removed(true)
        ),
        abort()
    );
    assert_eq!(
        browse_step(BrowseState::Removing { entry: linked("a") }, BrowseEvent::Pruned(true)),
        abort()
    );
    assert_eq!(
        browse_step(BrowseState::Pruning { entry: linked("a") }, BrowseEvent::Removed(true)),
        abort()
    );
    assert_eq!(
        browse_step(BrowseState::Refreshing { after_delete: false }, BrowseEvent::Picked(0)),
        abort()
    );
    assert_eq!(browse_step(BrowseState::Finished, BrowseEvent::Dismissed), abort());
}

#[test]
fn whole_deletion_runs_in_order() {
    let (mut state, mut action) = start_browse(vec![primary(), linked("a")]);
    let reports = vec![
        BrowseEvent::Picked(1),
        BrowseEvent::Chose(WtAction::Delete),
        BrowseEvent::Inspected(false),
        BrowseEvent::Answered(true),
        BrowseEvent::Removed(true),
        BrowseEvent::Pruned(true),
        BrowseEvent::Inventory(vec![primary()]),
    ];
    let mut asked = vec![format!("{:?}", action)];
    for event in reports {
        assert!(state.well_formed());
        let step = browse_step(state, event);
        state = step.0;
        action = step.1;
        asked.push(format!("{:?}", action));
    }
    assert_eq!(
        asked,
        vec![
            "Select".to_string(),
            "ReadAction { is_main: false }".to_string(),
            "Inspect { path: \"/work/a\" }".to_string(),
            "Confirm { name: \"a\", dirty: false }".to_string(),
            "RemoveFiles { path: \"/work/a\" }".to_string(),
            "PruneMetadata { name: \"a\" }".to_string(),
            "Refresh".to_string(),
            "Select".to_string(),
        ]
    );
    assert_eq!(state, BrowseState::Listing { entries: vec![primary()] });
}

#[test]
fn deletion_states_about_the_primary_worktree_are_ill_formed() {
    assert!(!BrowseState::Inspecting { entry: primary() }.well_formed());
    assert!(!BrowseState::ConfirmingDelete { entry: primary(), dirty: false }.well_formed());
    assert!(!BrowseState::Removing { entry: primary() }.well_formed());
    assert!(!BrowseState::Pruning { entry: primary() }.well_formed());
    assert!(BrowseState::ItemSelected { entry: primary() }.well_formed());
    assert!(BrowseState::Removing { entry: linked("a") }.well_formed());
}
