use branch_picker::clean::{partition, prune_worktree, scan_named, scan_worktrees};
use branch_picker::git::{
    checkout_blocked, create_and_checkout, create_worktree, failure, leaves_branch, list_remote_branches, open_repo, provision,
    refusal, set_upstream, sibling_path, tracking_for, BranchProvisionRequest, ErrorKind,
    Upstream,
};
use branch_picker::safety::{
    evaluate, evaluate_worktree, path_is_dirty, tree_status, worktree_is_dirty, Divergence,
    HeadState, SafetyVerdict, SkipReason, TreeStatus, UpstreamState,
};
use branch_picker::worktree::{
    gather_worktrees, head_name, sight, take_snapshot, BranchProbe, Sighting,
};
use git2::build::CheckoutBuilder;
use git2::{BranchType, Commit, ObjectType, Oid, Repository, Signature};
use std::path::{Path, PathBuf};
use tempfile::TempDir;

fn sign() -> Signature<'static> {
    Signature::now("tester", "tester@example.invalid").unwrap()
}

fn commit_file(repo: &Repository, name: &str, content: &str) -> Oid {
    let blob = repo.blob(content.as_bytes()).unwrap();
    let parent = repo.head().ok().and_then(|h| h.peel_to_commit().ok());
    let base = parent.as_ref().map(|c| c.tree().unwrap());
    let mut builder = repo.treebuilder(base.as_ref()).unwrap();
    builder.insert(name, blob, 0o100644).unwrap();
    let tree = repo.find_tree(builder.write().unwrap()).unwrap();
    let parents: Vec<&Commit> = parent.iter().collect();
    let id = repo.commit(Some("HEAD"), &sign(), &sign(), "change", &tree, &parents).unwrap();
    repo.checkout_head(Some(CheckoutBuilder::new().force())).unwrap();
    id
}

struct Scratch {
    dir: TempDir,
    repo: Repository,
    tip: Oid,
}

impl Scratch {
    fn path(&self, name: &str) -> PathBuf {
        self.dir.path().join(name)
    }
}

fn scratch() -> Scratch {
    let dir = tempfile::tempdir().unwrap();
    let repo = Repository::init(dir.path().join("repo")).unwrap();
    let tip = commit_file(&repo, "README", "hello\n");
    Scratch { dir, repo, tip }
}

fn with_origin(branches: &[&str]) -> Scratch {
    let made = scratch();
    made.repo.remote("origin", "https://example.invalid/none.git").unwrap();
    for branch in branches {
        let name = format!("refs/remotes/origin/{}", branch);
        made.repo.reference(&name, made.tip, true, "set up").unwrap();
    }
    made
}

fn upstream_of(repo: &Repository, branch: &str) -> String {
    let local = repo.find_branch(branch, BranchType::Local).unwrap();
    let upstream = local.upstream().unwrap();
    upstream.name().unwrap().unwrap().to_string()
}

fn linked(made: &Scratch, name: &str) -> Repository {
    create_worktree(&made.repo, "main", name, &made.path(name)).unwrap();
    Repository::open(made.path(name)).unwrap()
}

fn drop_a_file_into(dir: &Path) -> tempfile::NamedTempFile {
    tempfile::Builder::new().prefix("note").suffix(".txt").tempfile_in(dir).unwrap()
}

fn reason(verdict: SafetyVerdict) -> SkipReason {
    match verdict {
        SafetyVerdict::Ineligible(reason) => reason,
        SafetyVerdict::Eligible => panic!("eligible"),
    }
}

#[test]
fn repository_without_origin_lists_no_branches() {
    let made = scratch();
    let error = list_remote_branches(&made.repo).unwrap_err();
    assert_eq!(error.kind, ErrorKind::MissingOrigin);
    assert_eq!(error.subject, "origin");
    assert!(!error.detail.is_empty());
}

#[test]
fn branches_of_origin_are_listed_without_head() {
    let made = with_origin(&["main", "feature/x"]);
    made.repo
        .reference_symbolic("refs/remotes/origin/HEAD", "refs/remotes/origin/main", true, "set up")
        .unwrap();
    made.repo.reference("refs/remotes/fork/other", made.tip, true, "set up").unwrap();
    let mut branches = list_remote_branches(&made.repo).unwrap();
    branches.sort();
    assert_eq!(branches, vec!["feature/x".to_string(), "main".to_string()]);
}

#[test]
fn origin_without_branches_lists_nothing() {
    let made = with_origin(&[]);
    assert_eq!(list_remote_branches(&made.repo).unwrap(), Vec::<String>::new());
}

#[test]
fn picked_branch_is_created_checked_out_and_tracked() {
    let made = with_origin(&["main", "feature/x"]);
    let ahead = commit_file(&made.repo, "later", "more\n");
    made.repo.reference("refs/remotes/origin/feature/x", ahead, true, "set up").unwrap();
    made.repo.reference("refs/remotes/origin/main", made.tip, true, "set up").unwrap();

    create_and_checkout(&made.repo, "feature/x", "feature/x-20240101000000").unwrap();

    let head = made.repo.head().unwrap();
    assert!(head.is_branch());
    assert_eq!(head.shorthand(), Some("feature/x-20240101000000"));
    assert_eq!(head.target(), Some(ahead));
    assert_eq!(upstream_of(&made.repo, "feature/x-20240101000000"), "origin/feature/x");
    let config = made.repo.config().unwrap();
    assert_eq!(config.get_string("branch.feature/x-20240101000000.remote").unwrap(), "origin");
    assert_eq!(
        config.get_string("branch.feature/x-20240101000000.merge").unwrap(),
        "refs/heads/feature/x"
    );
}

#[test]
fn unknown_remote_branch_is_reported_by_name() {
    let made = with_origin(&["main"]);
    let error = create_and_checkout(&made.repo, "feature/y", "feature/y-1").unwrap_err();
    assert_eq!(error.kind, ErrorKind::RemoteRefNotFound);
    assert_eq!(error.subject, "feature/y");
    assert!(!leaves_branch(error.kind));
    assert!(made.repo.find_branch("feature/y-1", BranchType::Local).is_err());

    let error =
        create_worktree(&made.repo, "feature/y", "feature/y-1", &made.path("wt")).unwrap_err();
    assert_eq!(error.kind, ErrorKind::RemoteRefNotFound);
    assert_eq!(error.subject, "feature/y");
    assert!(!made.path("wt").exists());
}

#[test]
fn remote_branch_that_leads_to_no_commit_is_reported() {
    let made = with_origin(&["main"]);
    let blob = made.repo.blob(b"not a commit").unwrap();
    made.repo.reference("refs/remotes/origin/odd", blob, true, "set up").unwrap();
    let error = create_and_checkout(&made.repo, "odd", "odd-1").unwrap_err();
    assert_eq!(error.kind, ErrorKind::CommitUnresolvable);
    assert_eq!(error.subject, "odd");
    assert!(made.repo.find_branch("odd-1", BranchType::Local).is_err());
    let error = create_worktree(&made.repo, "odd", "odd-1", &made.path("odd")).unwrap_err();
    assert_eq!(error.kind, ErrorKind::CommitUnresolvable);
    assert_eq!(error.subject, "odd");
}

#[test]
fn local_changes_block_the_checkout_and_nothing_changes() {
    let made = with_origin(&["main"]);
    let base = made.repo.find_commit(made.tip).unwrap();
    let theirs = made.repo.blob(b"theirs\n").unwrap();
    let mut builder = made.repo.treebuilder(Some(&base.tree().unwrap())).unwrap();
    builder.insert("README", theirs, 0o100644).unwrap();
    let tree = made.repo.find_tree(builder.write().unwrap()).unwrap();
    let newer = made.repo.commit(None, &sign(), &sign(), "theirs", &tree, &[&base]).unwrap();
    made.repo.reference("refs/remotes/origin/feature", newer, true, "set up").unwrap();

    let mine = made.repo.blob(b"mine\n").unwrap();
    let mut builder = made.repo.treebuilder(Some(&base.tree().unwrap())).unwrap();
    builder.insert("README", mine, 0o100644).unwrap();
    let local = made.repo.find_object(builder.write().unwrap(), None).unwrap();
    made.repo
        .checkout_tree(&local, Some(CheckoutBuilder::new().force().update_index(false)))
        .unwrap();
    assert!(worktree_is_dirty(&made.repo));
    let head_before = made.repo.head().unwrap().name().unwrap().to_string();
    let tip_before = made.repo.head().unwrap().target();
    let file = made.path("repo").join("README");
    assert_eq!(Oid::hash_file(ObjectType::Blob, &file).unwrap(), mine);

    let error = create_and_checkout(&made.repo, "feature", "feature-1").unwrap_err();

    assert_eq!(error.kind, ErrorKind::CheckoutBlocked);
    assert_eq!(error.subject, "feature-1");
    assert!(!error.detail.is_empty());
    assert!(!leaves_branch(error.kind));
    assert!(made.repo.find_branch("feature-1", BranchType::Local).is_err());
    assert!(made.repo.find_reference("refs/heads/feature-1").is_err());
    assert_eq!(made.repo.head().unwrap().name().unwrap(), head_before);
    assert_eq!(made.repo.head().unwrap().target(), tip_before);
    assert_eq!(Oid::hash_file(ObjectType::Blob, &file).unwrap(), mine);
    let config = made.repo.config().unwrap();
    assert!(config.get_string("branch.feature-1.remote").is_err());
    assert!(config.get_string("branch.feature-1.merge").is_err());
}

#[test]
fn name_is_free_again_after_a_blocked_checkout() {
    let made = with_origin(&["main"]);
    let base = made.repo.find_commit(made.tip).unwrap();
    let theirs = made.repo.blob(b"theirs\n").unwrap();
    let mut builder = made.repo.treebuilder(Some(&base.tree().unwrap())).unwrap();
    builder.insert("README", theirs, 0o100644).unwrap();
    let tree = made.repo.find_tree(builder.write().unwrap()).unwrap();
    let newer = made.repo.commit(None, &sign(), &sign(), "theirs", &tree, &[&base]).unwrap();
    made.repo.reference("refs/remotes/origin/feature", newer, true, "set up").unwrap();
    let mine = made.repo.blob(b"mine\n").unwrap();
    let mut builder = made.repo.treebuilder(Some(&base.tree().unwrap())).unwrap();
    builder.insert("README", mine, 0o100644).unwrap();
    let local = made.repo.find_object(builder.write().unwrap(), None).unwrap();
    made.repo
        .checkout_tree(&local, Some(CheckoutBuilder::new().force().update_index(false)))
        .unwrap();

    let first = create_and_checkout(&made.repo, "feature", "feature-1").unwrap_err();
    assert_eq!(first.kind, ErrorKind::CheckoutBlocked);
    let second = create_and_checkout(&made.repo, "feature", "feature-1").unwrap_err();
    assert_eq!(second.kind, ErrorKind::CheckoutBlocked);

    made.repo.checkout_head(Some(CheckoutBuilder::new().force())).unwrap();
    create_and_checkout(&made.repo, "feature", "feature-1").unwrap();
    assert_eq!(made.repo.head().unwrap().shorthand(), Some("feature-1"));
    assert_eq!(made.repo.head().unwrap().target(), Some(newer));
    assert_eq!(upstream_of(&made.repo, "feature-1"), "origin/feature");
}

#[test]
fn blocked_checkout_is_reported_by_how_the_rollback_went() {
    let cause = git2::Error::from_str("1 conflict prevents checkout");
    let gone = checkout_blocked("work", &cause, Ok(()));
    assert_eq!(gone.kind, ErrorKind::CheckoutBlocked);
    assert_eq!(gone.subject, "work");
    assert_eq!(gone.detail, "1 conflict prevents checkout");
    assert!(!leaves_branch(gone.kind));
    let stuck = checkout_blocked("work", &cause, Err(git2::Error::from_str("cannot delete")));
    assert_eq!(stuck.kind, ErrorKind::RollbackFailed);
    assert_eq!(stuck.subject, "work");
    assert_eq!(stuck.detail, "cannot delete");
    assert!(leaves_branch(stuck.kind));
}

#[test]
fn taken_branch_name_is_reported_by_name() {
    let made = with_origin(&["main"]);
    create_and_checkout(&made.repo, "main", "work").unwrap();
    let error = create_and_checkout(&made.repo, "main", "work").unwrap_err();
    assert_eq!(error.kind, ErrorKind::BranchNameCollision);
    assert_eq!(error.subject, "work");
    let error = create_worktree(&made.repo, "main", "work", &made.path("wt")).unwrap_err();
    assert_eq!(error.kind, ErrorKind::BranchNameCollision);
    assert_eq!(error.subject, "work");
    assert!(!made.path("wt").exists());
}

#[test]
fn worktree_is_created_on_a_tracked_branch_without_moving_head() {
    let made = with_origin(&["main"]);
    let before = made.repo.head().unwrap().name().unwrap().to_string();

    create_worktree(&made.repo, "main", "main-20240101000000", &made.path("wt")).unwrap();

    assert_eq!(made.repo.head().unwrap().name().unwrap(), before);
    let names: Vec<String> =
        made.repo.worktrees().unwrap().iter().flatten().map(|n| n.to_string()).collect();
    assert_eq!(names, vec!["main-20240101000000".to_string()]);
    let opened = Repository::open(made.path("wt")).unwrap();
    assert_eq!(opened.head().unwrap().shorthand(), Some("main-20240101000000"));
    assert_eq!(opened.head().unwrap().target(), Some(made.tip));
    assert_eq!(upstream_of(&made.repo, "main-20240101000000"), "origin/main");
    assert!(made.path("wt").join("README").exists());
}

#[test]
fn failed_worktree_leaves_the_branch_behind() {
    let made = with_origin(&["main"]);
    let taken = made.path("taken");
    let _holder = Repository::init(&taken).unwrap();
    let _file = drop_a_file_into(&taken);
    let error = create_worktree(&made.repo, "main", "kept", &taken).unwrap_err();
    assert_eq!(error.kind, ErrorKind::WorktreeCreateFailed);
    assert_eq!(error.subject, "kept");
    assert!(leaves_branch(error.kind));
    assert!(made.repo.find_branch("kept", BranchType::Local).is_ok());
}

#[test]
fn worktree_named_with_a_slash_fails_and_leaves_the_branch() {
    let made = with_origin(&["feature/x"]);
    let error = create_worktree(
        &made.repo,
        "feature/x",
        "feature/x-20240101000000",
        &made.path("x-20240101000000"),
    )
    .unwrap_err();
    assert_eq!(error.kind, ErrorKind::WorktreeCreateFailed);
    assert_eq!(error.subject, "feature/x-20240101000000");
    assert!(!error.detail.is_empty());
    assert!(leaves_branch(error.kind));
    let kept = made.repo.find_branch("feature/x-20240101000000", BranchType::Local).unwrap();
    assert_eq!(kept.get().target(), Some(made.tip));
    assert!(made.repo.worktrees().unwrap().is_empty());
}

#[test]
fn request_with_a_path_gets_a_worktree() {
    let made = with_origin(&["main"]);
    let request = BranchProvisionRequest {
        remote_branch: "main".to_string(),
        new_branch_name: "with-tree".to_string(),
        target_path: Some(made.path("with-tree")),
    };
    provision(&made.repo, &request).unwrap();
    assert!(made.path("with-tree").join("README").exists());
    assert_eq!(upstream_of(&made.repo, "with-tree"), "origin/main");
    assert_ne!(made.repo.head().unwrap().shorthand(), Some("with-tree"));
}

#[test]
fn request_without_a_path_switches_in_place() {
    let made = with_origin(&["main"]);
    let request = BranchProvisionRequest {
        remote_branch: "main".to_string(),
        new_branch_name: "in-place".to_string(),
        target_path: None,
    };
    provision(&made.repo, &request).unwrap();
    assert_eq!(made.repo.head().unwrap().shorthand(), Some("in-place"));
    assert_eq!(upstream_of(&made.repo, "in-place"), "origin/main");
    assert!(made.repo.worktrees().unwrap().is_empty());
}

#[test]
fn tracking_is_written_under_both_keys() {
    let made = with_origin(&["main", "release/1"]);
    let tip = made.repo.find_commit(made.tip).unwrap();
    made.repo.branch("topic", &tip, false).unwrap();
    set_upstream(&made.repo, "topic", &tracking_for("release/1")).unwrap();
    let config = made.repo.config().unwrap();
    assert_eq!(config.get_string("branch.topic.remote").unwrap(), "origin");
    assert_eq!(config.get_string("branch.topic.merge").unwrap(), "refs/heads/release/1");
    assert_eq!(upstream_of(&made.repo, "topic"), "origin/release/1");
}

#[test]
fn tracking_that_cannot_be_written_leaves_nothing_behind() {
    let made = with_origin(&["main"]);
    let tip = made.repo.find_commit(made.tip).unwrap();
    made.repo.branch("topic", &tip, false).unwrap();

    let error = set_upstream(&made.repo, "topic", &tracking_for("nowhere")).unwrap_err();
    assert_eq!(error.kind, ErrorKind::ConfigWriteFailure);
    assert_eq!(error.subject, "topic");
    let odd = Upstream { remote_name: "origin".to_string(), remote_ref: "refs/tags/v1".to_string() };
    let error = set_upstream(&made.repo, "topic", &odd).unwrap_err();
    assert_eq!(error.kind, ErrorKind::ConfigWriteFailure);
    assert_eq!(error.subject, "topic");
    assert!(error.detail.is_empty());
    let error = set_upstream(&made.repo, "no-such-branch", &tracking_for("main")).unwrap_err();
    assert_eq!(error.kind, ErrorKind::ConfigWriteFailure);
    assert_eq!(error.subject, "no-such-branch");

    let config = made.repo.config().unwrap();
    assert!(config.get_string("branch.topic.remote").is_err());
    assert!(config.get_string("branch.topic.merge").is_err());
    assert!(config.get_string("branch.no-such-branch.remote").is_err());
}

#[test]
fn worktree_goes_beside_the_working_directory() {
    let made = scratch();
    let place = sibling_path(&made.repo, "main-20240101000000").unwrap();
    assert_eq!(place.file_name().unwrap(), "main-20240101000000");
    assert_eq!(
        place.parent().unwrap().canonicalize().unwrap(),
        made.dir.path().canonicalize().unwrap()
    );
}

#[test]
fn bare_repository_has_no_place_for_a_worktree() {
    let dir = tempfile::tempdir().unwrap();
    let bare = Repository::init_bare(dir.path().join("bare.git")).unwrap();
    let error = sibling_path(&bare, "x").unwrap_err();
    assert_eq!(error.kind, ErrorKind::BareRepository);
    assert_eq!(error.subject, "x");
    assert!(error.detail.is_empty());
}

#[test]
fn opening_outside_a_repository_is_reported() {
    match open_repo() {
        Ok(repo) => assert!(repo.path().exists()),
        Err(error) => {
            assert_eq!(error.kind, ErrorKind::NotARepository);
            assert_eq!(error.subject, ".");
        }
    }
}

#[test]
fn inventory_lists_the_primary_worktree_first() {
    let made = with_origin(&["main"]);
    let _a = linked(&made, "alpha");
    let _b = linked(&made, "beta");
    let entries = gather_worktrees(&made.repo).unwrap();
    assert_eq!(entries.len(), 3);
    assert_eq!(entries[0].name, "(main)");
    assert!(entries[0].is_main);
    assert_eq!(Some(entries[0].branch.as_str()), made.repo.head().unwrap().shorthand());
    assert_eq!(
        entries[0].path.canonicalize().unwrap(),
        made.path("repo").canonicalize().unwrap()
    );
    let mut names: Vec<&str> = entries[1..].iter().map(|e| e.name.as_str()).collect();
    names.sort();
    assert_eq!(names, vec!["alpha", "beta"]);
    for entry in &entries[1..] {
        assert!(!entry.is_main);
        assert_eq!(entry.branch, entry.name);
        assert_eq!(
            entry.path.canonicalize().unwrap(),
            made.path(&entry.name).canonicalize().unwrap()
        );
    }
}

#[test]
fn inventory_is_the_same_when_nothing_changed() {
    let made = with_origin(&["main"]);
    let _a = linked(&made, "alpha");
    let _b = linked(&made, "beta");
    let first = gather_worktrees(&made.repo).unwrap();
    let second = gather_worktrees(&made.repo).unwrap();
    assert_eq!(first, second);
    assert_eq!(take_snapshot(&made.repo).unwrap(), take_snapshot(&made.repo).unwrap());
}

#[test]
fn inventory_follows_a_change() {
    let made = with_origin(&["main"]);
    assert_eq!(gather_worktrees(&made.repo).unwrap().len(), 1);
    let _a = linked(&made, "alpha");
    assert_eq!(gather_worktrees(&made.repo).unwrap().len(), 2);
}

#[test]
fn detached_worktree_is_listed_as_head() {
    let made = with_origin(&["main"]);
    let opened = linked(&made, "alpha");
    opened.set_head_detached(made.tip).unwrap();
    let entries = gather_worktrees(&made.repo).unwrap();
    assert_eq!(entries[1].name, "alpha");
    assert_eq!(entries[1].branch, "HEAD");
    assert_eq!(head_name(&opened), Some("HEAD".to_string()));
}

#[test]
fn repository_without_commits_is_listed_as_detached() {
    let dir = tempfile::tempdir().unwrap();
    let empty = Repository::init(dir.path().join("empty")).unwrap();
    assert_eq!(head_name(&empty), None);
    let entries = gather_worktrees(&empty).unwrap();
    assert_eq!(entries.len(), 1);
    assert_eq!(entries[0].branch, "(detached)");
    assert!(entries[0].is_main);
}

#[test]
fn vanished_worktree_is_listed_as_unknown() {
    let made = with_origin(&["main"]);
    let holder = tempfile::tempdir().unwrap();
    let place = holder.path().join("wt");
    create_worktree(&made.repo, "main", "lost", &place).unwrap();
    holder.close().unwrap();
    let entries = gather_worktrees(&made.repo).unwrap();
    assert_eq!(entries.len(), 2);
    assert_eq!(entries[1].name, "lost");
    assert_eq!(entries[1].branch, "(unknown)");
    assert!(!entries[1].is_main);
}

#[test]
fn listed_names_are_looked_up() {
    let made = with_origin(&["main"]);
    let _a = linked(&made, "alpha");
    assert_eq!(sight(&made.repo, &None), Sighting::Unnamed);
    assert_eq!(
        sight(&made.repo, &Some("nowhere".to_string())),
        Sighting::Unloadable { name: "nowhere".to_string() }
    );
    match sight(&made.repo, &Some("alpha".to_string())) {
        Sighting::Loaded { name, path, branch } => {
            assert_eq!(name, "alpha");
            assert_eq!(path.canonicalize().unwrap(), made.path("alpha").canonicalize().unwrap());
            assert_eq!(branch, BranchProbe::Head(Some("alpha".to_string())));
        }
        other => panic!("{:?}", other),
    }
}

#[test]
fn clean_and_pushed_worktree_evaluates_eligible() {
    let made = with_origin(&["main"]);
    let _a = linked(&made, "alpha");
    let evaluation = evaluate_worktree(&made.repo, "alpha");
    assert_eq!(evaluation.verdict, SafetyVerdict::Eligible);
    assert!(evaluation.facts.loaded && evaluation.facts.opened && evaluation.facts.local_branch);
    assert_eq!(evaluation.facts.status, TreeStatus::Clean);
    assert_eq!(evaluation.facts.head, HeadState::OnBranch);
    assert_eq!(evaluation.facts.upstream, UpstreamState::Resolved);
    assert_eq!(evaluation.facts.divergence, Divergence::Ahead(0));
    assert_eq!(
        evaluation.path.unwrap().canonicalize().unwrap(),
        made.path("alpha").canonicalize().unwrap()
    );
}

#[test]
fn untracked_file_makes_a_worktree_dirty() {
    let made = with_origin(&["main"]);
    let opened = linked(&made, "alpha");
    assert!(!worktree_is_dirty(&opened));
    assert!(!path_is_dirty(&made.path("alpha")));
    assert_eq!(tree_status(&opened), TreeStatus::Clean);
    let _file = drop_a_file_into(&made.path("alpha"));
    assert!(worktree_is_dirty(&opened));
    assert!(path_is_dirty(&made.path("alpha")));
    assert_eq!(tree_status(&opened), TreeStatus::Dirty);
    let evaluation = evaluate_worktree(&made.repo, "alpha");
    assert_eq!(reason(evaluation.verdict), SkipReason::DirtyWorkingTree);
    assert_eq!(evaluation.facts.head, HeadState::Missing);
}

#[test]
fn ignored_file_does_not_make_a_worktree_dirty() {
    let made = with_origin(&["main"]);
    commit_file(&made.repo, ".gitignore", "*.txt\n");
    made.repo.reference("refs/remotes/origin/main", made.repo.head().unwrap().target().unwrap(), true, "push").unwrap();
    let opened = linked(&made, "alpha");
    let _file = drop_a_file_into(&made.path("alpha"));
    assert!(!worktree_is_dirty(&opened));
    assert_eq!(evaluate_worktree(&made.repo, "alpha").verdict, SafetyVerdict::Eligible);
}

#[test]
fn path_that_is_no_repository_counts_as_dirty() {
    let dir = tempfile::tempdir().unwrap();
    assert!(path_is_dirty(&dir.path().join("nothing-here")));
}

#[test]
fn dirty_worktree_is_skipped_whatever_its_commits() {
    let made = with_origin(&["main"]);
    let opened = linked(&made, "alpha");
    commit_file(&opened, "work", "unpushed\n");
    let _file = drop_a_file_into(&made.path("alpha"));
    assert_eq!(
        reason(evaluate_worktree(&made.repo, "alpha").verdict),
        SkipReason::DirtyWorkingTree
    );
}

#[test]
fn detached_worktree_is_skipped_even_when_clean() {
    let made = with_origin(&["main"]);
    let opened = linked(&made, "alpha");
    opened.set_head_detached(made.tip).unwrap();
    let evaluation = evaluate_worktree(&made.repo, "alpha");
    assert_eq!(evaluation.facts.status, TreeStatus::Clean);
    assert_eq!(evaluation.facts.head, HeadState::Detached);
    assert_eq!(reason(evaluation.verdict), SkipReason::DetachedHead);
}

#[test]
fn two_unpushed_commits_are_skipped_until_pushed() {
    let made = with_origin(&["main"]);
    let opened = linked(&made, "alpha");
    commit_file(&opened, "one", "1\n");
    let tip = commit_file(&opened, "two", "2\n");
    let evaluation = evaluate_worktree(&made.repo, "alpha");
    assert_eq!(evaluation.facts.divergence, Divergence::Ahead(2));
    assert_eq!(reason(evaluation.verdict), SkipReason::AheadOfUpstream);

    made.repo.reference("refs/remotes/origin/main", tip, true, "push").unwrap();
    let evaluation = evaluate_worktree(&made.repo, "alpha");
    assert_eq!(evaluation.facts.divergence, Divergence::Ahead(0));
    assert_eq!(evaluation.verdict, SafetyVerdict::Eligible);
}

#[test]
fn worktree_behind_its_upstream_is_eligible() {
    let made = with_origin(&["main"]);
    let _a = linked(&made, "alpha");
    let newer = commit_file(&made.repo, "upstream", "news\n");
    made.repo.reference("refs/remotes/origin/main", newer, true, "fetch").unwrap();
    assert_eq!(evaluate_worktree(&made.repo, "alpha").verdict, SafetyVerdict::Eligible);
}

#[test]
fn branch_without_upstream_is_skipped() {
    let made = with_origin(&["main"]);
    let _a = linked(&made, "alpha");
    let mut local = made.repo.find_branch("alpha", BranchType::Local).unwrap();
    local.set_upstream(None).unwrap();
    let evaluation = evaluate_worktree(&made.repo, "alpha");
    assert_eq!(reason(evaluation.verdict), SkipReason::NoUpstream);
    assert!(evaluation.facts.local_branch);
    assert_eq!(evaluation.facts.upstream, UpstreamState::Missing);
}

#[test]
fn unknown_worktree_is_skipped_as_unloadable() {
    let made = with_origin(&["main"]);
    let evaluation = evaluate_worktree(&made.repo, "nowhere");
    assert_eq!(reason(evaluation.verdict), SkipReason::LoadFailure);
    assert_eq!(evaluation.path, None);
    assert!(!evaluation.facts.loaded);
}

#[test]
fn vanished_worktree_is_skipped_as_unopenable() {
    let made = with_origin(&["main"]);
    let holder = tempfile::tempdir().unwrap();
    create_worktree(&made.repo, "main", "lost", &holder.path().join("wt")).unwrap();
    holder.close().unwrap();
    let evaluation = evaluate_worktree(&made.repo, "lost");
    assert_eq!(reason(evaluation.verdict), SkipReason::OpenFailure);
    assert!(evaluation.facts.loaded && !evaluation.facts.opened);
    assert!(evaluation.path.is_some());
}

#[test]
fn inventory_record_is_evaluated_by_its_name() {
    let made = with_origin(&["main"]);
    let _a = linked(&made, "alpha");
    let entries = gather_worktrees(&made.repo).unwrap();
    assert!(!entries[1].is_main);
    assert_eq!(evaluate(&made.repo, &entries[1]).verdict, SafetyVerdict::Eligible);
}

#[test]
fn scan_sorts_real_worktrees_into_lots() {
    let made = with_origin(&["main"]);
    let _clean = linked(&made, "alpha");
    let _dirty = linked(&made, "beta");
    let ahead = linked(&made, "gamma");
    let _file = drop_a_file_into(&made.path("beta"));
    commit_file(&ahead, "work", "unpushed\n");

    let scan = scan_worktrees(&made.repo).unwrap();
    assert_eq!(scan.listed, 3);
    assert_eq!(scan.entries.len(), 3);
    let plan = partition(&scan.entries);
    let eligible: Vec<&str> = plan.eligible.iter().map(|w| w.name.as_str()).collect();
    assert_eq!(eligible, vec!["alpha"]);
    let mut skipped: Vec<(&str, SkipReason)> =
        plan.skipped.iter().map(|s| (s.name.as_str(), s.reason)).collect();
    skipped.sort_by(|a, b| a.0.cmp(b.0));
    assert_eq!(
        skipped,
        vec![("beta", SkipReason::DirtyWorkingTree), ("gamma", SkipReason::AheadOfUpstream)]
    );
    assert!(made.path("beta").exists());
}

#[test]
fn scan_of_a_repository_without_worktrees_is_empty() {
    let made = scratch();
    let scan = scan_worktrees(&made.repo).unwrap();
    assert_eq!(scan.listed, 0);
    assert!(scan.entries.is_empty());
}

#[test]
fn scan_leaves_out_unreadable_names() {
    let made = with_origin(&["main"]);
    let _a = linked(&made, "alpha");
    let listed = vec![None, Some("alpha".to_string()), Some("nowhere".to_string()), None];
    let entries = scan_named(&made.repo, &listed);
    assert_eq!(entries.len(), 2);
    assert_eq!(entries[0].name, "alpha");
    assert_eq!(entries[0].evaluation.verdict, SafetyVerdict::Eligible);
    assert_eq!(entries[1].name, "nowhere");
    assert_eq!(reason(entries[1].evaluation.verdict), SkipReason::LoadFailure);
}

#[test]
fn metadata_is_pruned_once_the_files_are_gone() {
    let made = with_origin(&["main"]);
    let holder = tempfile::tempdir().unwrap();
    create_worktree(&made.repo, "main", "done", &holder.path().join("wt")).unwrap();
    assert_eq!(made.repo.worktrees().unwrap().len(), 1);
    holder.close().unwrap();
    prune_worktree(&made.repo, "done").unwrap();
    assert_eq!(made.repo.worktrees().unwrap().len(), 0);
    assert_eq!(gather_worktrees(&made.repo).unwrap().len(), 1);
}

#[test]
fn pruning_an_unknown_worktree_is_reported() {
    let made = scratch();
    let error = prune_worktree(&made.repo, "nowhere").unwrap_err();
    assert_eq!(error.kind, ErrorKind::PruneFailed);
    assert_eq!(error.subject, "nowhere");
}

#[test]
fn pruning_a_worktree_that_is_still_there_is_refused() {
    let made = with_origin(&["main"]);
    let _a = linked(&made, "alpha");
    let error = prune_worktree(&made.repo, "alpha").unwrap_err();
    assert_eq!(error.kind, ErrorKind::PruneFailed);
    assert_eq!(error.subject, "alpha");
    assert_eq!(made.repo.worktrees().unwrap().len(), 1);
}

#[test]
fn backend_error_becomes_a_failure_of_the_step() {
    let cause = git2::Error::from_str("reference not found");
    let error = failure(ErrorKind::RemoteRefNotFound, "feature/x", &cause);
    assert_eq!(error.kind, ErrorKind::RemoteRefNotFound);
    assert_eq!(error.subject, "feature/x");
    assert_eq!(error.detail, "reference not found");
    let error = refusal(ErrorKind::BareRepository, "main-1");
    assert_eq!(error.kind, ErrorKind::BareRepository);
    assert_eq!(error.subject, "main-1");
    assert_eq!(error.detail, "");
}
