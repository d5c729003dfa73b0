use itch::branch::{delete_branch, list_branches, new_command};
use itch::cli::{LoadArgs, SaveArgs};
use itch::ctx::{Branch, Commit, Ctx};
use itch::error::WorkError;
use itch::load::load_command;
use itch::merge::merge_command;
use itch::remote::{
    get_remote, pull_main, push_branch, push_main, resolve_cred, try_pull_main, try_push_branch,
    try_push_main, CredKind,
};
use itch::save::{save_command, SaveStatus};

fn commit(parent: Option<usize>, tree: u64, message: &str) -> Commit {
    Commit { parent, tree, message: message.to_string() }
}

fn branch(name: &str, tip: usize) -> Branch {
    Branch { name: name.to_string(), tip }
}

/// One root commit with tree 1, `main` checked out, a clean tree, no
/// remote configured.
fn base_ctx() -> Ctx {
    Ctx {
        commits: vec![commit(None, 1, "root")],
        branches: vec![branch("main", 0)],
        head: 0,
        worktree: 1,
        remotes: vec![],
        remote_refs: vec![],
        prefix: "alice-".to_string(),
    }
}

fn save_args(words: &[&str]) -> SaveArgs {
    SaveArgs { message: words.iter().map(|w| w.to_string()).collect() }
}

#[test]
fn save_commits_dirty_tree() {
    let mut ctx = base_ctx();
    ctx.worktree = 2;
    let status = save_command(&mut ctx, &save_args(&["fix", "the", "bug"]));
    assert_eq!(status, SaveStatus::Committed);
    assert_eq!(ctx.commits.len(), 2);
    assert_eq!(ctx.commits[1].parent, Some(0));
    assert_eq!(ctx.commits[1].tree, 2);
    assert_eq!(ctx.commits[1].message, "fix the bug");
    assert_eq!(ctx.branches[0].tip, 1);
    assert_eq!(ctx.worktree, 2);
}

#[test]
fn save_default_message() {
    let mut ctx = base_ctx();
    ctx.worktree = 7;
    let status = save_command(&mut ctx, &save_args(&[]));
    assert_eq!(status, SaveStatus::Committed);
    assert_eq!(ctx.commits[1].message, "Save");
}

#[test]
fn save_clean_tree_is_noop() {
    let mut ctx = base_ctx();
    let status = save_command(&mut ctx, &save_args(&["nothing"]));
    assert_eq!(status, SaveStatus::NoChanges);
    assert_eq!(ctx.commits.len(), 1);
    assert_eq!(ctx.branches[0].tip, 0);
}

#[test]
fn save_twice_creates_at_most_one_commit() {
    let mut ctx = base_ctx();
    ctx.worktree = 3;
    let first = save_command(&mut ctx, &save_args(&["work"]));
    let second = save_command(&mut ctx, &save_args(&["work"]));
    assert_eq!(first, SaveStatus::Committed);
    assert_eq!(second, SaveStatus::NoChanges);
    assert_eq!(ctx.commits.len(), 2);
}

/// main at the root, `feature` one commit ahead, `feature` checked out.
fn feature_ahead_ctx() -> Ctx {
    let mut ctx = base_ctx();
    ctx.commits.push(commit(Some(0), 2, "ahead"));
    ctx.branches.push(branch("feature", 1));
    ctx.head = 1;
    ctx.worktree = 2;
    ctx
}

#[test]
fn merge_fast_forwards_main() {
    let mut ctx = feature_ahead_ctx();
    let r = merge_command(&mut ctx);
    assert!(r.is_ok());
    assert_eq!(ctx.commits.len(), 2, "merge must not create a commit");
    assert_eq!(ctx.branches[0].tip, 1, "main now at the feature tip");
    assert_eq!(ctx.branches[1].tip, 1);
    assert_eq!(ctx.head, 1, "merge does not switch branches");
}

#[test]
fn merge_from_main_is_rejected() {
    let mut ctx = feature_ahead_ctx();
    ctx.head = 0;
    ctx.worktree = 1;
    let r = merge_command(&mut ctx);
    assert_eq!(r, Err(WorkError::CannotMergeFromMain));
    assert_eq!(ctx.branches[0].tip, 0, "no ref moved");
    assert_eq!(ctx.branches[1].tip, 1, "no ref moved");
    assert_eq!(ctx.commits.len(), 2);
}

#[test]
fn merge_diverged_must_sync_first() {
    let mut ctx = feature_ahead_ctx();
    // main moves on its own: its tip is no ancestor of the feature tip.
    ctx.commits.push(commit(Some(0), 9, "elsewhere"));
    ctx.branches[0].tip = 2;
    let r = merge_command(&mut ctx);
    assert_eq!(r, Err(WorkError::MustSyncFirst));
    assert_eq!(ctx.branches[0].tip, 2, "main unchanged");
}

#[test]
fn load_autosaves_before_switching() {
    let mut ctx = feature_ahead_ctx();
    ctx.worktree = 5;  // uncommitted changes on feature
    let r = load_command(&mut ctx, &LoadArgs { target: "main".to_string() });
    assert!(r.is_ok());
    assert_eq!(ctx.commits.len(), 3, "the changes were committed first");
    assert_eq!(ctx.commits[2].parent, Some(1));
    assert_eq!(ctx.commits[2].tree, 5);
    assert_eq!(ctx.commits[2].message, "Save before switching to main");
    assert_eq!(ctx.branches[1].tip, 2, "the snapshot sits on the old branch");
    assert_eq!(ctx.head, 0, "HEAD resolves to the target");
    assert_eq!(ctx.worktree, 1, "the target tree is checked out");
}

#[test]
fn load_unknown_branch_keeps_snapshot() {
    let mut ctx = feature_ahead_ctx();
    ctx.worktree = 5;
    let r = load_command(&mut ctx, &LoadArgs { target: "nope".to_string() });
    assert_eq!(r, Err(WorkError::UnknownBranch));
    assert_eq!(ctx.commits.len(), 3, "the snapshot is not rolled back");
    assert_eq!(ctx.head, 1, "still on the old branch");
}

#[test]
fn load_clean_tree_saves_nothing() {
    let mut ctx = feature_ahead_ctx();
    let r = load_command(&mut ctx, &LoadArgs { target: "main".to_string() });
    assert!(r.is_ok());
    assert_eq!(ctx.commits.len(), 2, "clean tree: no snapshot commit");
    assert_eq!(ctx.head, 0);
}

#[test]
fn push_branch_uses_prefix() {
    let mut ctx = feature_ahead_ctx();
    ctx.remotes = vec!["origin".to_string()];
    ctx.remote_refs = vec![branch("feature", 0)];
    let r = push_branch(&mut ctx, &"feature".to_string());
    assert!(r.is_ok());
    assert_eq!(ctx.remote_refs.len(), 2);
    assert_eq!(ctx.remote_refs[0].name, "feature");
    assert_eq!(ctx.remote_refs[0].tip, 0, "the unprefixed ref never moves");
    assert_eq!(ctx.remote_refs[1].name, "alice-feature");
    assert_eq!(ctx.remote_refs[1].tip, 1);
}

#[test]
fn push_branch_force_updates_existing_ref() {
    let mut ctx = feature_ahead_ctx();
    ctx.remotes = vec!["origin".to_string()];
    ctx.remote_refs = vec![branch("alice-feature", 0)];
    let r = push_branch(&mut ctx, &"feature".to_string());
    assert!(r.is_ok());
    assert_eq!(ctx.remote_refs.len(), 1);
    assert_eq!(ctx.remote_refs[0].tip, 1);
}

#[test]
fn push_branch_without_remote_is_noop() {
    let mut ctx = feature_ahead_ctx();
    let r = push_branch(&mut ctx, &"feature".to_string());
    assert!(r.is_ok());
    assert!(ctx.remote_refs.is_empty());
}

#[test]
fn push_unknown_branch_fails() {
    let mut ctx = feature_ahead_ctx();
    ctx.remotes = vec!["origin".to_string()];
    let r = push_branch(&mut ctx, &"ghost".to_string());
    assert_eq!(r, Err(WorkError::UnknownBranch));
}

#[test]
fn ambiguous_remotes_fail_sync() {
    let mut ctx = feature_ahead_ctx();
    ctx.remotes = vec!["fork".to_string(), "upstream".to_string()];
    ctx.remote_refs = vec![branch("main", 0)];
    assert_eq!(push_branch(&mut ctx, &"feature".to_string()), Err(WorkError::AmbiguousRemote));
    assert_eq!(pull_main(&mut ctx), Err(WorkError::AmbiguousRemote));
    assert_eq!(push_main(&mut ctx), Err(WorkError::AmbiguousRemote));
    assert_eq!(ctx.remote_refs[0].tip, 0, "no ref moved");
    assert_eq!(ctx.branches[0].tip, 0, "no ref moved");
}

#[test]
fn origin_wins_among_several_remotes() {
    let mut ctx = base_ctx();
    ctx.remotes = vec!["fork".to_string(), "origin".to_string()];
    assert_eq!(get_remote(&ctx), Ok(Some(1)));
}

#[test]
fn single_remote_is_used() {
    let mut ctx = base_ctx();
    ctx.remotes = vec!["upstream".to_string()];
    assert_eq!(get_remote(&ctx), Ok(Some(0)));
    assert_eq!(get_remote(&base_ctx()), Ok(None));
}

#[test]
fn pull_fast_forwards_local_main() {
    let mut ctx = base_ctx();
    ctx.commits.push(commit(Some(0), 4, "upstream work"));
    ctx.remotes = vec!["origin".to_string()];
    ctx.remote_refs = vec![branch("main", 1)];
    let r = pull_main(&mut ctx);
    assert!(r.is_ok());
    assert_eq!(ctx.branches[0].tip, 1, "local main advanced");
}

#[test]
fn pull_up_to_date_is_noop() {
    let mut ctx = base_ctx();
    ctx.commits.push(commit(Some(0), 4, "local work"));
    ctx.branches[0].tip = 1;
    ctx.worktree = 4;
    ctx.remotes = vec!["origin".to_string()];
    ctx.remote_refs = vec![branch("main", 0)];
    let r = pull_main(&mut ctx);
    assert!(r.is_ok());
    assert_eq!(ctx.branches[0].tip, 1, "local main unchanged");
}

#[test]
fn pull_diverged_fails_hard() {
    let mut ctx = base_ctx();
    ctx.commits.push(commit(Some(0), 4, "local only"));
    ctx.commits.push(commit(Some(0), 5, "upstream only"));
    ctx.branches[0].tip = 1;
    ctx.worktree = 4;
    ctx.remotes = vec!["origin".to_string()];
    ctx.remote_refs = vec![branch("main", 2)];
    let r = pull_main(&mut ctx);
    assert_eq!(r, Err(WorkError::DivergedHistory));
    assert_eq!(ctx.branches[0].tip, 1, "local main did not move");
}

#[test]
fn pull_without_upstream_fails() {
    let mut ctx = base_ctx();
    ctx.remotes = vec!["origin".to_string()];
    let r = pull_main(&mut ctx);
    assert_eq!(r, Err(WorkError::UnknownBranch));
}

#[test]
fn push_main_unprefixed() {
    let mut ctx = base_ctx();
    ctx.commits.push(commit(Some(0), 4, "work"));
    ctx.branches[0].tip = 1;
    ctx.worktree = 4;
    ctx.remotes = vec!["origin".to_string()];
    ctx.remote_refs = vec![branch("main", 0)];
    let r = push_main(&mut ctx);
    assert!(r.is_ok());
    assert_eq!(ctx.remote_refs.len(), 1, "no prefixed copy appears");
    assert_eq!(ctx.remote_refs[0].name, "main");
    assert_eq!(ctx.remote_refs[0].tip, 1);
}

#[test]
fn push_main_rejected_when_remote_ahead() {
    let mut ctx = base_ctx();
    ctx.commits.push(commit(Some(0), 4, "local only"));
    ctx.commits.push(commit(Some(0), 5, "upstream only"));
    ctx.branches[0].tip = 1;
    ctx.worktree = 4;
    ctx.remotes = vec!["origin".to_string()];
    ctx.remote_refs = vec![branch("main", 2)];
    let r = push_main(&mut ctx);
    assert_eq!(r, Err(WorkError::DivergedHistory));
    assert_eq!(ctx.remote_refs[0].tip, 2, "remote main untouched");
}

#[test]
fn try_variants_downgrade_failures() {
    let mut ctx = base_ctx();
    ctx.remotes = vec!["fork".to_string(), "upstream".to_string()];
    assert_eq!(try_push_branch(&mut ctx, &"main".to_string()), Some(WorkError::AmbiguousRemote));
    assert_eq!(try_push_main(&mut ctx), Some(WorkError::AmbiguousRemote));
    assert_eq!(try_pull_main(&mut ctx), Some(WorkError::AmbiguousRemote));
    let mut quiet = base_ctx();
    assert_eq!(try_push_main(&mut quiet), None);
}

#[test]
fn new_branch_starts_at_current_tip() {
    let mut ctx = base_ctx();
    let r = new_command(&mut ctx, &"feature".to_string());
    assert!(r.is_ok());
    assert_eq!(ctx.branches.len(), 2);
    assert_eq!(ctx.branches[1].name, "feature");
    assert_eq!(ctx.branches[1].tip, 0);
    assert_eq!(ctx.head, 1, "the new branch is checked out");
    assert_eq!(ctx.worktree, 1, "the tree is untouched");
}

#[test]
fn new_branch_taken_name_fails() {
    let mut ctx = base_ctx();
    let r = new_command(&mut ctx, &"main".to_string());
    assert_eq!(r, Err(WorkError::BackendIOError));
    assert_eq!(ctx.branches.len(), 1);
}

#[test]
fn delete_other_branch() {
    let mut ctx = feature_ahead_ctx();
    ctx.head = 0;
    ctx.worktree = 1;
    let r = delete_branch(&mut ctx, &"feature".to_string());
    assert!(r.is_ok());
    assert_eq!(ctx.branches.len(), 1);
    assert_eq!(ctx.branches[0].name, "main");
    assert_eq!(ctx.head, 0);
}

#[test]
fn delete_current_branch_fails() {
    let mut ctx = feature_ahead_ctx();
    let r = delete_branch(&mut ctx, &"feature".to_string());
    assert_eq!(r, Err(WorkError::CannotDeleteCurrent));
    assert_eq!(ctx.branches.len(), 2);
}

#[test]
fn delete_unknown_branch_fails() {
    let mut ctx = base_ctx();
    let r = delete_branch(&mut ctx, &"ghost".to_string());
    assert_eq!(r, Err(WorkError::UnknownBranch));
}

#[test]
fn delete_shifts_head_index() {
    let mut ctx = feature_ahead_ctx();
    // head is `feature` at index 1; deleting index 0 shifts it to 0.
    let r = delete_branch(&mut ctx, &"main".to_string());
    assert!(r.is_ok());
    assert_eq!(ctx.head, 0);
    assert_eq!(ctx.branches[0].name, "feature");
}

#[test]
fn list_names_every_branch() {
    let ctx = feature_ahead_ctx();
    let names = list_branches(&ctx);
    assert_eq!(names, vec!["main".to_string(), "feature".to_string()]);
}

#[test]
fn error_messages_are_descriptive() {
    assert_eq!(WorkError::CannotMergeFromMain.message(), "Cannot merge from main.");
    assert_eq!(WorkError::MustSyncFirst.message(), "Must be synced on main.");
    assert_eq!(WorkError::DivergedHistory.message(), "Local diverges from remote.");
}

#[test]
fn credential_kind_prefers_helper() {
    assert_eq!(resolve_cred(true, true), CredKind::CredentialHelper);
    assert_eq!(resolve_cred(true, false), CredKind::CredentialHelper);
    assert_eq!(resolve_cred(false, true), CredKind::KeyFile);
    assert_eq!(resolve_cred(false, false), CredKind::Unsupported);
}

#[test]
fn load_same_branch_commits_and_stays() {
    let mut ctx = feature_ahead_ctx();
    ctx.worktree = 8;
    let r = load_command(&mut ctx, &LoadArgs { target: "feature".to_string() });
    assert!(r.is_ok());
    assert_eq!(ctx.commits.len(), 3);
    assert_eq!(ctx.branches[1].tip, 2);
    assert_eq!(ctx.head, 1);
    assert_eq!(ctx.worktree, 8, "the snapshot tree is what is checked out");
}

#[test]
fn push_branch_empty_prefix_uses_bare_name() {
    let mut ctx = feature_ahead_ctx();
    ctx.prefix = String::new();
    ctx.remotes = vec!["origin".to_string()];
    ctx.remote_refs = vec![branch("feature", 0)];
    let r = push_branch(&mut ctx, &"feature".to_string());
    assert!(r.is_ok());
    assert_eq!(ctx.remote_refs.len(), 1);
    assert_eq!(ctx.remote_refs[0].tip, 1, "with no prefix the bare ref moves");
}

#[test]
fn merge_fast_forwards_over_several_commits() {
    let mut ctx = feature_ahead_ctx();
    ctx.commits.push(commit(Some(1), 3, "more"));
    ctx.branches[1].tip = 2;
    ctx.worktree = 3;
    let r = merge_command(&mut ctx);
    assert!(r.is_ok());
    assert_eq!(ctx.branches[0].tip, 2, "main jumps the whole chain");
    assert_eq!(ctx.commits.len(), 3);
}
