use vstd::prelude::*;

use crate::ctx::{
    branch_index, clean, has_branch, head_tip, is_ancestor, lemma_branch_index, wf, Ctx,
};
use crate::error::WorkError;
use crate::load::loaded;
use crate::merge::merged;
use crate::remote::{
    ambiguous_remote, local_state_kept, no_remote, pulled_main, pushed_branch,
};
use crate::save::{saved, SaveStatus};

verus! {

/// A save leaves the working tree clean: the tip it ends on captures
/// exactly the tree that was saved.
pub proof fn lemma_save_leaves_clean(pre: Ctx, post: Ctx, msg: Seq<char>, status: SaveStatus)
    requires
        wf(pre),
        saved(pre, post, msg, status),
    ensures
        clean(post),
{
    if !clean(pre) {
        assert(post.branches@[post.head as int].tip == pre.commits@.len());
        assert(post.commits@.last() == post.commits@[pre.commits@.len() as int]);
        assert(post.commits@[pre.commits@.len() as int].tree == pre.worktree);
    }
}

/// Idempotence of save: two consecutive saves with no intervening changes
/// create at most one commit — the second one never commits anything.
pub proof fn lemma_save_idempotent(
    c0: Ctx,
    c1: Ctx,
    c2: Ctx,
    m1: Seq<char>,
    m2: Seq<char>,
    s1: SaveStatus,
    s2: SaveStatus,
)
    requires
        wf(c0),
        saved(c0, c1, m1, s1),
        saved(c1, c2, m2, s2),
    ensures
        s2 == SaveStatus::NoChanges,
        c2.commits@.len() == c1.commits@.len(),
        c2.commits@.len() <= c0.commits@.len() + 1,
{
    lemma_save_leaves_clean(c0, c1, m1, s1);
}

/// Fast-forward safety: a merge that succeeds created no commit at all,
/// was only allowed because main's tip preceded the current tip, and
/// moved main exactly onto that tip.
pub proof fn lemma_merge_fast_forward(pre: Ctx, post: Ctx, r: Result<(), WorkError>)
    requires
        wf(pre),
        merged(pre, post, r),
        r is Ok,
    ensures
        post.commits == pre.commits,
        has_branch(pre.branches@, "main"@),
        is_ancestor(
            pre.commits@,
            pre.branches@[branch_index(pre.branches@, "main"@)].tip as int,
            head_tip(pre),
        ),
        post.branches@[branch_index(pre.branches@, "main"@)].name@ == "main"@,
        post.branches@[branch_index(pre.branches@, "main"@)].tip == pre.branches@[pre.head as int].tip,
{
    lemma_branch_index(pre.branches@, "main"@);
}

/// Merge rejection: run while the integration branch is checked out,
/// merge always fails `CannotMergeFromMain` and leaves the whole state,
/// every ref included, unchanged.
pub proof fn lemma_merge_from_main_rejected(pre: Ctx, post: Ctx, r: Result<(), WorkError>)
    requires
        merged(pre, post, r),
        pre.branches@[pre.head as int].name@ == "main"@,
    ensures
        r == Err::<(), WorkError>(WorkError::CannotMergeFromMain),
        post == pre,
{
}

/// Load auto-save: switching away from a branch with uncommitted changes
/// first records those changes as a new commit on that branch, and then
/// HEAD resolves to the requested target.
pub proof fn lemma_load_autosaves(pre: Ctx, post: Ctx, target: Seq<char>, r: Result<
    (),
    WorkError,
>)
    requires
        wf(pre),
        loaded(pre, post, target, r),
        !clean(pre),
        has_branch(pre.branches@, target),
    ensures
        r is Ok,
        post.commits@.len() == pre.commits@.len() + 1,
        post.commits@.last().tree == pre.worktree,
        post.commits@.last().parent == Some(pre.branches@[pre.head as int].tip),
        post.branches@[pre.head as int].tip == pre.commits@.len(),
        post.branches@[post.head as int].name@ == target,
{
    lemma_branch_index(pre.branches@, target);
    let bi = branch_index(pre.branches@, target);
    assert(post.branches@[pre.head as int].tip == pre.commits@.len());
    assert(post.commits@.last() == post.commits@[pre.commits@.len() as int]);
    assert(post.branches@[bi].name == pre.branches@[bi].name);
}

/// Remote prefixing: pushing a branch under a nonempty prefix sets the
/// remote ref named `<prefix><branch>` to the local tip, and a remote
/// ref named exactly `<branch>` is never the one touched.
pub proof fn lemma_push_prefixed(
    pre: Ctx,
    post: Ctx,
    branch: Seq<char>,
    r: Result<(), WorkError>,
    j: int,
)
    requires
        wf(pre),
        pushed_branch(pre, post, branch, r),
        r is Ok,
        !no_remote(pre.remotes@),
        pre.prefix@.len() > 0,
        0 <= j < pre.remote_refs@.len(),
        pre.remote_refs@[j].name@ == branch,
    ensures
        exists|k: int|
            0 <= k < post.remote_refs@.len() && post.remote_refs@[k].name@ == pre.prefix@
                + branch && post.remote_refs@[k].tip == pre.branches@[branch_index(
                pre.branches@,
                branch,
            )].tip,
        post.remote_refs@[j] == pre.remote_refs@[j],
{
    let full = pre.prefix@ + branch;
    assert(full.len() == pre.prefix@.len() + branch.len());
    if has_branch(pre.remote_refs@, full) {
        lemma_branch_index(pre.remote_refs@, full);
        let bi = branch_index(pre.remote_refs@, full);
        assert(bi != j);
        assert(post.remote_refs@[bi].name@ == full && post.remote_refs@[bi].tip
            == pre.branches@[branch_index(pre.branches@, branch)].tip);
    } else {
        let k = post.remote_refs@.len() - 1;
        assert(post.remote_refs@[k].name@ == full && post.remote_refs@[k].tip
            == pre.branches@[branch_index(pre.branches@, branch)].tip);
    }
}

/// Ambiguous remote, push side: with several remotes and none named
/// "origin", pushing fails `AmbiguousRemote` and neither the local state
/// nor any remote ref moves.
pub proof fn lemma_ambiguous_remote_push(
    pre: Ctx,
    post: Ctx,
    branch: Seq<char>,
    r: Result<(), WorkError>,
)
    requires
        ambiguous_remote(pre.remotes@),
        pushed_branch(pre, post, branch, r),
    ensures
        r == Err::<(), WorkError>(WorkError::AmbiguousRemote),
        post.remote_refs == pre.remote_refs,
        local_state_kept(pre, post),
{
}

/// Ambiguous remote, pull side: the same resolution failure stops a pull
/// before anything moves.
pub proof fn lemma_ambiguous_remote_pull(pre: Ctx, post: Ctx, r: Result<(), WorkError>)
    requires
        ambiguous_remote(pre.remotes@),
        pulled_main(pre, post, r),
    ensures
        r == Err::<(), WorkError>(WorkError::AmbiguousRemote),
        post == pre,
{
}

/// Diverged pull: when local main holds a commit absent upstream and
/// upstream holds one absent locally, pulling fails `DivergedHistory`
/// and local main's ref does not move.
pub proof fn lemma_diverged_pull(pre: Ctx, post: Ctx, r: Result<(), WorkError>)
    requires
        wf(pre),
        pulled_main(pre, post, r),
        !no_remote(pre.remotes@),
        !ambiguous_remote(pre.remotes@),
        has_branch(pre.branches@, "main"@),
        has_branch(pre.remote_refs@, "main"@),
        !is_ancestor(
            pre.commits@,
            pre.remote_refs@[branch_index(pre.remote_refs@, "main"@)].tip as int,
            pre.branches@[branch_index(pre.branches@, "main"@)].tip as int,
        ),
        !is_ancestor(
            pre.commits@,
            pre.branches@[branch_index(pre.branches@, "main"@)].tip as int,
            pre.remote_refs@[branch_index(pre.remote_refs@, "main"@)].tip as int,
        ),
    ensures
        r == Err::<(), WorkError>(WorkError::DivergedHistory),
        post.branches == pre.branches,
        post == pre,
{
}

} // verus!
