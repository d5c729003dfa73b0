use vstd::prelude::*;

use crate::ctx::{
    branch_index, check_ancestor, find_branch, has_branch, head_tip, is_ancestor,
    lemma_branch_index, lemma_name_unique, wf, Branch, Ctx,
};
use crate::error::WorkError;

verus! {

/// The whole effect of `merge`: run from the integration branch it is
/// rejected outright; otherwise, when the integration branch's tip is an
/// ancestor of (or equal to) the current tip, the integration ref alone
/// moves to that tip — one pointer move, no commit ever created — and any
/// other relation between the two tips is refused, never resolved by a
/// three-way merge.
pub open spec fn merged(pre: Ctx, post: Ctx, r: Result<(), WorkError>) -> bool {
    let m = branch_index(pre.branches@, "main"@);
    if pre.branches@[pre.head as int].name@ == "main"@ {
        r == Err::<(), WorkError>(WorkError::CannotMergeFromMain) && post == pre
    } else if !has_branch(pre.branches@, "main"@) {
        r == Err::<(), WorkError>(WorkError::UnknownBranch) && post == pre
    } else if !is_ancestor(pre.commits@, pre.branches@[m].tip as int, head_tip(pre)) {
        r == Err::<(), WorkError>(WorkError::MustSyncFirst) && post == pre
    } else {
        &&& r is Ok
        &&& post.commits == pre.commits
        &&& post.branches@ == pre.branches@.update(
            m,
            Branch { name: pre.branches@[m].name, tip: pre.branches@[pre.head as int].tip },
        )
        &&& post.head == pre.head
        &&& post.worktree == pre.worktree
        &&& post.remotes == pre.remotes
        &&& post.remote_refs == pre.remote_refs
        &&& post.prefix == pre.prefix
    }
}

/// Fast-forwards the integration branch to the current branch's tip.
///
/// Refuses to run from the integration branch itself
/// (`CannotMergeFromMain`), and refuses any pair of tips that is not a
/// plain fast-forward (`MustSyncFirst`); on success only the integration
/// ref moves.
pub fn merge_command(ctx: &mut Ctx) -> (r: Result<(), WorkError>)
    requires
        wf(*old(ctx)),
    ensures
        wf(*final(ctx)),
        merged(*old(ctx), *final(ctx), r),
{
    let main_name: String = "main".to_owned();
    let h = ctx.head;
    if ctx.branches[h].name == main_name {
        return Err(WorkError::CannotMergeFromMain);
    }
    match find_branch(&ctx.branches, &main_name) {
        None => Err(WorkError::UnknownBranch),
        Some(m) => {
            proof {
                lemma_branch_index(ctx.branches@, "main"@);
                lemma_name_unique(
                    ctx.branches@,
                    m as int,
                    branch_index(ctx.branches@, "main"@),
                );
            }
            let main_tip = ctx.branches[m].tip;
            let cur_tip = ctx.branches[h].tip;
            if check_ancestor(&ctx.commits, main_tip, cur_tip) {
                ctx.branches[m].tip = cur_tip;
                Ok(())
            } else {
                Err(WorkError::MustSyncFirst)
            }
        },
    }
}

} // verus!
