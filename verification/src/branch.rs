use vstd::prelude::*;

use crate::ctx::{
    branch_index, find_branch, has_branch, lemma_branch_index, lemma_name_unique, names_unique,
    wf, Branch, Ctx,
};
use crate::error::WorkError;

verus! {

/// The whole effect of `new`: a branch with a taken name is refused by
/// the backend; otherwise a branch is created at the current tip and
/// checked out. The working tree is untouched — the new branch starts at
/// the very tree already checked out.
pub open spec fn branch_created(
    pre: Ctx,
    post: Ctx,
    name: Seq<char>,
    r: Result<(), WorkError>,
) -> bool {
    if has_branch(pre.branches@, name) {
        r == Err::<(), WorkError>(WorkError::BackendIOError) && post == pre
    } else {
        &&& r is Ok
        &&& post.branches@.len() == pre.branches@.len() + 1
        &&& forall|i: int| 0 <= i < pre.branches@.len() ==> post.branches@[i] == pre.branches@[i]
        &&& post.branches@.last().name@ == name
        &&& post.branches@.last().tip == pre.branches@[pre.head as int].tip
        &&& post.head as int == pre.branches@.len()
        &&& post.commits == pre.commits
        &&& post.worktree == pre.worktree
        &&& post.remotes == pre.remotes
        &&& post.remote_refs == pre.remote_refs
        &&& post.prefix == pre.prefix
    }
}

/// Creates a branch at the current tip and switches to it.
pub fn new_command(ctx: &mut Ctx, name: &String) -> (r: Result<(), WorkError>)
    requires
        wf(*old(ctx)),
    ensures
        wf(*final(ctx)),
        branch_created(*old(ctx), *final(ctx), name@, r),
{
    match find_branch(&ctx.branches, name) {
        Some(_) => Err(WorkError::BackendIOError),
        None => {
            let tip = ctx.branches[ctx.head].tip;
            let new_idx = ctx.branches.len();
            ctx.branches.push(Branch { name: name.clone(), tip });
            ctx.head = new_idx;
            Ok(())
        },
    }
}

/// The whole effect of deleting one branch: an unknown name fails
/// `UnknownBranch`, the checked-out branch fails `CannotDeleteCurrent`,
/// and otherwise exactly that branch disappears while every other
/// branch, and the branch HEAD points at, survive.
pub open spec fn branch_deleted(
    pre: Ctx,
    post: Ctx,
    name: Seq<char>,
    r: Result<(), WorkError>,
) -> bool {
    let i = branch_index(pre.branches@, name);
    if !has_branch(pre.branches@, name) {
        r == Err::<(), WorkError>(WorkError::UnknownBranch) && post == pre
    } else if i == pre.head as int {
        r == Err::<(), WorkError>(WorkError::CannotDeleteCurrent) && post == pre
    } else {
        &&& r is Ok
        &&& post.branches@ == pre.branches@.remove(i)
        &&& post.head as int == (if (pre.head as int) < i {
            pre.head as int
        } else {
            pre.head as int - 1
        })
        &&& post.branches@[post.head as int] == pre.branches@[pre.head as int]
        &&& post.commits == pre.commits
        &&& post.worktree == pre.worktree
        &&& post.remotes == pre.remotes
        &&& post.remote_refs == pre.remote_refs
        &&& post.prefix == pre.prefix
    }
}

/// Removes the branch named `name`, refusing the checked-out one.
pub fn delete_branch(ctx: &mut Ctx, name: &String) -> (r: Result<(), WorkError>)
    requires
        wf(*old(ctx)),
    ensures
        wf(*final(ctx)),
        branch_deleted(*old(ctx), *final(ctx), name@, r),
{
    match find_branch(&ctx.branches, name) {
        None => Err(WorkError::UnknownBranch),
        Some(i) => {
            proof {
                lemma_branch_index(ctx.branches@, name@);
                lemma_name_unique(ctx.branches@, i as int, branch_index(ctx.branches@, name@));
            }
            if i == ctx.head {
                return Err(WorkError::CannotDeleteCurrent);
            }
            ctx.branches.remove(i);
            if i < ctx.head {
                ctx.head = ctx.head - 1;
            }
            proof {
                old(ctx).branches@.remove_ensures(i as int);
                assert forall|a: int, b: int| 0 <= a < b < ctx.branches@.len() implies (
                #[trigger] ctx.branches@[a]).name@ != (#[trigger] ctx.branches@[b]).name@ by {
                    let a0: int = if a < i as int { a } else { a + 1 };
                    let b0: int = if b < i as int { b } else { b + 1 };
                    assert(ctx.branches@[a] == old(ctx).branches@[a0]);
                    assert(ctx.branches@[b] == old(ctx).branches@[b0]);
                }
            }
            Ok(())
        },
    }
}

/// The branch names, one per branch, in the order the backend hands
/// refs out.
pub fn list_branches(ctx: &Ctx) -> (r: Vec<String>)
    ensures
        r@.len() == ctx.branches@.len(),
        forall|i: int| 0 <= i < r@.len() ==> r@[i] == ctx.branches@[i].name,
{
    let mut r: Vec<String> = Vec::new();
    let mut i: usize = 0;
    while i < ctx.branches.len()
        invariant
            i <= ctx.branches@.len(),
            r@.len() == i,
            forall|j: int| 0 <= j < i ==> r@[j] == ctx.branches@[j].name,
        decreases ctx.branches@.len() - i,
    {
        r.push(ctx.branches[i].name.clone());
        i += 1;
    }
    r
}

} // verus!
