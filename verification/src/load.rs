use vstd::prelude::*;

use crate::cli::{LoadArgs, SaveArgs};
use crate::ctx::{
    branch_index, find_branch, has_branch, lemma_branch_index, lemma_name_unique,
    lemma_same_names_has_branch, wf, Ctx,
};
use crate::error::WorkError;
use crate::save::{joined_words, save_command, save_message, snapshot_step};

verus! {

/// The message the automatic snapshot before a switch records.
pub open spec fn load_message(target: Seq<char>) -> Seq<char> {
    "Save before switching to"@ + seq![' '] + target
}

/// The whole effect of `load`: first the automatic snapshot of the
/// current branch, then — when `target` exists — the switch of HEAD to it
/// and the checkout of its tree. When `target` is unknown the switch
/// fails, but the snapshot stays: a snapshot is always safe, and it is
/// not rolled back.
pub open spec fn loaded(pre: Ctx, post: Ctx, target: Seq<char>, r: Result<(), WorkError>) -> bool {
    &&& snapshot_step(pre, post, load_message(target))
    &&& post.remotes == pre.remotes
    &&& post.remote_refs == pre.remote_refs
    &&& post.prefix == pre.prefix
    &&& if has_branch(pre.branches@, target) {
        &&& r is Ok
        &&& post.head as int == branch_index(pre.branches@, target)
        &&& post.worktree == post.commits@[post.branches@[post.head as int].tip as int].tree
    } else {
        &&& r == Err::<(), WorkError>(WorkError::UnknownBranch)
        &&& post.head == pre.head
        &&& post.worktree == pre.worktree
    }
}

/// Snapshots the current branch under a "Save before switching" message,
/// then switches HEAD to `target` and checks out its tree. An unknown
/// `target` fails with `UnknownBranch`; the snapshot is kept either way.
pub fn load_command(ctx: &mut Ctx, args: &LoadArgs) -> (r: Result<(), WorkError>)
    requires
        wf(*old(ctx)),
    ensures
        wf(*final(ctx)),
        loaded(*old(ctx), *final(ctx), args.target@, r),
{
    let mut words: Vec<String> = Vec::new();
    words.push("Save before switching to".to_owned());
    words.push(args.target.clone());
    let save_args = SaveArgs { message: words };
    save_command(ctx, &save_args);
    proof {
        reveal_strlit("Save before switching to");
        let ws = save_args.message@;
        assert(ws.drop_last() =~= seq![ws[0]]);
        assert(joined_words(seq![ws[0]]) == ws[0]@);
        assert(joined_words(ws) == ws[0]@ + seq![' '] + ws[1]@);
        assert(save_message(ws) == load_message(args.target@));
        assert(forall|i: int|
            0 <= i < old(ctx).branches@.len() ==> (#[trigger] old(ctx).branches@[i].name)
                == ctx.branches@[i].name);
        lemma_same_names_has_branch(old(ctx).branches@, ctx.branches@, args.target@);
    }
    match find_branch(&ctx.branches, &args.target) {
        Some(i) => {
            proof {
                lemma_branch_index(old(ctx).branches@, args.target@);
                lemma_name_unique(
                    old(ctx).branches@,
                    i as int,
                    branch_index(old(ctx).branches@, args.target@),
                );
            }
            ctx.head = i;
            let tip = ctx.branches[i].tip;
            ctx.worktree = ctx.commits[tip].tree;
            Ok(())
        },
        None => Err(WorkError::UnknownBranch),
    }
}

} // verus!
