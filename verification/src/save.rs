use vstd::prelude::*;

use crate::cli::SaveArgs;
use crate::ctx::{clean, parents_ok, wf, Commit, Ctx};

verus! {

/// What a snapshot did.
#[derive(Clone, Copy, Debug, PartialEq, Eq, Structural)]
pub enum SaveStatus {
    /// A new commit was created and the current branch advanced to it.
    Committed,
    /// The working tree already matched the branch tip; nothing was
    /// committed.
    NoChanges,
}

/// The message words joined by single spaces.
pub open spec fn joined_words(words: Seq<String>) -> Seq<char>
    decreases words.len(),
{
    if words.len() == 0 {
        Seq::<char>::empty()
    } else if words.len() == 1 {
        words[0]@
    } else {
        joined_words(words.drop_last()) + seq![' '] + words.last()@
    }
}

/// The message a snapshot records: the words joined by spaces, or "Save"
/// when that comes out empty.
pub open spec fn save_message(words: Seq<String>) -> Seq<char> {
    if joined_words(words).len() == 0 {
        "Save"@
    } else {
        joined_words(words)
    }
}

/// `post` extends `pre` by exactly one commit with the given parent, tree
/// and message.
pub open spec fn commits_extended(
    pre: Seq<Commit>,
    post: Seq<Commit>,
    parent: usize,
    tree: u64,
    msg: Seq<char>,
) -> bool {
    &&& post.len() == pre.len() + 1
    &&& forall|i: int| 0 <= i < pre.len() ==> post[i] == pre[i]
    &&& post.last().parent == Some(parent)
    &&& post.last().tree == tree
    &&& post.last().message@ == msg
}

/// The snapshot transition on the commit graph and the branches: a no-op
/// on a clean tree, otherwise one new commit holding the working tree,
/// with the branch at `head` advanced to it.
pub open spec fn snapshot_step(pre: Ctx, post: Ctx, msg: Seq<char>) -> bool {
    if clean(pre) {
        post.commits == pre.commits && post.branches == pre.branches
    } else {
        &&& commits_extended(
            pre.commits@,
            post.commits@,
            pre.branches@[pre.head as int].tip,
            pre.worktree,
            msg,
        )
        &&& post.branches@.len() == pre.branches@.len()
        &&& forall|i: int|
            0 <= i < pre.branches@.len() && i != pre.head ==> post.branches@[i]
                == pre.branches@[i]
        &&& post.branches@[pre.head as int].name == pre.branches@[pre.head as int].name
        &&& post.branches@[pre.head as int].tip == pre.commits@.len()
    }
}

/// The whole effect of `save`: the snapshot transition, the reported
/// status, and everything else — checked-out branch, working tree,
/// remote state — untouched.
pub open spec fn saved(pre: Ctx, post: Ctx, msg: Seq<char>, status: SaveStatus) -> bool {
    &&& snapshot_step(pre, post, msg)
    &&& (status == SaveStatus::NoChanges <==> clean(pre))
    &&& (status == SaveStatus::Committed <==> !clean(pre))
    &&& post.head == pre.head
    &&& post.worktree == pre.worktree
    &&& post.remotes == pre.remotes
    &&& post.remote_refs == pre.remote_refs
    &&& post.prefix == pre.prefix
}

/// Joins the message words with single spaces.
fn join_words(words: &Vec<String>) -> (r: String)
    ensures
        r@ == joined_words(words@),
{
    let mut r = String::new();
    let mut i: usize = 0;
    while i < words.len()
        invariant
            i <= words@.len(),
            r@ == joined_words(words@.take(i as int)),
        decreases words@.len() - i,
    {
        if i > 0 {
            r.append(" ");
            proof {
                reveal_strlit(" ");
            }
        }
        r.append(words[i].as_str());
        proof {
            let pre = words@.take(i as int);
            let cur = words@.take(i as int + 1);
            assert(cur.drop_last() =~= pre);
            assert(cur.last() == words@[i as int]);
            if i == 0 {
                assert(joined_words(cur) =~= words@[0]@);
                assert(r@ =~= words@[0]@);
            } else {
                assert(joined_words(cur) == joined_words(pre) + seq![' '] + words@[i as int]@);
            }
        }
        i += 1;
    }
    proof {
        assert(words@.take(words@.len() as int) =~= words@);
    }
    r
}

/// Builds the recorded message: the joined words, or "Save" when empty.
fn build_message(words: &Vec<String>) -> (r: String)
    ensures
        r@ == save_message(words@),
{
    let joined = join_words(words);
    if joined.as_str().is_empty() {
        "Save".to_owned()
    } else {
        joined
    }
}

/// Forces the working tree back to the checked-out branch tip, discarding
/// anything not captured by it; a safe no-op on a clean tree.
pub fn reset_repo(ctx: &mut Ctx)
    requires
        wf(*old(ctx)),
    ensures
        wf(*final(ctx)),
        clean(*final(ctx)),
        final(ctx).commits == old(ctx).commits,
        final(ctx).branches == old(ctx).branches,
        final(ctx).head == old(ctx).head,
        final(ctx).remotes == old(ctx).remotes,
        final(ctx).remote_refs == old(ctx).remote_refs,
        final(ctx).prefix == old(ctx).prefix,
{
    let tip = ctx.branches[ctx.head].tip;
    ctx.worktree = ctx.commits[tip].tree;
}

/// Stages the whole working tree and, unless it already matches the
/// current branch tip, commits it and advances the branch; the working
/// tree then mirrors the new tip. At most one commit per call, and none
/// on a clean tree.
pub fn save_command(ctx: &mut Ctx, args: &SaveArgs) -> (r: SaveStatus)
    requires
        wf(*old(ctx)),
    ensures
        wf(*final(ctx)),
        saved(*old(ctx), *final(ctx), save_message(args.message@), r),
{
    let h = ctx.head;
    let tip = ctx.branches[h].tip;
    if ctx.worktree == ctx.commits[tip].tree {
        return SaveStatus::NoChanges;
    }
    let message = build_message(&args.message);
    let new_idx = ctx.commits.len();
    let tree = ctx.worktree;
    ctx.commits.push(Commit { parent: Some(tip), tree, message });
    ctx.branches[h].tip = new_idx;
    proof {
        assert(parents_ok(ctx.commits@)) by {
            assert(forall|i: int|
                0 <= i < old(ctx).commits@.len() ==> ctx.commits@[i] == old(ctx).commits@[i]);
        }
    }
    reset_repo(ctx);
    SaveStatus::Committed
}

} // verus!
