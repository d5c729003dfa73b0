use vstd::prelude::*;

use crate::ctx::{
    branch_index, check_ancestor, find_branch, has_branch, is_ancestor, lemma_branch_index,
    lemma_name_unique, names_unique, wf, Branch, Ctx,
};
use crate::error::WorkError;

verus! {

/// Which credential a transport attempt should present.
#[derive(Clone, Copy, Debug, PartialEq, Eq, Structural)]
pub enum CredKind {
    /// Password-style transport: ask the configured credential helper.
    CredentialHelper,
    /// Key-based transport: use the conventional local key file.
    KeyFile,
    /// Any other authentication challenge: an explicit unimplemented
    /// path, never guessed at.
    Unsupported,
}

/// Resolves the credential kind once per transport attempt: helper
/// credentials are preferred for password-style transports, the local
/// key file serves key-based ones, and anything else is refused.
pub fn resolve_cred(user_pass_allowed: bool, ssh_key_allowed: bool) -> (r: CredKind)
    ensures
        r == (if user_pass_allowed {
            CredKind::CredentialHelper
        } else if ssh_key_allowed {
            CredKind::KeyFile
        } else {
            CredKind::Unsupported
        }),
{
    if user_pass_allowed {
        CredKind::CredentialHelper
    } else if ssh_key_allowed {
        CredKind::KeyFile
    } else {
        CredKind::Unsupported
    }
}

/// No remote is configured: synchronizing is a no-op.
pub open spec fn no_remote(remotes: Seq<String>) -> bool {
    remotes.len() == 0
}

/// One of the configured remotes is named "origin".
pub open spec fn has_origin(remotes: Seq<String>) -> bool {
    exists|i: int| 0 <= i < remotes.len() && remotes[i]@ == "origin"@
}

/// Several remotes are configured and none is named "origin": no default
/// can be picked.
pub open spec fn ambiguous_remote(remotes: Seq<String>) -> bool {
    remotes.len() > 1 && !has_origin(remotes)
}

/// What resolving "the" remote returns: nothing when none is configured,
/// the single one when there is exactly one, the one named "origin" among
/// several, and `AmbiguousRemote` otherwise.
pub open spec fn remote_resolution(
    remotes: Seq<String>,
    r: Result<Option<usize>, WorkError>,
) -> bool {
    if no_remote(remotes) {
        r == Ok::<Option<usize>, WorkError>(None)
    } else if remotes.len() == 1 {
        r == Ok::<Option<usize>, WorkError>(Some(0usize))
    } else if has_origin(remotes) {
        r matches Ok(Some(i)) && i < remotes.len() && remotes[i as int]@ == "origin"@
    } else {
        r == Err::<Option<usize>, WorkError>(WorkError::AmbiguousRemote)
    }
}

/// Resolves the remote to synchronize with, touching nothing.
pub fn get_remote(ctx: &Ctx) -> (r: Result<Option<usize>, WorkError>)
    ensures
        remote_resolution(ctx.remotes@, r),
{
    if ctx.remotes.len() == 0 {
        return Ok(None);
    }
    if ctx.remotes.len() == 1 {
        return Ok(Some(0));
    }
    let origin: String = "origin".to_owned();
    let mut i: usize = 0;
    while i < ctx.remotes.len()
        invariant
            i <= ctx.remotes@.len(),
            origin@ == "origin"@,
            forall|j: int| 0 <= j < i ==> (#[trigger] ctx.remotes@[j])@ != "origin"@,
        decreases ctx.remotes@.len() - i,
    {
        if ctx.remotes[i] == origin {
            return Ok(Some(i));
        }
        i += 1;
    }
    Err(WorkError::AmbiguousRemote)
}

/// `post` is `pre` with the ref `name` force-updated to `tip`: moved when
/// it exists, appended when it does not.
pub open spec fn ref_updated(
    pre: Seq<Branch>,
    post: Seq<Branch>,
    name: Seq<char>,
    tip: usize,
) -> bool {
    if has_branch(pre, name) {
        post == pre.update(
            branch_index(pre, name),
            Branch { name: pre[branch_index(pre, name)].name, tip },
        )
    } else {
        &&& post.len() == pre.len() + 1
        &&& forall|i: int| 0 <= i < pre.len() ==> post[i] == pre[i]
        &&& post.last().name@ == name
        &&& post.last().tip == tip
    }
}

/// Force-updates (or creates) the ref `name` at `tip`.
fn update_ref(refs: &mut Vec<Branch>, name: String, tip: usize)
    requires
        names_unique(old(refs)@),
    ensures
        ref_updated(old(refs)@, final(refs)@, name@, tip),
        names_unique(final(refs)@),
        final(refs)@.len() >= old(refs)@.len(),
        forall|i: int|
            #![trigger final(refs)@[i]]
            0 <= i < final(refs)@.len() ==> final(refs)@[i].tip == tip || (i < old(refs)@.len()
                && final(refs)@[i].tip == old(refs)@[i].tip),
{
    match find_branch(refs, &name) {
        Some(i) => {
            proof {
                lemma_branch_index(refs@, name@);
                lemma_name_unique(refs@, i as int, branch_index(refs@, name@));
            }
            refs[i].tip = tip;
        },
        None => {
            refs.push(Branch { name, tip });
        },
    }
}

/// The parts of the state a push never touches: everything local.
pub open spec fn local_state_kept(pre: Ctx, post: Ctx) -> bool {
    &&& post.commits == pre.commits
    &&& post.branches == pre.branches
    &&& post.head == pre.head
    &&& post.worktree == pre.worktree
    &&& post.remotes == pre.remotes
    &&& post.prefix == pre.prefix
}

/// The whole effect of pushing a personal branch: with no remote it is a
/// no-op; with an ambiguous remote nothing happens and the resolution
/// error is returned; with an unknown local branch nothing happens; and
/// otherwise the remote ref named `<prefix><branch>` — never the bare
/// branch name, unless the prefix is empty — is force-updated to the
/// local branch's tip.
pub open spec fn pushed_branch(
    pre: Ctx,
    post: Ctx,
    branch: Seq<char>,
    r: Result<(), WorkError>,
) -> bool {
    &&& local_state_kept(pre, post)
    &&& if no_remote(pre.remotes@) {
        r is Ok && post.remote_refs == pre.remote_refs
    } else if ambiguous_remote(pre.remotes@) {
        r == Err::<(), WorkError>(WorkError::AmbiguousRemote) && post.remote_refs
            == pre.remote_refs
    } else if !has_branch(pre.branches@, branch) {
        r == Err::<(), WorkError>(WorkError::UnknownBranch) && post.remote_refs
            == pre.remote_refs
    } else {
        &&& r is Ok
        &&& ref_updated(
            pre.remote_refs@,
            post.remote_refs@,
            pre.prefix@ + branch,
            pre.branches@[branch_index(pre.branches@, branch)].tip,
        )
    }
}

/// Pushes the local branch `branch` to the remote ref `<prefix><branch>`
/// under a force-update refspec.
pub fn push_branch(ctx: &mut Ctx, branch: &String) -> (r: Result<(), WorkError>)
    requires
        wf(*old(ctx)),
    ensures
        wf(*final(ctx)),
        pushed_branch(*old(ctx), *final(ctx), branch@, r),
{
    let remote = get_remote(ctx)?;
    if remote.is_none() {
        return Ok(());
    }
    match find_branch(&ctx.branches, branch) {
        None => Err(WorkError::UnknownBranch),
        Some(i) => {
            proof {
                lemma_branch_index(ctx.branches@, branch@);
                lemma_name_unique(ctx.branches@, i as int, branch_index(ctx.branches@, branch@));
            }
            let tip = ctx.branches[i].tip;
            let remote_name = ctx.prefix.clone().concat(branch.as_str());
            update_ref(&mut ctx.remote_refs, remote_name, tip);
            Ok(())
        },
    }
}

/// The whole effect of pushing the integration branch: no prefix — main
/// is shared — and a plain (non-forcing) refspec, so the remote ref only
/// moves when its old tip precedes the local one; otherwise the push is
/// rejected and nothing moves.
pub open spec fn pushed_main(pre: Ctx, post: Ctx, r: Result<(), WorkError>) -> bool {
    &&& local_state_kept(pre, post)
    &&& if no_remote(pre.remotes@) {
        r is Ok && post.remote_refs == pre.remote_refs
    } else if ambiguous_remote(pre.remotes@) {
        r == Err::<(), WorkError>(WorkError::AmbiguousRemote) && post.remote_refs
            == pre.remote_refs
    } else if !has_branch(pre.branches@, "main"@) {
        r == Err::<(), WorkError>(WorkError::UnknownBranch) && post.remote_refs
            == pre.remote_refs
    } else {
        let lt = pre.branches@[branch_index(pre.branches@, "main"@)].tip;
        if has_branch(pre.remote_refs@, "main"@) && !is_ancestor(
            pre.commits@,
            pre.remote_refs@[branch_index(pre.remote_refs@, "main"@)].tip as int,
            lt as int,
        ) {
            r == Err::<(), WorkError>(WorkError::DivergedHistory) && post.remote_refs
                == pre.remote_refs
        } else {
            r is Ok && ref_updated(pre.remote_refs@, post.remote_refs@, "main"@, lt)
        }
    }
}

/// Pushes local main to remote main, unprefixed and without forcing.
pub fn push_main(ctx: &mut Ctx) -> (r: Result<(), WorkError>)
    requires
        wf(*old(ctx)),
    ensures
        wf(*final(ctx)),
        pushed_main(*old(ctx), *final(ctx), r),
{
    let remote = get_remote(ctx)?;
    if remote.is_none() {
        return Ok(());
    }
    let main_name: String = "main".to_owned();
    match find_branch(&ctx.branches, &main_name) {
        None => Err(WorkError::UnknownBranch),
        Some(i) => {
            proof {
                lemma_branch_index(ctx.branches@, "main"@);
                lemma_name_unique(ctx.branches@, i as int, branch_index(ctx.branches@, "main"@));
            }
            let lt = ctx.branches[i].tip;
            match find_branch(&ctx.remote_refs, &main_name) {
                Some(j) => {
                    proof {
                        lemma_branch_index(ctx.remote_refs@, "main"@);
                        lemma_name_unique(
                            ctx.remote_refs@,
                            j as int,
                            branch_index(ctx.remote_refs@, "main"@),
                        );
                    }
                    let rt = ctx.remote_refs[j].tip;
                    if !check_ancestor(&ctx.commits, rt, lt) {
                        return Err(WorkError::DivergedHistory);
                    }
                    update_ref(&mut ctx.remote_refs, main_name, lt);
                    Ok(())
                },
                None => {
                    update_ref(&mut ctx.remote_refs, main_name, lt);
                    Ok(())
                },
            }
        },
    }
}

/// The whole effect of pulling the integration branch: after fetching the
/// remote's view of main, local main stays put when it already contains
/// the upstream tip, advances to it when the move is a pure fast-forward,
/// and is left untouched with `DivergedHistory` when the two histories
/// truly diverge. A missing remote is a no-op; a main without upstream
/// fails with `UnknownBranch`.
pub open spec fn pulled_main(pre: Ctx, post: Ctx, r: Result<(), WorkError>) -> bool {
    &&& post.commits == pre.commits
    &&& post.head == pre.head
    &&& post.worktree == pre.worktree
    &&& post.remotes == pre.remotes
    &&& post.remote_refs == pre.remote_refs
    &&& post.prefix == pre.prefix
    &&& if no_remote(pre.remotes@) {
        r is Ok && post.branches == pre.branches
    } else if ambiguous_remote(pre.remotes@) {
        r == Err::<(), WorkError>(WorkError::AmbiguousRemote) && post.branches == pre.branches
    } else if !has_branch(pre.branches@, "main"@) || !has_branch(pre.remote_refs@, "main"@) {
        r == Err::<(), WorkError>(WorkError::UnknownBranch) && post.branches == pre.branches
    } else {
        let m = branch_index(pre.branches@, "main"@);
        let lt = pre.branches@[m].tip;
        let ut = pre.remote_refs@[branch_index(pre.remote_refs@, "main"@)].tip;
        if is_ancestor(pre.commits@, ut as int, lt as int) {
            r is Ok && post.branches == pre.branches
        } else if is_ancestor(pre.commits@, lt as int, ut as int) {
            r is Ok && post.branches@ == pre.branches@.update(
                m,
                Branch { name: pre.branches@[m].name, tip: ut },
            )
        } else {
            r == Err::<(), WorkError>(WorkError::DivergedHistory) && post.branches
                == pre.branches
        }
    }
}

/// Fetches the remote's main and fast-forwards local main onto it when
/// that is all the move takes; true divergence is a hard failure, never
/// auto-merged.
pub fn pull_main(ctx: &mut Ctx) -> (r: Result<(), WorkError>)
    requires
        wf(*old(ctx)),
    ensures
        wf(*final(ctx)),
        pulled_main(*old(ctx), *final(ctx), r),
{
    let remote = get_remote(ctx)?;
    if remote.is_none() {
        return Ok(());
    }
    let main_name: String = "main".to_owned();
    match find_branch(&ctx.branches, &main_name) {
        None => Err(WorkError::UnknownBranch),
        Some(m) => {
            proof {
                lemma_branch_index(ctx.branches@, "main"@);
                lemma_name_unique(ctx.branches@, m as int, branch_index(ctx.branches@, "main"@));
            }
            match find_branch(&ctx.remote_refs, &main_name) {
                None => Err(WorkError::UnknownBranch),
                Some(u) => {
                    proof {
                        lemma_branch_index(ctx.remote_refs@, "main"@);
                        lemma_name_unique(
                            ctx.remote_refs@,
                            u as int,
                            branch_index(ctx.remote_refs@, "main"@),
                        );
                    }
                    let lt = ctx.branches[m].tip;
                    let ut = ctx.remote_refs[u].tip;
                    if check_ancestor(&ctx.commits, ut, lt) {
                        Ok(())
                    } else if check_ancestor(&ctx.commits, lt, ut) {
                        ctx.branches[m].tip = ut;
                        Ok(())
                    } else {
                        Err(WorkError::DivergedHistory)
                    }
                },
            }
        },
    }
}

/// Pushes a personal branch, downgrading any failure to a returned
/// warning so an unreachable or ambiguous remote never blocks local work.
pub fn try_push_branch(ctx: &mut Ctx, branch: &String) -> (w: Option<WorkError>)
    requires
        wf(*old(ctx)),
    ensures
        wf(*final(ctx)),
        match w {
            None => pushed_branch(*old(ctx), *final(ctx), branch@, Ok(())),
            Some(e) => pushed_branch(*old(ctx), *final(ctx), branch@, Err(e)),
        },
{
    match push_branch(ctx, branch) {
        Ok(()) => None,
        Err(e) => Some(e),
    }
}

/// Pushes the integration branch, downgrading any failure to a returned
/// warning.
pub fn try_push_main(ctx: &mut Ctx) -> (w: Option<WorkError>)
    requires
        wf(*old(ctx)),
    ensures
        wf(*final(ctx)),
        match w {
            None => pushed_main(*old(ctx), *final(ctx), Ok(())),
            Some(e) => pushed_main(*old(ctx), *final(ctx), Err(e)),
        },
{
    match push_main(ctx) {
        Ok(()) => None,
        Err(e) => Some(e),
    }
}

/// Pulls the integration branch, downgrading any failure to a returned
/// warning.
pub fn try_pull_main(ctx: &mut Ctx) -> (w: Option<WorkError>)
    requires
        wf(*old(ctx)),
    ensures
        wf(*final(ctx)),
        match w {
            None => pulled_main(*old(ctx), *final(ctx), Ok(())),
            Some(e) => pulled_main(*old(ctx), *final(ctx), Err(e)),
        },
{
    match pull_main(ctx) {
        Ok(()) => None,
        Err(e) => Some(e),
    }
}

} // verus!
