use vstd::prelude::*;

verus! {

/// A single commit: an immutable node of the history graph.
///
/// Commits live in one append-only vector; `parent` is an index into that
/// vector and always points strictly below the commit itself, so every
/// parent chain terminates at a root.
pub struct Commit {
    /// Index of the parent commit, `None` for a root commit.
    pub parent: Option<usize>,
    /// Identifier of the tree (whole working-tree state) this commit captures.
    pub tree: u64,
    /// Commit message.
    pub message: String,
}

/// A named, movable pointer into the commit graph.
pub struct Branch {
    pub name: String,
    /// Index of the branch tip in the commit vector.
    pub tip: usize,
}

/// The repository state a workflow command acts on.
///
/// The backend's object store, refs and configuration are abstracted to
/// plain values: one commit graph shared by local and fetched history, the
/// local branches, the checked-out branch, the tree the working directory
/// would produce if staged right now, and the configured remotes.
/// `remote_refs` holds the refs of the remote the repository would
/// synchronize with, when one can be resolved.
pub struct Ctx {
    /// Append-only commit graph, local and fetched commits alike.
    pub commits: Vec<Commit>,
    /// Local branches; names are distinct.
    pub branches: Vec<Branch>,
    /// Index of the checked-out branch in `branches`.
    pub head: usize,
    /// Tree identifier of the working directory with everything staged.
    pub worktree: u64,
    /// Names of the configured remotes.
    pub remotes: Vec<String>,
    /// Refs on the resolved remote; names are distinct.
    pub remote_refs: Vec<Branch>,
    /// Prefix under which personal branches are pushed.
    pub prefix: String,
}

/// Every parent link points strictly below its commit.
pub open spec fn parents_ok(commits: Seq<Commit>) -> bool {
    forall|i: int|
        #![trigger commits[i]]
        0 <= i < commits.len() ==> (commits[i].parent matches Some(p) ==> p < i)
}

/// Every tip is an index into a commit vector of length `n`.
pub open spec fn tips_ok(bs: Seq<Branch>, n: int) -> bool {
    forall|i: int| #![trigger bs[i]] 0 <= i < bs.len() ==> bs[i].tip < n
}

/// No two branches share a name.
pub open spec fn names_unique(bs: Seq<Branch>) -> bool {
    forall|i: int, j: int|
        #![trigger bs[i], bs[j]]
        0 <= i < j < bs.len() ==> bs[i].name@ != bs[j].name@
}

/// Well-formedness of the repository state; every command keeps it.
pub open spec fn wf(c: Ctx) -> bool {
    &&& c.head < c.branches@.len()
    &&& parents_ok(c.commits@)
    &&& tips_ok(c.branches@, c.commits@.len() as int)
    &&& tips_ok(c.remote_refs@, c.commits@.len() as int)
    &&& names_unique(c.branches@)
    &&& names_unique(c.remote_refs@)
}

/// Whether a branch named `name` exists.
pub open spec fn has_branch(bs: Seq<Branch>, name: Seq<char>) -> bool {
    exists|i: int| 0 <= i < bs.len() && bs[i].name@ == name
}

/// The index of the branch named `name`, when one exists.
pub open spec fn branch_index(bs: Seq<Branch>, name: Seq<char>) -> int {
    choose|i: int| 0 <= i < bs.len() && bs[i].name@ == name
}

/// Index of the tip of the checked-out branch.
pub open spec fn head_tip(c: Ctx) -> int {
    c.branches@[c.head as int].tip as int
}

/// Tree captured by the tip of the checked-out branch.
pub open spec fn head_tree(c: Ctx) -> u64 {
    c.commits@[head_tip(c)].tree
}

/// The working tree holds nothing beyond the checked-out tip.
pub open spec fn clean(c: Ctx) -> bool {
    c.worktree == head_tree(c)
}

/// `anc` precedes (or is) `desc` in the commit graph, following parent
/// links.
pub open spec fn is_ancestor(commits: Seq<Commit>, anc: int, desc: int) -> bool
    decreases desc,
{
    ||| anc == desc
    ||| (0 <= desc < commits.len() && (commits[desc].parent matches Some(p) && p < desc
        && is_ancestor(commits, anc, p as int)))
}

/// `branch_index` names a real branch whenever one with that name exists.
pub proof fn lemma_branch_index(bs: Seq<Branch>, name: Seq<char>)
    requires
        has_branch(bs, name),
    ensures
        0 <= branch_index(bs, name) < bs.len(),
        bs[branch_index(bs, name)].name@ == name,
{
}

/// With distinct names, two branches with the same name are the same
/// branch.
pub proof fn lemma_name_unique(bs: Seq<Branch>, i: int, j: int)
    requires
        names_unique(bs),
        0 <= i < bs.len(),
        0 <= j < bs.len(),
        bs[i].name@ == bs[j].name@,
    ensures
        i == j,
{
}

/// Branch vectors whose names agree position by position hold the same
/// names.
pub proof fn lemma_same_names_has_branch(a: Seq<Branch>, b: Seq<Branch>, name: Seq<char>)
    requires
        a.len() == b.len(),
        forall|i: int| 0 <= i < a.len() ==> (#[trigger] a[i].name) == b[i].name,
    ensures
        has_branch(a, name) == has_branch(b, name),
{
    if has_branch(a, name) {
        let i = choose|i: int| 0 <= i < a.len() && a[i].name@ == name;
        assert(b[i].name@ == name);
    }
    if has_branch(b, name) {
        let i = choose|i: int| 0 <= i < b.len() && b[i].name@ == name;
        assert(a[i].name@ == name);
    }
}

/// Finds the branch named `name`, if any.
pub fn find_branch(bs: &Vec<Branch>, name: &String) -> (r: Option<usize>)
    ensures
        match r {
            Some(i) => i < bs@.len() && bs@[i as int].name@ == name@,
            None => !has_branch(bs@, name@),
        },
{
    let mut i: usize = 0;
    while i < bs.len()
        invariant
            i <= bs@.len(),
            forall|j: int| 0 <= j < i ==> (#[trigger] bs@[j].name)@ != name@,
        decreases bs@.len() - i,
    {
        if bs[i].name == *name {
            return Some(i);
        }
        i += 1;
    }
    None
}

/// Decides ancestry by walking parent links down from `desc`.
pub fn check_ancestor(commits: &Vec<Commit>, anc: usize, desc: usize) -> (r: bool)
    requires
        parents_ok(commits@),
        desc < commits@.len(),
    ensures
        r == is_ancestor(commits@, anc as int, desc as int),
{
    let mut cur: usize = desc;
    loop
        invariant
            cur < commits@.len(),
            parents_ok(commits@),
            is_ancestor(commits@, anc as int, desc as int) == is_ancestor(
                commits@,
                anc as int,
                cur as int,
            ),
        decreases cur,
    {
        if cur == anc {
            return true;
        }
        match commits[cur].parent {
            Some(p) => {
                assert(p < cur);
                cur = p;
            },
            None => {
                return false;
            },
        }
    }
}

} // verus!
