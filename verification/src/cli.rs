use vstd::prelude::*;

verus! {

/// A parsed command-line invocation.
///
/// Argument parsing itself happens outside the library; these types carry
/// the parsed values into the verified commands as plain data.
pub struct Cli {
    pub command: Commands,
}

/// The workflow verbs.
pub enum Commands {
    Prune,
    Delete(DeleteArgs),
    Diff(DiffArgs),
    List,
    Load(LoadArgs),
    Log,
    Merge,
    New(NewArgs),
    Save(SaveArgs),
    Status(StatusArgs),
    Squash,
    Sync(SyncArgs),
}

/// Arguments of `new`: the branch name, if the caller chose one.
pub struct NewArgs {
    pub name: Option<String>,
}

/// Arguments of `delete`: the branches to remove.
pub struct DeleteArgs {
    pub names: Vec<String>,
}

/// Arguments of `sync`: the branches to push besides main.
pub struct SyncArgs {
    pub names: Vec<String>,
}

/// Arguments of `save`: the commit message, word by word.
pub struct SaveArgs {
    pub message: Vec<String>,
}

/// Arguments of `load`: the branch to switch to.
pub struct LoadArgs {
    pub target: String,
}

/// Arguments of `status`: the branch to compare against, if any.
pub struct StatusArgs {
    pub target: Option<String>,
}

/// Arguments of `diff`: the branch to compare against, if any.
pub struct DiffArgs {
    pub target: Option<String>,
}

} // verus!
