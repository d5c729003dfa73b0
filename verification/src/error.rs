use vstd::prelude::*;

verus! {

/// Every failure a workflow command can report.
///
/// Structural policy violations (wrong branch, diverged history, ambiguous
/// remote) are typed so the caller can print a message and abort without
/// guessing; backend faults are folded into `BackendIOError`.
#[derive(Clone, Copy, Debug, PartialEq, Eq, Structural)]
pub enum WorkError {
    /// The working directory is not inside a repository.
    NotARepository,
    /// A named branch does not exist.
    UnknownBranch,
    /// `merge` was run while the integration branch itself was checked out.
    CannotMergeFromMain,
    /// A branch cannot be deleted while it is checked out.
    CannotDeleteCurrent,
    /// The current branch is not fast-forwardable onto the integration
    /// branch; the caller must synchronize first.
    MustSyncFirst,
    /// Local and upstream history have truly diverged; never auto-merged.
    DivergedHistory,
    /// Several remotes are configured and none is named "origin".
    AmbiguousRemote,
    /// The transport asked for a credential kind the tool does not support.
    AuthUnsupported,
    /// Any other backend I/O failure.
    BackendIOError,
}

/// The text a variant prints, as a specification value.
pub open spec fn error_text(e: WorkError) -> Seq<char> {
    match e {
        WorkError::NotARepository => "Not in a repository."@,
        WorkError::UnknownBranch => "No branch by that name."@,
        WorkError::CannotMergeFromMain => "Cannot merge from main."@,
        WorkError::CannotDeleteCurrent => "Cannot delete the current branch."@,
        WorkError::MustSyncFirst => "Must be synced on main."@,
        WorkError::DivergedHistory => "Local diverges from remote."@,
        WorkError::AmbiguousRemote => {
            "Unable to resolve default remote ('origin') out of multiple options."@
        },
        WorkError::AuthUnsupported => "Unsupported authentication challenge."@,
        WorkError::BackendIOError => "Backend error."@,
    }
}

impl WorkError {
    /// A human-readable description of the failure.
    pub fn message(&self) -> (r: String)
        ensures
            r@ == error_text(*self),
    {
        match self {
            WorkError::NotARepository => "Not in a repository.".to_owned(),
            WorkError::UnknownBranch => "No branch by that name.".to_owned(),
            WorkError::CannotMergeFromMain => "Cannot merge from main.".to_owned(),
            WorkError::CannotDeleteCurrent => "Cannot delete the current branch.".to_owned(),
            WorkError::MustSyncFirst => "Must be synced on main.".to_owned(),
            WorkError::DivergedHistory => "Local diverges from remote.".to_owned(),
            WorkError::AmbiguousRemote => {
                "Unable to resolve default remote ('origin') out of multiple options.".to_owned()
            },
            WorkError::AuthUnsupported => "Unsupported authentication challenge.".to_owned(),
            WorkError::BackendIOError => "Backend error.".to_owned(),
        }
    }
}

} // verus!
