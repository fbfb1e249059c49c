//! The errors of a release.
use vstd::prelude::*;
use crate::action::Action;
use crate::sequence::Step;
use crate::version::{Operation, Version, VersionUpdate};

verus! {

/// Why a project could not be set up or a release could not complete.
pub enum SheepError {
    /// The path does not hold a repository that can be opened.
    Open(git2::Error),
    /// The remote repository could not be cloned.
    Clone(git2::Error),
    /// The repository has no remote of this name.
    RemoteNotFound { name: String, source: git2::Error },
    /// A dry run was asked to clone into the repository it previews.
    DryRunTarget,
    /// No temporary directory could be created for a dry run.
    TemporaryDirectory,
    /// The tags of the repository could not be listed.
    TagList(git2::Error),
    /// The operation cannot be applied to the current version.
    VersionOverflow { current: Version, operation: Operation },
    /// A mutation of `release` failed: `completed` ran before it, `failed`
    /// is the one that failed, and nothing after it ran.
    Mutation {
        step: Step,
        release: VersionUpdate,
        completed: Vec<Action>,
        failed: Action,
        source: git2::Error,
    },
}

} // verus!
