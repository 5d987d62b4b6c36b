//! The trusted boundary to the repository object store.
//!
//! Everything a commit lookup needs from the repository comes through the
//! wrappers here; each one makes a single read-only call into git2 and
//! converts its result into plain values.  What a wrapper returns depends
//! on what is in the repository on disk, so no contract pins the values
//! down: the verified callers state what holds of every outcome.

use vstd::prelude::*;

use crate::commit_id::CommitId;

verus! {

#[verifier::external_type_specification]
#[verifier::external_body]
pub struct ExRepository(git2::Repository);

#[verifier::external_type_specification]
#[verifier::external_body]
pub struct ExCommit<'repo>(git2::Commit<'repo>);

#[verifier::external_type_specification]
#[verifier::external_body]
pub struct ExGitError(git2::Error);

/// Relies on git2::Repository::open: opens the already-existing
/// repository at `path`, and fails when none there can be read.
#[verifier::external_body]
pub(crate) fn open_repository(path: &str) -> Result<git2::Repository, git2::Error> {
    git2::Repository::open(path)
}

/// Relies on git2::Oid::from_bytes, which is total on twenty-byte
/// input, and git2::Repository::find_commit: resolves a hash to the
/// commit object it names, and fails when the repository has none.
#[verifier::external_body]
pub(crate) fn lookup_commit<'r>(repo: &'r git2::Repository, id: &CommitId) -> Result<
    git2::Commit<'r>,
    git2::Error,
> {
    let raw = id.raw();
    let oid = git2::Oid::from_bytes(&raw)?;
    repo.find_commit(oid)
}

/// Relies on git2::Commit::message: the commit's message when one is
/// recorded as valid UTF-8, and None otherwise.
#[verifier::external_body]
pub(crate) fn commit_message<'r>(c: &git2::Commit<'r>) -> Option<String> {
    c.message().ok().map(String::from)
}

/// Relies on git2::Commit::author and git2::Signature::name: the
/// author's display name when one is recorded as valid UTF-8, and None
/// otherwise.
#[verifier::external_body]
pub(crate) fn commit_author_name<'r>(c: &git2::Commit<'r>) -> Option<String> {
    c.author().name().ok().map(String::from)
}

/// Relies on git2::Commit::time and git2::Time::seconds: the commit
/// time in seconds since the epoch, signed.
#[verifier::external_body]
pub(crate) fn commit_time_seconds<'r>(c: &git2::Commit<'r>) -> i64 {
    c.time().seconds()
}

} // verus!
