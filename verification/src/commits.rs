//! Batch lookup of commit summaries, in input order, all-or-nothing.

use vstd::prelude::*;
use vstd::string::StringExecFns;

use crate::commit_id::CommitId;
use crate::git::{
    commit_author_name, commit_message, commit_time_seconds, lookup_commit, open_repository,
};
use crate::message::{limit_str, limited, lemma_limited_chars, unknown_sentinel};

verus! {

/// A display-ready summary of one commit.
#[derive(Debug)]
pub struct CommitInfo {
    /// The first line of the commit message, kept to the requested
    /// character limit, or the sentinel when no message is recorded.
    pub message: String,
    /// Commit time in seconds since the epoch, signed.
    pub time: i64,
    /// Author display name, or the sentinel when none is recorded.
    pub author: String,
    /// The identifier the summary was resolved from.
    pub id: CommitId,
}

/// Why a batch lookup failed.
#[derive(Debug, Copy, Clone, PartialEq, Eq)]
pub enum LookupError {
    /// The repository location could not be opened.
    RepoInaccessible,
    /// The named commit does not exist in the repository.
    CommitNotFound(CommitId),
}

/// A well-formed summary message: either the sentinel, or a single line
/// of at most `limit` characters.
pub open spec fn summary_message_ok(m: Seq<char>, limit: nat) -> bool {
    m == unknown_sentinel() || (m.len() <= limit && forall|k: int|
        0 <= k < m.len() ==> m[k] != '\n')
}

/// The summary message of a commit whose recorded message is `msg`: its
/// first line kept to `limit` characters, or the sentinel when the commit
/// has no message at all.
pub fn get_message(msg: Option<String>, limit: usize) -> (r: String)
    ensures
        msg matches Some(m) ==> r@ == limited(m@, limit as nat),
        msg is None ==> r@ == unknown_sentinel(),
{
    match msg {
        Some(m) => limit_str(m.as_str(), limit),
        None => String::from_str("<unknown>"),
    }
}

/// Projects the fields read from one resolved commit object into its
/// summary: the message truncated (or defaulted), the author defaulted
/// when absent, and the identifier echoed back unchanged.
pub fn make_summary(
    message: Option<String>,
    author: Option<String>,
    time: i64,
    id: CommitId,
    limit: usize,
) -> (r: CommitInfo)
    ensures
        r.id == id,
        r.time == time,
        message matches Some(m) ==> r.message@ == limited(m@, limit as nat),
        message is None ==> r.message@ == unknown_sentinel(),
        author matches Some(a) ==> r.author@ == a@,
        author is None ==> r.author@ == unknown_sentinel(),
        summary_message_ok(r.message@, limit as nat),
{
    proof {
        if let Some(m) = &message {
            lemma_limited_chars(m@, limit as nat);
            assert forall|k: int| 0 <= k < limited(m@, limit as nat).len() implies limited(
                m@,
                limit as nat,
            )[k] != '\n' by {
                assert(limited(m@, limit as nat)[k] == m@[k] && m@[k] != '\n');
            }
            assert(summary_message_ok(limited(m@, limit as nat), limit as nat));
        }
    }
    let msg = get_message(message, limit);
    let author = match author {
        Some(a) => a,
        None => String::from_str("<unknown>"),
    };
    CommitInfo { message: msg, author, time, id }
}

/// Resolves each identifier, in input order, to a summary of its commit.
///
/// The batch is all-or-nothing: when the repository cannot be opened, or
/// any single identifier does not resolve, the whole call fails and no
/// summaries are returned.  On success the result has one summary per
/// identifier, in the same order, each echoing its identifier back.
pub fn get_commits_info(
    repo_path: &str,
    ids: &Vec<CommitId>,
    message_length_limit: usize,
) -> (r: Result<Vec<CommitInfo>, LookupError>)
    ensures
        r matches Ok(infos) ==> {
            &&& infos@.len() == ids@.len()
            &&& forall|i: int| 0 <= i < ids@.len() ==> #[trigger] infos@[i].id == ids@[i]
            &&& forall|i: int|
                0 <= i < ids@.len() ==> summary_message_ok(
                    #[trigger] infos@[i].message@,
                    message_length_limit as nat,
                )
        },
        r matches Err(e) ==> e is RepoInaccessible || (e matches LookupError::CommitNotFound(id)
            && ids@.contains(id)),
        ids@.len() == 0 && r is Err ==> r == Err::<Vec<CommitInfo>, LookupError>(
            LookupError::RepoInaccessible,
        ),
{
    let repo = match open_repository(repo_path) {
        Ok(repo) => repo,
        Err(_) => {
            return Err(LookupError::RepoInaccessible);
        },
    };
    let mut infos: Vec<CommitInfo> = Vec::new();
    let mut idx: usize = 0;
    while idx < ids.len()
        invariant
            idx <= ids@.len(),
            infos@.len() == idx,
            forall|i: int| 0 <= i < idx ==> #[trigger] infos@[i].id == ids@[i],
            forall|i: int|
                0 <= i < idx ==> summary_message_ok(
                    #[trigger] infos@[i].message@,
                    message_length_limit as nat,
                ),
        decreases ids@.len() - idx,
    {
        let id = ids[idx];
        let commit = match lookup_commit(&repo, &id) {
            Ok(c) => c,
            Err(_) => {
                proof {
                    assert(ids@[idx as int] == id);
                }
                return Err(LookupError::CommitNotFound(id));
            },
        };
        let message = commit_message(&commit);
        let author = commit_author_name(&commit);
        let time = commit_time_seconds(&commit);
        infos.push(make_summary(message, author, time, id, message_length_limit));
        idx += 1;
    }
    Ok(infos)
}

} // verus!
