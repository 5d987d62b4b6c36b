//! Read-only batch lookup of commit metadata from a git repository.
//!
//! Given a repository path and an ordered sequence of commit identifiers,
//! the library resolves each identifier to its commit and returns a
//! display-ready summary per commit: the first line of the message kept to
//! a character limit, the author name (with a sentinel fallback), and the
//! commit time.  The lookup is all-or-nothing: one unresolvable identifier
//! fails the whole batch.

pub mod commit_id;
pub mod commits;
mod git;
pub mod message;

pub use commit_id::CommitId;
pub use commits::CommitInfo;
pub use commits::LookupError;
pub use commits::get_commits_info;
pub use commits::get_message;
pub use commits::make_summary;
pub use message::limit_str;
