//! The rules behind the git commands: how a change is classified, how the
//! references of a branch are spelled, and what is shown of a commit.

use vstd::prelude::*;
use vstd::slice::slice_subrange;
use crate::text::{chars_of, text_of};

verus! {

/// The state of a repository: its branch and what has changed.
#[derive(Debug)]
pub struct GitStatus {
    pub branch: String,
    pub changes: Vec<GitChange>,
}

/// One changed file. The status is `modified`, `added`, `deleted` or
/// `untracked`.
#[derive(Debug)]
pub struct GitChange {
    pub file: String,
    pub status: String,
}

/// One commit of the history.
#[derive(Debug)]
pub struct GitCommit {
    pub hash: String,
    pub message: String,
    pub author: String,
    pub date: String,
}

/// What a `GitChange` holds.
pub struct GitChangeView {
    pub file: Seq<char>,
    pub status: Seq<char>,
}

impl View for GitChange {
    type V = GitChangeView;

    open spec fn view(&self) -> GitChangeView {
        GitChangeView { file: self.file@, status: self.status@ }
    }
}

/// What each change of a list holds.
pub open spec fn change_views(changes: Seq<GitChange>) -> Seq<GitChangeView> {
    changes.map_values(|change: GitChange| change@)
}

/// What a `GitStatus` holds.
pub struct GitStatusView {
    pub branch: Seq<char>,
    pub changes: Seq<GitChangeView>,
}

impl View for GitStatus {
    type V = GitStatusView;

    open spec fn view(&self) -> GitStatusView {
        GitStatusView { branch: self.branch@, changes: change_views(self.changes@) }
    }
}

/// What a `GitCommit` holds.
pub struct GitCommitView {
    pub hash: Seq<char>,
    pub message: Seq<char>,
    pub author: Seq<char>,
    pub date: Seq<char>,
}

impl View for GitCommit {
    type V = GitCommitView;

    open spec fn view(&self) -> GitCommitView {
        GitCommitView {
            hash: self.hash@,
            message: self.message@,
            author: self.author@,
            date: self.date@,
        }
    }
}

/// What git reports of one file, in the working tree and in the index.
#[derive(Debug, Clone, Copy, PartialEq, Eq, Structural)]
pub struct ChangeFlags {
    pub wt_modified: bool,
    pub index_modified: bool,
    pub wt_new: bool,
    pub index_new: bool,
    pub wt_deleted: bool,
    pub index_deleted: bool,
}

/// The name under which the application commits.
pub const COMMITTER_NAME: &'static str = "Vibe Studio";

/// The address under which the application commits.
pub const COMMITTER_EMAIL: &'static str = "vibe@studio.local";

/// The remote from which the application pulls.
pub const DEFAULT_REMOTE: &'static str = "origin";

/// The number of characters shown of a commit's hash.
pub const SHORT_HASH_LENGTH: usize = 7;

/// The status of a file: a modification counts before an addition, and an
/// addition before a deletion; a file with none of these is untracked.
pub open spec fn status_of(flags: ChangeFlags) -> Seq<char> {
    if flags.wt_modified || flags.index_modified {
        "modified"@
    } else if flags.wt_new || flags.index_new {
        "added"@
    } else if flags.wt_deleted || flags.index_deleted {
        "deleted"@
    } else {
        "untracked"@
    }
}

/// A text, or `fallback` in its place.
pub open spec fn text_or(text: Option<Seq<char>>, fallback: Seq<char>) -> Seq<char> {
    match text {
        Some(t) => t,
        None => fallback,
    }
}

/// What an optional text holds.
pub open spec fn optional_text(text: Option<&str>) -> Option<Seq<char>> {
    match text {
        Some(t) => Some(t@),
        None => None,
    }
}

/// The full name of a local branch.
pub open spec fn branch_reference(branch: Seq<char>) -> Seq<char> {
    "refs/heads/"@ + branch
}

/// The refspec that pushes a local branch to the branch of the same name.
pub open spec fn refspec_of(branch: Seq<char>) -> Seq<char> {
    branch_reference(branch) + ":"@ + branch_reference(branch)
}

/// The first characters of a hash: seven of them, or all where there are
/// fewer.
pub open spec fn short_form(hash: Seq<char>) -> Seq<char> {
    if hash.len() <= SHORT_HASH_LENGTH {
        hash
    } else {
        hash.take(SHORT_HASH_LENGTH as int)
    }
}

/// Classifies a changed file.
pub fn change_status(flags: ChangeFlags) -> (status: &'static str)
    ensures
        status@ == status_of(flags),
{
    if flags.wt_modified || flags.index_modified {
        "modified"
    } else if flags.wt_new || flags.index_new {
        "added"
    } else if flags.wt_deleted || flags.index_deleted {
        "deleted"
    } else {
        "untracked"
    }
}

/// A copy of `text`, or of `fallback` in its place.
pub fn text_or_default(text: Option<&str>, fallback: &str) -> (chosen: String)
    ensures
        chosen@ == text_or(optional_text(text), fallback@),
{
    match text {
        Some(t) => t.to_owned(),
        None => fallback.to_owned(),
    }
}

/// The full name of a local branch.
pub fn branch_ref(branch: &str) -> (reference: String)
    ensures
        reference@ == branch_reference(branch@),
{
    let mut reference = "refs/heads/".to_owned();
    reference.append(branch);
    reference
}

/// The refspec that pushes a local branch to the branch of the same name.
pub fn push_refspec(branch: &str) -> (refspec: String)
    ensures
        refspec@ == refspec_of(branch@),
{
    let mut refspec = branch_ref(branch);
    refspec.append(":");
    let target = branch_ref(branch);
    refspec.append(target.as_str());
    refspec
}

/// The first characters of a hash.
pub fn short_hash(hash: &str) -> (short: String)
    ensures
        short@ == short_form(hash@),
{
    let chars = chars_of(hash);
    if chars.len() <= SHORT_HASH_LENGTH {
        hash.to_owned()
    } else {
        let head = slice_subrange(chars.as_slice(), 0, SHORT_HASH_LENGTH);
        text_of(head)
    }
}

impl GitChange {
    /// The change that git reports for a file. A path that is no text counts
    /// as empty.
    pub fn new(path: Option<&str>, flags: ChangeFlags) -> (change: GitChange)
        ensures
            change@ == (GitChangeView {
                file: text_or(optional_text(path), Seq::empty()),
                status: status_of(flags),
            }),
    {
        proof {
            reveal_strlit("");
            assert(""@ =~= Seq::<char>::empty());
        }
        GitChange { file: text_or_default(path, ""), status: change_status(flags).to_owned() }
    }
}

impl GitStatus {
    /// The state of a repository. A head without a short name counts as
    /// `HEAD`.
    pub fn new(branch: Option<&str>, changes: Vec<GitChange>) -> (status: GitStatus)
        ensures
            status@ == (GitStatusView {
                branch: text_or(optional_text(branch), "HEAD"@),
                changes: change_views(changes@),
            }),
    {
        GitStatus { branch: text_or_default(branch, "HEAD"), changes }
    }
}

impl GitCommit {
    /// What is shown of a commit: the first characters of its hash, its
    /// message or nothing, its author or `Unknown`, and its date.
    pub fn new(hash: &str, message: Option<&str>, author: Option<&str>, date: String) -> (commit:
        GitCommit)
        ensures
            commit@ == (GitCommitView {
                hash: short_form(hash@),
                message: text_or(optional_text(message), Seq::empty()),
                author: text_or(optional_text(author), "Unknown"@),
                date: date@,
            }),
    {
        proof {
            reveal_strlit("");
            assert(""@ =~= Seq::<char>::empty());
        }
        GitCommit {
            hash: short_hash(hash),
            message: text_or_default(message, ""),
            author: text_or_default(author, "Unknown"),
            date,
        }
    }
}

/// Whether the history still wants a commit after `shown` of them.
pub fn wants_more(shown: usize, limit: usize) -> (more: bool)
    ensures
        more == (shown < limit),
{
    shown < limit
}

} // verus!
