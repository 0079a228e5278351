//! Normalized commit records and the values that describe them.
use vstd::prelude::*;

verus! {

/// The moment a commit was recorded: seconds since the Unix epoch (UTC) and
/// the committer's offset from UTC in minutes.
#[derive(Debug, Clone, Copy, PartialEq, Eq, Structural)]
pub struct CommitTime {
    pub seconds: i64,
    pub offset_minutes: i32,
}

/// A normalized commit as stored in the catalog.
#[derive(Debug, Clone)]
pub struct Commit {
    /// The commit's object id in hex; the primary key.
    pub hash: String,
    /// The first parent's object id; `None` for a root commit.
    pub tree: Option<String>,
    /// The full message, line endings normalized, trailing newline trimmed.
    pub text: String,
    pub date: CommitTime,
    pub author_email: String,
    pub author_name: String,
    pub committer_email: String,
    pub committer_name: String,
    /// The canonical `owner/name` of the repository that holds the commit.
    pub repository_url: String,
}

/// The number of commits of one author, for the authors ranking.
#[derive(Debug, Clone)]
pub struct CommitNumAuthor {
    pub num: i64,
    pub author_email: String,
    pub author_name: String,
}

impl Commit {
    /// An equal copy of the record.
    pub fn duplicate(&self) -> (r: Commit)
        ensures
            r == *self,
    {
        Commit {
            hash: self.hash.clone(),
            tree: match &self.tree {
                Some(t) => Some(t.clone()),
                None => None,
            },
            text: self.text.clone(),
            date: self.date,
            author_email: self.author_email.clone(),
            author_name: self.author_name.clone(),
            committer_email: self.committer_email.clone(),
            committer_name: self.committer_name.clone(),
            repository_url: self.repository_url.clone(),
        }
    }

    /// The `LIKE` pattern that finds the commits whose hash contains
    /// `commit_hash`, or `None` where every commit is wanted.
    pub fn hash_filter(commit_hash: &String) -> (r: Option<String>)
        ensures
            commit_hash@.len() == 0 ==> r is None,
            commit_hash@.len() > 0 ==> (r matches Some(p) && p@ == "%"@ + commit_hash@ + "%"@),
    {
        if commit_hash.as_str().unicode_len() == 0 {
            None
        } else {
            let p = String::from_str("%").concat(commit_hash.as_str()).concat("%");
            Some(p)
        }
    }
}

} // verus!
