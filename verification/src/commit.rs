//! The commit metadata the interpreter reads, as plain values.
//!
//! A commit is externally owned; the walk hands over one `CommitInfo` per
//! step, holding exactly the fields the format codes can extract. Text
//! fields that the repository could not decode as UTF-8 arrive as `None`,
//! as do abbreviated hashes the collaborator could not produce.

use vstd::prelude::*;

verus! {

/// One commit's metadata, decoded to plain values.
pub struct CommitInfo {
    /// The full commit identifier, as raw hash bytes.
    pub id: Vec<u8>,
    /// The full tree identifier, as raw hash bytes.
    pub tree_id: Vec<u8>,
    /// The parent identifiers, in parent order.
    pub parent_ids: Vec<Vec<u8>>,
    /// The abbreviated commit hash, if the collaborator produced valid text.
    pub short_id: Option<String>,
    /// The abbreviated tree hash, if the collaborator produced valid text.
    pub tree_short_id: Option<String>,
    /// The abbreviated parent hashes, in parent order.
    pub parent_short_ids: Vec<Option<String>>,
    /// The author's name, if valid text.
    pub author_name: Option<String>,
    /// The author's email, if valid text.
    pub author_email: Option<String>,
    /// The author timestamp, in POSIX seconds.
    pub author_seconds: i64,
    /// The author timestamp's UTC offset, in minutes.
    pub author_offset_minutes: i32,
    /// The committer timestamp, in POSIX seconds.
    pub commit_seconds: i64,
    /// The committer timestamp's UTC offset, in minutes.
    pub commit_offset_minutes: i32,
    /// The first line of the message, if valid text.
    pub summary: Option<String>,
    /// The full message, if valid text.
    pub message: Option<String>,
}

impl CommitInfo {
    /// There is one abbreviated-hash slot per parent.
    pub open spec fn wf(&self) -> bool {
        self.parent_short_ids@.len() == self.parent_ids@.len()
    }
}

} // verus!
