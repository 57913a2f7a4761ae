//! Commits and their statistics.

use vstd::prelude::*;
use crate::text::{chars_of, string_of};

verus! {

/// How many characters of a commit hash make its short form.
pub const SHORT_HASH_LEN: usize = 7;

/// The short form of a hash: its first seven characters, or all of it where it
/// has fewer.
pub open spec fn spec_short_hash(hash: Seq<char>) -> Seq<char> {
    if hash.len() >= SHORT_HASH_LEN {
        hash.take(SHORT_HASH_LEN as int)
    } else {
        hash
    }
}

/// Computes [`spec_short_hash`].
pub fn short_hash(hash: &str) -> (out: String)
    ensures
        out@ == spec_short_hash(hash@),
{
    let chars = chars_of(hash);
    if chars.len() < SHORT_HASH_LEN {
        return hash.to_owned();
    }
    let mut head: Vec<char> = Vec::new();
    let mut i: usize = 0;
    while i < SHORT_HASH_LEN
        invariant
            i <= SHORT_HASH_LEN <= chars.len(),
            head@ == chars@.take(i as int),
        decreases SHORT_HASH_LEN - i,
    {
        head.push(chars[i]);
        assert(chars@.take(i + 1) =~= chars@.take(i as int).push(chars@[i as int]));
        i += 1;
    }
    string_of(&head)
}

/// A commit as read from a repository.
#[derive(Debug, Clone)]
pub struct Commit {
    pub hash: String,
    pub short_hash: String,
    pub message: String,
    pub author: String,
    pub email: String,
    /// Seconds since the Unix epoch.
    pub timestamp: i64,
    pub parents: Vec<String>,
}

/// A commit together with the changes it made.
#[derive(Debug, Clone)]
pub struct CommitDetails {
    pub commit: Commit,
    pub diff: String,
    pub stats: CommitStats,
}

/// The size of a commit's changes.
#[derive(Debug, Clone)]
pub struct CommitStats {
    pub files_changed: usize,
    pub insertions: usize,
    pub deletions: usize,
}

impl Commit {
    /// A commit without parents; its short hash is derived from `hash`.
    pub fn new(hash: String, message: String, author: String, email: String, timestamp: i64) -> (c:
        Self)
        ensures
            c.hash == hash,
            c.short_hash@ == spec_short_hash(hash@),
            c.message == message,
            c.author == author,
            c.email == email,
            c.timestamp == timestamp,
            c.parents@.len() == 0,
    {
        let short_hash = short_hash(hash.as_str());
        Self { hash, short_hash, message, author, email, timestamp, parents: Vec::new() }
    }
}

} // verus!
