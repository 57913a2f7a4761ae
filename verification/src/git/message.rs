//! The rules for commit messages: which are accepted, and what is stored of one.

use vstd::prelude::*;
use crate::error::GitError;
use crate::text::{chars_of, string_of};

verus! {

/// The greatest number of characters a commit message may have.
pub const MAX_MESSAGE_CHARS: usize = 10000;

/// The greatest number of lines stored of a commit message.
pub const MAX_MESSAGE_LINES: usize = 100;

/// A message is accepted when it is not empty and has at most
/// [`MAX_MESSAGE_CHARS`] characters.
pub open spec fn message_accepted(message: Seq<char>) -> bool {
    0 < message.len() <= MAX_MESSAGE_CHARS
}

/// The message without its NUL characters, the others in their order.
pub open spec fn without_nul(message: Seq<char>) -> Seq<char> {
    message.filter(|c: char| c != '\0')
}

/// How many line feeds the text holds.
pub open spec fn newline_count(text: Seq<char>) -> nat
    decreases text.len(),
{
    if text.len() == 0 {
        0
    } else {
        newline_count(text.drop_last()) + if text.last() == '\n' {
            1nat
        } else {
            0nat
        }
    }
}

/// The first `limit` lines of the text: its longest prefix that holds fewer than
/// `limit` line feeds. A text of at most `limit` lines is its own prefix; a longer
/// one is cut just before the line feed that ends line number `limit`.
pub open spec fn first_lines(text: Seq<char>, limit: nat) -> Seq<char>
    decreases text.len(),
{
    if text.len() == 0 || newline_count(text) < limit {
        text
    } else {
        first_lines(text.drop_last(), limit)
    }
}

/// What is stored of a message: its first [`MAX_MESSAGE_LINES`] lines, after the
/// NUL characters were removed.
pub open spec fn sanitized(message: Seq<char>) -> Seq<char> {
    first_lines(without_nul(message), MAX_MESSAGE_LINES as nat)
}

/// A prefix holds no more line feeds than the whole text.
pub proof fn lemma_newline_count_prefix(text: Seq<char>, k: int)
    requires
        0 <= k <= text.len(),
    ensures
        newline_count(text.take(k)) <= newline_count(text),
    decreases text.len(),
{
    if k == text.len() {
        assert(text.take(k) =~= text);
    } else {
        assert(text.drop_last().take(k) =~= text.take(k));
        lemma_newline_count_prefix(text.drop_last(), k);
    }
}

/// `first_lines` keeps a prefix, with fewer than `limit` line feeds where the
/// limit is positive.
pub proof fn lemma_first_lines_prefix(text: Seq<char>, limit: nat)
    ensures
        first_lines(text, limit).is_prefix_of(text),
        limit > 0 ==> newline_count(first_lines(text, limit)) < limit,
    decreases text.len(),
{
    if text.len() == 0 || newline_count(text) < limit {
    } else {
        lemma_first_lines_prefix(text.drop_last(), limit);
        let p = first_lines(text.drop_last(), limit);
        assert(text.subrange(0, p.len() as int) =~= text.drop_last().subrange(0, p.len() as int));
    }
}

/// Where the prefix of length `k` holds fewer than `limit` line feeds and the
/// character after it is the line feed that reaches the limit, `first_lines` cuts
/// the text at `k`.
pub proof fn lemma_first_lines_cut(text: Seq<char>, limit: nat, k: int)
    requires
        0 <= k < text.len(),
        text[k] == '\n',
        newline_count(text.take(k)) + 1 == limit,
    ensures
        first_lines(text, limit) == text.take(k),
    decreases text.len(),
{
    assert(text.take(k + 1).drop_last() =~= text.take(k));
    assert(newline_count(text.take(k + 1)) == limit);
    lemma_newline_count_prefix(text, k + 1);
    if text.len() == k + 1 {
        assert(text.take(k + 1) =~= text);
        assert(text.drop_last() =~= text.take(k));
        let t = text.take(k);
        assert(first_lines(t, limit) == t);
    } else {
        let init = text.drop_last();
        assert(init.take(k) =~= text.take(k));
        lemma_first_lines_cut(init, limit, k);
    }
}

/// Rejects an empty message and one of more than [`MAX_MESSAGE_CHARS`]
/// characters; accepts every other.
pub fn validate_commit_message(message: &str) -> (r: Result<(), GitError>)
    ensures
        r is Ok <==> message_accepted(message@),
        r is Err ==> r->Err_0 is OperationFailed,
{
    let n = message.unicode_len();
    if n == 0 {
        return Err(GitError::OperationFailed("Commit message cannot be empty".to_owned()));
    }
    if n > MAX_MESSAGE_CHARS {
        return Err(
            GitError::OperationFailed(
                "Commit message too long (max 10000 characters)".to_owned(),
            ),
        );
    }
    Ok(())
}

/// The characters of `message` that are not NUL.
fn strip_nul(message: &Vec<char>) -> (out: Vec<char>)
    ensures
        out@ == without_nul(message@),
{
    let mut out: Vec<char> = Vec::new();
    let mut i: usize = 0;
    while i < message.len()
        invariant
            i <= message.len(),
            out@ == without_nul(message@.take(i as int)),
        decreases message.len() - i,
    {
        let c = message[i];
        proof {
            assert(message@.take(i + 1).drop_last() =~= message@.take(i as int));
            reveal(Seq::filter);
        }
        if c != '\0' {
            out.push(c);
        }
        i += 1;
    }
    assert(message@.take(message.len() as int) =~= message@);
    out
}

/// The first `limit` lines of `text`.
fn take_lines(text: &Vec<char>, limit: usize) -> (out: Vec<char>)
    requires
        limit > 0,
    ensures
        out@ == first_lines(text@, limit as nat),
{
    let mut out: Vec<char> = Vec::new();
    let mut newlines: usize = 0;
    let mut i: usize = 0;
    while i < text.len()
        invariant
            i <= text.len(),
            out@ == text@.take(i as int),
            newlines == newline_count(text@.take(i as int)),
            newlines < limit,
        decreases text.len() - i,
    {
        let c = text[i];
        proof {
            assert(text@.take(i + 1).drop_last() =~= text@.take(i as int));
        }
        if c == '\n' {
            if newlines + 1 >= limit {
                proof {
                    lemma_first_lines_cut(text@, limit as nat, i as int);
                }
                return out;
            }
            newlines += 1;
        }
        out.push(c);
        assert(text@.take(i + 1) =~= text@.take(i as int).push(c));
        i += 1;
    }
    assert(text@.take(text.len() as int) =~= text@);
    out
}

/// What is stored of `message`: see [`sanitized`].
pub fn sanitize_commit_message(message: &str) -> (out: String)
    ensures
        out@ == sanitized(message@),
{
    let chars = chars_of(message);
    let clean = strip_nul(&chars);
    let kept = take_lines(&clean, MAX_MESSAGE_LINES);
    string_of(&kept)
}

/// Checks a message and gives what is stored of it: an error for a message that
/// is not accepted (see [`message_accepted`]), and otherwise the message as
/// [`sanitized`].
pub fn stored_message(message: &str) -> (r: Result<String, GitError>)
    ensures
        r is Ok <==> message_accepted(message@),
        r matches Ok(stored) ==> stored@ == sanitized(message@),
        r matches Err(e) ==> e is OperationFailed,
{
    match validate_commit_message(message) {
        Ok(_) => Ok(sanitize_commit_message(message)),
        Err(e) => Err(e),
    }
}

/// The stored message never holds a NUL character, and every character of it
/// was in the message, in the same order: it is a prefix of the message without
/// its NUL characters.
pub proof fn law_sanitized_has_no_nul(message: Seq<char>)
    ensures
        !sanitized(message).contains('\0'),
        sanitized(message).is_prefix_of(without_nul(message)),
{
    let clean = without_nul(message);
    let stored = sanitized(message);
    lemma_first_lines_prefix(clean, MAX_MESSAGE_LINES as nat);
    if stored.contains('\0') {
        let i = choose|i: int| 0 <= i < stored.len() && stored[i] == '\0';
        assert(stored[i] == clean.subrange(0, stored.len() as int)[i]);
        message.lemma_filter_pred(|c: char| c != '\0', i);
    }
}

/// A message of at most [`MAX_MESSAGE_LINES`] lines is stored as it is but for
/// its NUL characters: the result is the message with those removed and nothing
/// else changed.
pub proof fn law_sanitized_keeps_short_messages(message: Seq<char>)
    requires
        newline_count(without_nul(message)) < MAX_MESSAGE_LINES,
    ensures
        sanitized(message) == without_nul(message),
{
}

/// Of a message of more than [`MAX_MESSAGE_LINES`] lines only the first
/// [`MAX_MESSAGE_LINES`] are stored: the result is a prefix of the message (NUL
/// characters removed) that holds one line feed less than the limit and is
/// followed, in the message, by the line feed that ends the last stored line.
pub proof fn law_sanitized_keeps_first_lines(message: Seq<char>)
    requires
        newline_count(without_nul(message)) >= MAX_MESSAGE_LINES,
    ensures
        sanitized(message).is_prefix_of(without_nul(message)),
        sanitized(message).len() < without_nul(message).len(),
        newline_count(sanitized(message)) == MAX_MESSAGE_LINES - 1,
        without_nul(message)[sanitized(message).len() as int] == '\n',
{
    let clean = without_nul(message);
    lemma_first_lines_boundary(clean, MAX_MESSAGE_LINES as nat);
}

/// Where the text holds at least `limit` line feeds, `first_lines` stops just
/// before the line feed that reaches the limit.
pub proof fn lemma_first_lines_boundary(text: Seq<char>, limit: nat)
    requires
        limit > 0,
        newline_count(text) >= limit,
    ensures
        first_lines(text, limit).is_prefix_of(text),
        first_lines(text, limit).len() < text.len(),
        newline_count(first_lines(text, limit)) == limit - 1,
        text[first_lines(text, limit).len() as int] == '\n',
    decreases text.len(),
{
    let init = text.drop_last();
    lemma_first_lines_prefix(text, limit);
    if newline_count(init) >= limit {
        lemma_first_lines_boundary(init, limit);
    } else {
        assert(first_lines(init, limit) == init);
    }
}

} // verus!
