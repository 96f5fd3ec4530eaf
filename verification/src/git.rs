//! What the version-control adapter hands to the core: its errors, and the staged diff cut
//! down to the lines that the prompt has room for.

use crate::text::{
    append, blank, chars_of, copy_range, decimal, is_blank, join, joined, lines_of, split_lines,
    string_of, to_decimal, views,
};
use vstd::prelude::*;

verus! {

/// Why a version-control step failed.
#[derive(Debug, Clone, PartialEq, Eq)]
pub enum GitError {
    NotARepository,
    NoStagedChanges,
    CommandFailed(String),
}

impl GitError {
    /// What the operator is told of this error.
    pub open spec fn text(self) -> Seq<char> {
        match self {
            GitError::NotARepository => "Not in a git repository"@,
            GitError::NoStagedChanges => "No staged changes to commit"@,
            GitError::CommandFailed(msg) => "Git command failed: "@ + msg@,
        }
    }

    /// What the operator is told of this error.
    pub fn to_string(&self) -> (out: String)
        ensures
            out@ == self.text(),
    {
        match self {
            GitError::NotARepository => string_of(chars_of("Not in a git repository").as_slice()),
            GitError::NoStagedChanges => string_of(
                chars_of("No staged changes to commit").as_slice(),
            ),
            GitError::CommandFailed(msg) => {
                let mut out = chars_of("Git command failed: ");
                let msg = chars_of(msg.as_str());
                append(&mut out, msg.as_slice());
                string_of(out.as_slice())
            },
        }
    }
}

/// The note that stands where `hidden` lines of a diff were left out.
pub open spec fn truncation_note(hidden: nat) -> Seq<char> {
    "\n\n... [TRUNCATED: "@ + decimal(hidden) + " more lines not shown] ..."@
}

/// The staged diff as the prompt takes it: the diff itself where it has at most `max_lines`
/// lines, and otherwise its first `max_lines` lines, joined by line feeds, with a note of
/// how many were left out. A blank diff means that nothing is staged.
pub open spec fn staged_diff(diff: Seq<char>, max_lines: nat) -> Result<Seq<char>, GitError> {
    if is_blank(diff) {
        Err(GitError::NoStagedChanges)
    } else if lines_of(diff).len() <= max_lines {
        Ok(diff)
    } else {
        Ok(
            joined(lines_of(diff).subrange(0, max_lines as int), seq!['\n']) + truncation_note(
                (lines_of(diff).len() - max_lines) as nat,
            ),
        )
    }
}

/// How many lines `output` has: the number of files that a listing of names, one to a line,
/// speaks of.
pub fn count_staged_files(output: &str) -> (n: usize)
    ensures
        n == lines_of(output@).len(),
{
    let chars = chars_of(output);
    let lines = split_lines(chars.as_slice());
    assert(views(lines@).len() == lines@.len());
    lines.len()
}

/// Cuts the output of the diff command down to `max_lines` lines.
pub fn get_staged_diff(diff: &str, max_lines: usize) -> (out: Result<String, GitError>)
    ensures
        match out {
            Ok(text) => staged_diff(diff@, max_lines as nat) == Ok::<Seq<char>, GitError>(text@),
            Err(e) => staged_diff(diff@, max_lines as nat) == Err::<Seq<char>, GitError>(e),
        },
{
    let chars = chars_of(diff);
    if blank(chars.as_slice()) {
        return Err(GitError::NoStagedChanges);
    }
    let lines = split_lines(chars.as_slice());
    assert(views(lines@).len() == lines@.len());
    if lines.len() <= max_lines {
        return Ok(string_of(chars.as_slice()));
    }
    let mut kept: Vec<Vec<char>> = Vec::new();
    let mut i: usize = 0;
    while i < max_lines
        invariant
            i <= max_lines < lines.len(),
            views(kept@) == views(lines@).subrange(0, i as int),
        decreases max_lines - i,
    {
        let ghost before = views(kept@);
        let line = copy_range(lines[i].as_slice(), 0, lines[i].len());
        assert(line@ == lines@[i as int]@);
        kept.push(line);
        assert(views(kept@) == before.push(lines@[i as int]@));
        assert(views(lines@).subrange(0, i + 1) == views(lines@).subrange(0, i as int).push(
            lines@[i as int]@,
        ));
        i += 1;
    }
    let sep = chars_of("\n");
    proof {
        reveal_strlit("\n");
        assert(sep@ == seq!['\n']);
    }
    let mut out = join(&kept, sep.as_slice());
    let hidden = to_decimal((lines.len() - max_lines) as u64);
    append(&mut out, chars_of("\n\n... [TRUNCATED: ").as_slice());
    append(&mut out, hidden.as_slice());
    append(&mut out, chars_of(" more lines not shown] ...").as_slice());
    assert(out@ == joined(views(lines@).subrange(0, max_lines as int), seq!['\n'])
        + truncation_note((lines.len() - max_lines) as nat));
    Ok(string_of(out.as_slice()))
}

} // verus!
