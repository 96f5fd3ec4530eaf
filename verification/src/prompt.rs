//! The request text that a generation backend is sent.

use crate::text::{append, chars_of, string_of};
use vstd::prelude::*;

verus! {

/// How the request opens.
pub const PROMPT_OPENING: &'static str =
    "You are an expert at writing clear, professional git commit messages following the Conventional Commits specification.\n\
\n\
## Your Task\n\
Generate a commit message for the staged changes shown below.\n\
\n\
## Conventional Commits Specification\n";

/// The commit convention, in short.
pub const COMMIT_CONVENTION: &'static str =
    "A commit message is structured as follows:\n\
\n\
<type>[optional scope][optional !]: <description>\n\
\n\
[optional body]\n\
\n\
[optional footer(s)]\n\
\n\
1. The message starts with a type, a noun such as feat or fix, followed by an optional scope in parentheses, an optional ! and a colon and a space.\n\
2. feat is used when the commit adds a feature; fix when it repairs a bug. Other types, such as docs, style, refactor, perf, test, build, ci, chore and revert, are allowed.\n\
3. A scope is a noun that names a section of the code base, for example fix(parser): ...\n\
4. The description follows the colon and space and is a short summary of the change.\n\
5. A body may follow the description after one blank line; it is free text and may have several paragraphs.\n\
6. One or more footers may follow the body after one blank line, each a token, then a colon and a space or a space and #, then a value.\n\
7. A breaking change is marked by a ! before the colon, or by a footer that begins with BREAKING CHANGE: and describes it.";

/// The requirements on the message, and the opening of the recent history.
pub const PROMPT_REQUIREMENTS: &'static str =
    "\n\
\n\
## Requirements\n\
\n\
### Subject Line (REQUIRED)\n\
- Format: `type(scope): description` or `type: description`\n\
- Types: feat, fix, docs, style, refactor, test, chore, perf, ci, build, revert\n\
- Scope: optional, describes the affected component (e.g., auth, api, ui)\n\
- Description: imperative mood, lowercase, no period at end, max 72 chars\n\
- Be specific! Avoid vague words like \"update\", \"fix issue\", \"changes\"\n\
\n\
### Body (OPTIONAL but recommended for complex changes)\n\
- Explain WHAT changed and WHY (not HOW - the code shows that)\n\
- Wrap at 72 characters\n\
- Use bullet points for multiple changes\n\
\n\
## Context\n\
\n\
### Recent Commit History (for style reference)\n\
```\n";

/// What stands for the recent history of a repository without commits.
pub const NO_HISTORY: &'static str = "(no previous commits)";

/// The opening of the change statistics.
pub const PROMPT_STATISTICS: &'static str = "\n\
```\n\
\n\
### Change Statistics\n\
```\n";

/// The opening of the diff.
pub const PROMPT_DIFF: &'static str = "\n\
```\n\
\n\
### Actual Diff Content\n\
```diff\n";

/// The format that the answer must have.
pub const PROMPT_FORMAT: &'static str =
    "\n\
```\n\
\n\
## Response Format\n\
Respond in EXACTLY this format (no markdown, no extra text):\n\
\n\
SUBJECT: <your subject line here>\n\
BODY: <your body here, or just \"none\" if not needed>\n\
\n\
Generate the commit message now:";

/// The request for a commit message: the convention, the requirements, the recent history
/// (or a note that there is none), the statistics of the change, the diff, and the format
/// of the answer, in this order.
pub open spec fn prompt_text(diff: Seq<char>, history: Seq<char>, stat: Seq<char>) -> Seq<char> {
    PROMPT_OPENING@ + COMMIT_CONVENTION@ + PROMPT_REQUIREMENTS@ + (if history.len() == 0 {
        NO_HISTORY@
    } else {
        history
    }) + PROMPT_STATISTICS@ + stat + PROMPT_DIFF@ + diff + PROMPT_FORMAT@
}

/// Builds the request for a commit message.
pub fn build_commit_prompt(diff_content: &str, commit_history: &str, diff_stat: &str) -> (out:
    String)
    ensures
        out@ == prompt_text(diff_content@, commit_history@, diff_stat@),
{
    let mut out = chars_of(PROMPT_OPENING);
    append(&mut out, chars_of(COMMIT_CONVENTION).as_slice());
    append(&mut out, chars_of(PROMPT_REQUIREMENTS).as_slice());
    let history = chars_of(commit_history);
    if history.len() == 0 {
        append(&mut out, chars_of(NO_HISTORY).as_slice());
    } else {
        append(&mut out, history.as_slice());
    }
    append(&mut out, chars_of(PROMPT_STATISTICS).as_slice());
    append(&mut out, chars_of(diff_stat).as_slice());
    append(&mut out, chars_of(PROMPT_DIFF).as_slice());
    append(&mut out, chars_of(diff_content).as_slice());
    append(&mut out, chars_of(PROMPT_FORMAT).as_slice());
    string_of(out.as_slice())
}

} // verus!
