//! Decoration: a glyph in front of a commit subject that shows its conventional type.

use crate::text::{
    append, ascii_lower, char_is_ascii_alphabetic, chars_of, copy_range, is_ascii_alphabetic,
    is_whitespace, lemma_leading_whitespace, lemma_line_end, line_end, lines_of, lowercased,
    same_text, starts_with, string_of, to_lowercase, trim_start, trimmed_start,
    without_carriage_return,
};
use vstd::prelude::*;

verus! {

// ---------------------------------------------------------------------------------------
// The table
// ---------------------------------------------------------------------------------------

/// One row of the table: a commit type in small letters, its glyph, and what the type
/// stands for.
pub type EmojiRow = (Seq<char>, Seq<char>, Seq<char>);

/// The conventional commit types and their glyphs, in the order in which they are tried.
pub open spec fn emoji_table() -> Seq<EmojiRow> {
    seq![
        ("feat"@, "✨"@, "New feature"@),
        ("fix"@, "🐛"@, "Bug fix"@),
        ("docs"@, "📚"@, "Documentation"@),
        ("style"@, "💄"@, "Code style/formatting"@),
        ("refactor"@, "♻️"@, "Code refactoring"@),
        ("test"@, "✅"@, "Tests"@),
        ("chore"@, "🔧"@, "Chores/maintenance"@),
        ("perf"@, "⚡"@, "Performance"@),
        ("ci"@, "👷"@, "CI/CD"@),
        ("build"@, "📦"@, "Build system"@),
        ("revert"@, "⏪"@, "Revert changes"@),
        ("wip"@, "🚧"@, "Work in progress"@),
        ("security"@, "🔒"@, "Security fix"@),
        ("deps"@, "📌"@, "Dependencies"@),
        ("release"@, "🚀"@, "Release"@),
    ]
}

/// The glyph of the first of `rows` whose commit type is `token`.
pub open spec fn glyph_in(rows: Seq<EmojiRow>, token: Seq<char>) -> Option<Seq<char>>
    decreases rows.len(),
{
    if rows.len() == 0 {
        None
    } else if rows[0].0 == token {
        Some(rows[0].1)
    } else {
        glyph_in(rows.drop_first(), token)
    }
}

/// The first glyph of `rows` that `text` begins with.
pub open spec fn leading_glyph(rows: Seq<EmojiRow>, text: Seq<char>) -> Option<Seq<char>>
    decreases rows.len(),
{
    if rows.len() == 0 {
        None
    } else if rows[0].1.is_prefix_of(text) {
        Some(rows[0].1)
    } else {
        leading_glyph(rows.drop_first(), text)
    }
}

/// The glyph of a commit type, whatever the case of its letters.
pub open spec fn glyph_of(commit_type: Seq<char>) -> Option<Seq<char>> {
    glyph_in(emoji_table(), lowercased(commit_type))
}

/// What the rows of an executable table hold.
pub open spec fn row_views(rows: Seq<(&'static str, &'static str, &'static str)>) -> Seq<
    EmojiRow,
> {
    Seq::new(rows.len(), |i: int| (rows[i].0@, rows[i].1@, rows[i].2@))
}

/// The table of commit types and glyphs.
pub fn emoji_map() -> (rows: Vec<(&'static str, &'static str, &'static str)>)
    ensures
        row_views(rows@) == emoji_table(),
{
    let mut rows: Vec<(&'static str, &'static str, &'static str)> = Vec::new();
    rows.push(("feat", "✨", "New feature"));
    rows.push(("fix", "🐛", "Bug fix"));
    rows.push(("docs", "📚", "Documentation"));
    rows.push(("style", "💄", "Code style/formatting"));
    rows.push(("refactor", "♻️", "Code refactoring"));
    rows.push(("test", "✅", "Tests"));
    rows.push(("chore", "🔧", "Chores/maintenance"));
    rows.push(("perf", "⚡", "Performance"));
    rows.push(("ci", "👷", "CI/CD"));
    rows.push(("build", "📦", "Build system"));
    rows.push(("revert", "⏪", "Revert changes"));
    rows.push(("wip", "🚧", "Work in progress"));
    rows.push(("security", "🔒", "Security fix"));
    rows.push(("deps", "📌", "Dependencies"));
    rows.push(("release", "🚀", "Release"));
    assert(row_views(rows@) =~= emoji_table());
    rows
}

// ---------------------------------------------------------------------------------------
// The commit type of a message
// ---------------------------------------------------------------------------------------

/// Whether `c` ends the commit type: the mark of a breaking change, the opening of a scope,
/// or the colon before the description.
pub open spec fn is_type_delimiter(c: char) -> bool {
    c == '!' || c == '(' || c == ':'
}

/// The index of the first character of `line` that ends the commit type, or the length of
/// `line` when none does.
pub open spec fn type_end(line: Seq<char>) -> nat
    decreases line.len(),
{
    if line.len() > 0 && !is_type_delimiter(line[0]) {
        1 + type_end(line.drop_first())
    } else {
        0
    }
}

/// The commit type of a message: what stands on its first line before the first `!`, `(` or
/// `:`, or the whole line when it holds none of them. A message without a first line, or
/// with nothing before that character, has no commit type.
pub open spec fn commit_type(message: Seq<char>) -> Option<Seq<char>> {
    let lines = lines_of(message);
    if lines.len() > 0 && type_end(lines[0]) > 0 {
        Some(lines[0].subrange(0, type_end(lines[0]) as int))
    } else {
        None
    }
}

/// `n` is where the commit type of `line` ends exactly when no character before index `n`
/// ends it and the character at index `n`, if any, does.
pub proof fn lemma_type_end(line: Seq<char>, n: int)
    requires
        0 <= n <= line.len(),
        forall|i: int| 0 <= i < n ==> !is_type_delimiter(#[trigger] line[i]),
        n < line.len() ==> is_type_delimiter(line[n]),
    ensures
        type_end(line) == n,
    decreases n,
{
    if n > 0 {
        let rest = line.drop_first();
        assert forall|i: int| 0 <= i < n - 1 implies !is_type_delimiter(#[trigger] rest[i]) by {
            assert(rest[i] == line[i + 1]);
        }
        lemma_type_end(rest, n - 1);
    }
}

/// The commit type of a message is a stretch of characters at its very beginning.
pub proof fn lemma_commit_type_leads(message: Seq<char>)
    ensures
        commit_type(message) matches Some(t) ==> t.len() > 0 && t.is_prefix_of(message),
{
    if commit_type(message) is Some {
        let lines = lines_of(message);
        let n = line_end(message) as int;
        crate::text::lemma_line_end_bounds(message);
        lemma_type_end_bounds(lines[0]);
        if n < message.len() {
            assert(lines[0] == without_carriage_return(message.subrange(0, n)));
        }
        let t = commit_type(message)->0;
        assert(t =~= message.subrange(0, t.len() as int));
    }
}

/// The commit type of a line ends within the line.
pub proof fn lemma_type_end_bounds(line: Seq<char>)
    ensures
        type_end(line) <= line.len(),
    decreases line.len(),
{
    if line.len() > 0 && !is_type_delimiter(line[0]) {
        lemma_type_end_bounds(line.drop_first());
    }
}

/// The length of the commit type of `v`, and 0 where it has none.
fn type_length(v: &[char]) -> (n: usize)
    ensures
        n <= v.len(),
        n > 0 ==> commit_type(v@) == Some(v@.subrange(0, n as int)),
        n == 0 ==> commit_type(v@) is None,
{
    if v.len() == 0 {
        return 0;
    }
    let mut end: usize = 0;
    while end < v.len() && v[end] != '\n'
        invariant
            end <= v.len(),
            forall|j: int| 0 <= j < end ==> #[trigger] v@[j] != '\n',
        decreases v.len() - end,
    {
        end += 1;
    }
    let stop: usize = if end < v.len() && end > 0 && v[end - 1] == '\r' {
        end - 1
    } else {
        end
    };
    let ghost line = v@.subrange(0, stop as int);
    proof {
        lemma_line_end(v@, end as int);
        if end < v.len() {
            assert(lines_of(v@)[0] == without_carriage_return(v@.subrange(0, end as int)));
        } else {
            assert(v@.subrange(0, v.len() as int) == v@);
        }
        assert(lines_of(v@)[0] == line);
    }
    let mut n: usize = 0;
    while n < stop && !(v[n] == '!' || v[n] == '(' || v[n] == ':')
        invariant
            n <= stop <= v.len(),
            line == v@.subrange(0, stop as int),
            forall|j: int| 0 <= j < n ==> !is_type_delimiter(#[trigger] line[j]),
        decreases stop - n,
    {
        n += 1;
    }
    proof {
        lemma_type_end(line, n as int);
        assert(line.subrange(0, n as int) == v@.subrange(0, n as int));
    }
    n
}

/// The glyph of `token` in the table, for a `token` in small letters.
fn glyph_for(token: &[char]) -> (glyph: Option<&'static str>)
    ensures
        match glyph {
            Some(g) => glyph_in(emoji_table(), token@) == Some(g@),
            None => glyph_in(emoji_table(), token@) is None,
        },
{
    let rows = emoji_map();
    let mut i: usize = 0;
    assert(emoji_table().subrange(0, emoji_table().len() as int) == emoji_table());
    while i < rows.len()
        invariant
            i <= rows.len(),
            row_views(rows@) == emoji_table(),
            glyph_in(emoji_table(), token@) == glyph_in(
                emoji_table().subrange(i as int, rows.len() as int),
                token@,
            ),
        decreases rows.len() - i,
    {
        let ghost rest = emoji_table().subrange(i as int, rows.len() as int);
        assert(rest[0] == row_views(rows@)[i as int]);
        assert(rest.drop_first() == emoji_table().subrange(i + 1, rows.len() as int));
        let name = chars_of(rows[i].0);
        if same_text(name.as_slice(), token) {
            return Some(rows[i].1);
        }
        i += 1;
    }
    None
}

/// The glyph for a commit type, whatever the case of its letters; `None` for a type that
/// the table does not hold.
pub fn get_emoji(commit_type: &str) -> (glyph: Option<&'static str>)
    ensures
        match glyph {
            Some(g) => glyph_of(commit_type@) == Some(g@),
            None => glyph_of(commit_type@) is None,
        },
{
    let name = chars_of(commit_type);
    let lower = to_lowercase(name.as_slice());
    glyph_for(lower.as_slice())
}

/// The commit type of a conventional commit message, as it is written; `None` where the
/// message has none.
pub fn extract_type(message: &str) -> (found: Option<&str>)
    ensures
        match found {
            Some(t) => commit_type(message@) == Some(t@),
            None => commit_type(message@) is None,
        },
{
    let chars = chars_of(message);
    let n = type_length(chars.as_slice());
    if n > 0 {
        Some(message.substring_char(0, n))
    } else {
        None
    }
}

// ---------------------------------------------------------------------------------------
// Decorating and stripping
// ---------------------------------------------------------------------------------------

/// Whether a message gets a glyph: its commit type is in the table and it begins with an
/// ASCII letter, which a message that already carries a glyph does not.
pub open spec fn takes_glyph(message: Seq<char>) -> bool {
    &&& commit_type(message) matches Some(t)
    &&& glyph_of(t) is Some
    &&& message.len() > 0
    &&& is_ascii_alphabetic(message[0])
}

/// The message with the glyph of its commit type and a space in front, where it takes one.
pub open spec fn decorated(message: Seq<char>) -> Seq<char> {
    if takes_glyph(message) {
        glyph_of(commit_type(message)->0)->0 + seq![' '] + message
    } else {
        message
    }
}

/// The message without the glyph that it begins with, and without the white space before
/// and after that glyph; the message itself where it begins with none.
pub open spec fn stripped(message: Seq<char>) -> Seq<char> {
    let text = trimmed_start(message);
    match leading_glyph(emoji_table(), text) {
        Some(glyph) => trimmed_start(text.subrange(glyph.len() as int, text.len() as int)),
        None => message,
    }
}

/// The message with the glyph of its commit type in front, as characters.
pub fn decorate(chars: &[char]) -> (out: Vec<char>)
    ensures
        out@ == decorated(chars@),
{
    let n = type_length(chars);
    if n > 0 {
        let token = copy_range(chars, 0, n);
        let lower = to_lowercase(token.as_slice());
        match glyph_for(lower.as_slice()) {
            Some(glyph) => {
                if char_is_ascii_alphabetic(chars[0]) {
                    let mut out = chars_of(glyph);
                    out.push(' ');
                    append(&mut out, chars);
                    assert(out@ == glyph@ + seq![' '] + chars@);
                    return out;
                }
            },
            None => {},
        }
    }
    let out = copy_range(chars, 0, chars.len());
    assert(chars@.subrange(0, chars.len() as int) == chars@);
    out
}

/// The message without the glyph in front of it, as characters.
pub fn strip(chars: &[char]) -> (out: Vec<char>)
    ensures
        out@ == stripped(chars@),
{
    let text = trim_start(chars);
    let rows = emoji_map();
    let mut i: usize = 0;
    assert(emoji_table().subrange(0, emoji_table().len() as int) == emoji_table());
    while i < rows.len()
        invariant
            i <= rows.len(),
            row_views(rows@) == emoji_table(),
            text@ == trimmed_start(chars@),
            leading_glyph(emoji_table(), text@) == leading_glyph(
                emoji_table().subrange(i as int, rows.len() as int),
                text@,
            ),
        decreases rows.len() - i,
    {
        let ghost rest = emoji_table().subrange(i as int, rows.len() as int);
        assert(rest[0] == row_views(rows@)[i as int]);
        assert(rest.drop_first() == emoji_table().subrange(i + 1, rows.len() as int));
        let glyph = chars_of(rows[i].1);
        if starts_with(text.as_slice(), glyph.as_slice()) {
            assert(leading_glyph(rest, text@) == Some(glyph@));
            let after = copy_range(text.as_slice(), glyph.len(), text.len());
            return trim_start(after.as_slice());
        }
        i += 1;
    }
    let out = copy_range(chars, 0, chars.len());
    assert(chars@.subrange(0, chars.len() as int) == chars@);
    out
}

/// Puts the glyph of its commit type in front of a commit message.
pub fn add_emoji_prefix(message: &str) -> (out: String)
    ensures
        out@ == decorated(message@),
{
    let chars = chars_of(message);
    let out = decorate(chars.as_slice());
    string_of(out.as_slice())
}

/// Takes the glyph off the front of a commit message.
pub fn remove_emoji_prefix(message: &str) -> (out: String)
    ensures
        out@ == stripped(message@),
{
    let chars = chars_of(message);
    let out = strip(chars.as_slice());
    string_of(out.as_slice())
}

// ---------------------------------------------------------------------------------------
// Laws of decoration
// ---------------------------------------------------------------------------------------

/// What the table holds: fifteen rows; every commit type begins with a small ASCII letter;
/// every glyph begins with a character that is neither white space nor an ASCII letter; and
/// no two glyphs begin with the same character.
pub proof fn lemma_emoji_table()
    ensures
        emoji_table().len() == 15,
        forall|i: int|
            0 <= i < 15 ==> {
                let row = #[trigger] emoji_table()[i];
                &&& row.0.len() > 0
                &&& 'a' <= row.0[0] <= 'z'
                &&& row.1.len() > 0
                &&& !is_whitespace(row.1[0])
                &&& !is_ascii_alphabetic(row.1[0])
            },
        forall|i: int, j: int|
            0 <= i < j < 15 ==> (#[trigger] emoji_table()[i]).1[0] != (#[trigger] emoji_table()[j]).1[0],
{
    reveal_strlit("feat");
    reveal_strlit("fix");
    reveal_strlit("docs");
    reveal_strlit("style");
    reveal_strlit("refactor");
    reveal_strlit("test");
    reveal_strlit("chore");
    reveal_strlit("perf");
    reveal_strlit("ci");
    reveal_strlit("build");
    reveal_strlit("revert");
    reveal_strlit("wip");
    reveal_strlit("security");
    reveal_strlit("deps");
    reveal_strlit("release");
    reveal_strlit("✨");
    reveal_strlit("🐛");
    reveal_strlit("📚");
    reveal_strlit("💄");
    reveal_strlit("♻️");
    reveal_strlit("✅");
    reveal_strlit("🔧");
    reveal_strlit("⚡");
    reveal_strlit("👷");
    reveal_strlit("📦");
    reveal_strlit("⏪");
    reveal_strlit("🚧");
    reveal_strlit("🔒");
    reveal_strlit("📌");
    reveal_strlit("🚀");
}

/// A commit type that has a glyph stands in a row of the table, with that glyph.
proof fn lemma_glyph_row(rows: Seq<EmojiRow>, token: Seq<char>) -> (i: int)
    requires
        glyph_in(rows, token) is Some,
    ensures
        0 <= i < rows.len(),
        rows[i].0 == token,
        glyph_in(rows, token) == Some(rows[i].1),
    decreases rows.len(),
{
    if rows[0].0 == token {
        0
    } else {
        let i = lemma_glyph_row(rows.drop_first(), token);
        assert(rows.drop_first()[i] == rows[i + 1]);
        i + 1
    }
}

/// The glyph of row `i` is the leading glyph of a text that begins with it and with the
/// glyph of no earlier row.
proof fn lemma_leading_glyph(rows: Seq<EmojiRow>, text: Seq<char>, i: int)
    requires
        0 <= i < rows.len(),
        rows[i].1.is_prefix_of(text),
        forall|j: int| 0 <= j < i ==> !(#[trigger] rows[j]).1.is_prefix_of(text),
    ensures
        leading_glyph(rows, text) == Some(rows[i].1),
    decreases i,
{
    if i > 0 {
        let rest = rows.drop_first();
        assert(rest[i - 1] == rows[i]);
        assert forall|j: int| 0 <= j < i - 1 implies !(#[trigger] rest[j]).1.is_prefix_of(
            text,
        ) by {
            assert(rest[j] == rows[j + 1]);
        }
        assert(!rows[0].1.is_prefix_of(text));
        lemma_leading_glyph(rest, text, i - 1);
    }
}

/// Decorating twice is decorating once: a decorated message begins with a glyph, and so
/// takes no other.
pub proof fn law_decorate_idempotent(message: Seq<char>)
    ensures
        decorated(decorated(message)) == decorated(message),
{
    if takes_glyph(message) {
        let token = lowercased(commit_type(message)->0);
        let i = lemma_glyph_row(emoji_table(), token);
        lemma_emoji_table();
        let glyph = emoji_table()[i].1;
        let once = decorated(message);
        assert(once[0] == glyph[0]);
        assert(!takes_glyph(once));
    }
}

/// Stripping a decorated message gives the message back, for every message whose commit
/// type the table holds.
pub proof fn law_strip_decorated(message: Seq<char>)
    requires
        commit_type(message) matches Some(t) && glyph_of(t) is Some,
    ensures
        stripped(decorated(message)) == message,
{
    let t = commit_type(message)->0;
    let token = lowercased(t);
    lemma_commit_type_leads(message);
    assert(message[0] == message.subrange(0, t.len() as int)[0]);
    let i = lemma_glyph_row(emoji_table(), token);
    lemma_emoji_table();
    let glyph = emoji_table()[i].1;
    assert(token[0] == ascii_lower(t[0]));
    assert(is_ascii_alphabetic(message[0]));
    assert(takes_glyph(message));
    let once = decorated(message);
    assert(once == glyph + seq![' '] + message);
    assert(once[0] == glyph[0]);
    lemma_leading_whitespace(once, 0);
    assert(trimmed_start(once) == once);
    assert(glyph.is_prefix_of(once)) by {
        assert(once.subrange(0, glyph.len() as int) == glyph);
    }
    assert forall|j: int| 0 <= j < i implies !(#[trigger] emoji_table()[j]).1.is_prefix_of(
        once,
    ) by {
        let other = emoji_table()[j].1;
        if other.is_prefix_of(once) {
            assert(once.subrange(0, other.len() as int)[0] == other[0]);
        }
    }
    lemma_leading_glyph(emoji_table(), once, i);
    let rest = once.subrange(glyph.len() as int, once.len() as int);
    assert(rest == seq![' '] + message);
    assert(rest[0] == ' ');
    assert(rest[1] == message[0]);
    lemma_leading_whitespace(rest, 1);
    assert(trimmed_start(rest) == message);
}

} // verus!
