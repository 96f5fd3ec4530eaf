//! Text as sequences of characters.
//!
//! Every contract in this crate speaks of text as `Seq<char>`, the view of `str`, `String`
//! and `Vec<char>`. This module holds the vocabulary those contracts use (whitespace,
//! trimming, lines, joining, ASCII case folding) and the executable functions that compute
//! each notion on `Vec<char>`.

use vstd::prelude::*;

verus! {

// ---------------------------------------------------------------------------------------
// Characters
// ---------------------------------------------------------------------------------------

/// Whether `c` is white space: the code points that Unicode gives the `White_Space`
/// property.
pub open spec fn is_whitespace(c: char) -> bool {
    let n = c as u32;
    ||| 0x09 <= n <= 0x0D
    ||| n == 0x20
    ||| n == 0x85
    ||| n == 0xA0
    ||| n == 0x1680
    ||| 0x2000 <= n <= 0x200A
    ||| n == 0x2028
    ||| n == 0x2029
    ||| n == 0x202F
    ||| n == 0x205F
    ||| n == 0x3000
}

/// Whether `c` is one of the 52 ASCII letters.
pub open spec fn is_ascii_alphabetic(c: char) -> bool {
    'a' <= c <= 'z' || 'A' <= c <= 'Z'
}

/// Whether `c` is one of the ten ASCII digits.
pub open spec fn is_ascii_digit(c: char) -> bool {
    '0' <= c <= '9'
}

/// `c` with an ASCII capital letter replaced by its small letter.
pub open spec fn ascii_lower(c: char) -> char {
    if 'A' <= c <= 'Z' {
        ((c as u8) + 32) as char
    } else {
        c
    }
}

/// `s` with every ASCII capital letter replaced by its small letter.
pub open spec fn lowercased(s: Seq<char>) -> Seq<char> {
    Seq::new(s.len(), |i: int| ascii_lower(s[i]))
}

/// Whether `c` is white space.
pub fn char_is_whitespace(c: char) -> (r: bool)
    ensures
        r == is_whitespace(c),
{
    let n: u32 = c as u32;
    (0x09 <= n && n <= 0x0D) || n == 0x20 || n == 0x85 || n == 0xA0 || n == 0x1680 || (0x2000 <= n
        && n <= 0x200A) || n == 0x2028 || n == 0x2029 || n == 0x202F || n == 0x205F || n == 0x3000
}

/// Whether `c` is an ASCII letter.
pub fn char_is_ascii_alphabetic(c: char) -> (r: bool)
    ensures
        r == is_ascii_alphabetic(c),
{
    ('a' <= c && c <= 'z') || ('A' <= c && c <= 'Z')
}

/// `c`, or its small letter where `c` is an ASCII capital letter.
pub fn char_ascii_lower(c: char) -> (r: char)
    ensures
        r == ascii_lower(c),
{
    if 'A' <= c && c <= 'Z' {
        let b: u8 = c as u8;
        (b + 32) as char
    } else {
        c
    }
}

// ---------------------------------------------------------------------------------------
// Trimming
// ---------------------------------------------------------------------------------------

/// How many characters of white space `s` begins with.
pub open spec fn leading_whitespace(s: Seq<char>) -> nat
    decreases s.len(),
{
    if s.len() > 0 && is_whitespace(s[0]) {
        1 + leading_whitespace(s.drop_first())
    } else {
        0
    }
}

/// How many characters of white space `s` ends with.
pub open spec fn trailing_whitespace(s: Seq<char>) -> nat
    decreases s.len(),
{
    if s.len() > 0 && is_whitespace(s.last()) {
        1 + trailing_whitespace(s.drop_last())
    } else {
        0
    }
}

/// `s` without the white space it begins with.
pub open spec fn trimmed_start(s: Seq<char>) -> Seq<char> {
    s.subrange(leading_whitespace(s) as int, s.len() as int)
}

/// `s` without the white space it ends with.
pub open spec fn trimmed_end(s: Seq<char>) -> Seq<char> {
    s.subrange(0, s.len() - trailing_whitespace(s))
}

/// `s` without the white space at either end.
pub open spec fn trimmed(s: Seq<char>) -> Seq<char> {
    trimmed_end(trimmed_start(s))
}

/// Whether `s` holds nothing but white space.
pub open spec fn is_blank(s: Seq<char>) -> bool {
    forall|i: int| 0 <= i < s.len() ==> is_whitespace(#[trigger] s[i])
}

/// The leading white space of `s` is its longest prefix of white space: `n` is its length
/// exactly when the first `n` characters are white space and the next one, if any, is not.
pub proof fn lemma_leading_whitespace(s: Seq<char>, n: int)
    requires
        0 <= n <= s.len(),
        forall|i: int| 0 <= i < n ==> is_whitespace(#[trigger] s[i]),
        n < s.len() ==> !is_whitespace(s[n]),
    ensures
        leading_whitespace(s) == n,
    decreases n,
{
    if n > 0 {
        let rest = s.drop_first();
        assert forall|i: int| 0 <= i < n - 1 implies is_whitespace(#[trigger] rest[i]) by {
            assert(rest[i] == s[i + 1]);
        }
        lemma_leading_whitespace(rest, n - 1);
    }
}

/// The trailing white space of `s` is its longest suffix of white space.
pub proof fn lemma_trailing_whitespace(s: Seq<char>, n: int)
    requires
        0 <= n <= s.len(),
        forall|i: int| s.len() - n <= i < s.len() ==> is_whitespace(#[trigger] s[i]),
        n < s.len() ==> !is_whitespace(s[s.len() - n - 1]),
    ensures
        trailing_whitespace(s) == n,
    decreases n,
{
    if n > 0 {
        let rest = s.drop_last();
        assert forall|i: int| rest.len() - (n - 1) <= i < rest.len() implies is_whitespace(
            #[trigger] rest[i],
        ) by {
            assert(rest[i] == s[i]);
        }
        lemma_trailing_whitespace(rest, n - 1);
    }
}

/// The leading white space of `s` is white space, lies within `s`, and is followed by a
/// character that is none.
pub proof fn lemma_leading_whitespace_bounds(s: Seq<char>)
    ensures
        leading_whitespace(s) <= s.len(),
        forall|i: int| 0 <= i < leading_whitespace(s) ==> is_whitespace(#[trigger] s[i]),
        leading_whitespace(s) < s.len() ==> !is_whitespace(s[leading_whitespace(s) as int]),
    decreases s.len(),
{
    if s.len() > 0 && is_whitespace(s[0]) {
        let rest = s.drop_first();
        lemma_leading_whitespace_bounds(rest);
        assert forall|i: int| 0 <= i < leading_whitespace(s) implies is_whitespace(
            #[trigger] s[i],
        ) by {
            if i > 0 {
                assert(s[i] == rest[i - 1]);
            }
        }
        if leading_whitespace(s) < s.len() {
            assert(s[leading_whitespace(s) as int] == rest[leading_whitespace(rest) as int]);
        }
    }
}

/// The trailing white space of `s` is white space, lies within `s`, and is preceded by a
/// character that is none.
pub proof fn lemma_trailing_whitespace_bounds(s: Seq<char>)
    ensures
        trailing_whitespace(s) <= s.len(),
        forall|i: int|
            s.len() - trailing_whitespace(s) <= i < s.len() ==> is_whitespace(#[trigger] s[i]),
        trailing_whitespace(s) < s.len() ==> !is_whitespace(
            s[s.len() - trailing_whitespace(s) - 1],
        ),
    decreases s.len(),
{
    if s.len() > 0 && is_whitespace(s.last()) {
        let rest = s.drop_last();
        lemma_trailing_whitespace_bounds(rest);
        assert forall|i: int|
            s.len() - trailing_whitespace(s) <= i < s.len() implies is_whitespace(
            #[trigger] s[i],
        ) by {
            if i < s.len() - 1 {
                assert(s[i] == rest[i]);
            }
        }
        if trailing_whitespace(s) < s.len() {
            assert(s[s.len() - trailing_whitespace(s) - 1] == rest[rest.len()
                - trailing_whitespace(rest) - 1]);
        }
    }
}

/// What trimming leaves: nothing when `s` is blank, and otherwise a text that neither begins
/// nor ends with white space.
pub proof fn lemma_trimmed(s: Seq<char>)
    ensures
        trimmed(s).len() == 0 <==> is_blank(s),
        trimmed(s).len() > 0 ==> !is_whitespace(trimmed(s)[0]) && !is_whitespace(
            trimmed(s).last(),
        ),
        trimmed(s).len() <= s.len(),
{
    lemma_leading_whitespace_bounds(s);
    let t = trimmed_start(s);
    lemma_trailing_whitespace_bounds(t);
    let a = leading_whitespace(s) as int;
    if a == s.len() {
        assert(is_blank(s));
    } else {
        assert(t[0] == s[a]);
        assert(!is_blank(s));
        if trailing_whitespace(t) == t.len() {
            assert(is_whitespace(t[0]));
        }
        assert(trimmed(s).len() > 0);
        assert(trimmed(s)[0] == t[0]);
        assert(trimmed(s).last() == t[t.len() - trailing_whitespace(t) - 1]);
    }
}

// ---------------------------------------------------------------------------------------
// Copying
// ---------------------------------------------------------------------------------------

/// Appends one character to a string.
///
/// Wraps `String::push`: the string afterwards is the string before with `c` at its end.
#[verifier::external_body]
pub(crate) fn push_char(s: &mut String, c: char)
    ensures
        final(s)@ == old(s)@.push(c),
{
    s.push(c)
}

/// The characters of `s`, in order.
pub fn chars_of(s: &str) -> (out: Vec<char>)
    ensures
        out@ == s@,
{
    let mut out: Vec<char> = Vec::new();
    for c in it: s.chars()
        invariant
            out@ == it.seq().subrange(0, it.index() as int),
            it.seq() == s@,
    {
        out.push(c);
    }
    out
}

/// The string made of the characters of `v`, in order.
pub fn string_of(v: &[char]) -> (out: String)
    ensures
        out@ == v@,
{
    let mut out = String::new();
    let mut i: usize = 0;
    while i < v.len()
        invariant
            i <= v.len(),
            out@ == v@.subrange(0, i as int),
        decreases v.len() - i,
    {
        push_char(&mut out, v[i]);
        i += 1;
    }
    assert(v@.subrange(0, v.len() as int) == v@);
    out
}

/// The characters of `v` from index `from` up to, not including, index `to`.
pub fn copy_range(v: &[char], from: usize, to: usize) -> (out: Vec<char>)
    requires
        from <= to <= v.len(),
    ensures
        out@ == v@.subrange(from as int, to as int),
{
    let mut out: Vec<char> = Vec::new();
    let mut i: usize = from;
    while i < to
        invariant
            from <= i <= to <= v.len(),
            out@ == v@.subrange(from as int, i as int),
        decreases to - i,
    {
        out.push(v[i]);
        i += 1;
    }
    out
}

/// Appends the characters of `src` to `dst`.
pub fn append(dst: &mut Vec<char>, src: &[char])
    ensures
        final(dst)@ == old(dst)@ + src@,
{
    let mut i: usize = 0;
    while i < src.len()
        invariant
            i <= src.len(),
            dst@ == old(dst)@ + src@.subrange(0, i as int),
        decreases src.len() - i,
    {
        dst.push(src[i]);
        i += 1;
    }
    assert(src@.subrange(0, src.len() as int) == src@);
}

/// Whether `a` and `b` hold the same characters.
pub fn same_text(a: &[char], b: &[char]) -> (r: bool)
    ensures
        r == (a@ == b@),
{
    if a.len() != b.len() {
        return false;
    }
    let mut i: usize = 0;
    while i < a.len()
        invariant
            i <= a.len(),
            a.len() == b.len(),
            a@.subrange(0, i as int) == b@.subrange(0, i as int),
        decreases a.len() - i,
    {
        if a[i] != b[i] {
            return false;
        }
        assert(a@.subrange(0, i + 1) == a@.subrange(0, i as int).push(a@[i as int]));
        assert(b@.subrange(0, i + 1) == b@.subrange(0, i as int).push(b@[i as int]));
        i += 1;
    }
    assert(a@.subrange(0, a.len() as int) == a@);
    assert(b@.subrange(0, b.len() as int) == b@);
    true
}

/// Whether `v` begins with `prefix`.
pub fn starts_with(v: &[char], prefix: &[char]) -> (r: bool)
    ensures
        r == prefix@.is_prefix_of(v@),
{
    if prefix.len() > v.len() {
        return false;
    }
    let mut i: usize = 0;
    while i < prefix.len()
        invariant
            i <= prefix.len() <= v.len(),
            forall|j: int| 0 <= j < i ==> v@[j] == prefix@[j],
        decreases prefix.len() - i,
    {
        if v[i] != prefix[i] {
            return false;
        }
        i += 1;
    }
    assert(prefix@ == v@.subrange(0, prefix@.len() as int));
    true
}

/// `v` with every ASCII capital letter replaced by its small letter.
pub fn to_lowercase(v: &[char]) -> (out: Vec<char>)
    ensures
        out@ == lowercased(v@),
{
    let mut out: Vec<char> = Vec::new();
    let mut i: usize = 0;
    while i < v.len()
        invariant
            i <= v.len(),
            out@ == lowercased(v@).subrange(0, i as int),
        decreases v.len() - i,
    {
        out.push(char_ascii_lower(v[i]));
        i += 1;
    }
    assert(lowercased(v@).subrange(0, v.len() as int) == lowercased(v@));
    out
}

/// How many characters of white space `v` begins with.
pub fn count_leading_whitespace(v: &[char]) -> (n: usize)
    ensures
        n == leading_whitespace(v@),
        n <= v.len(),
{
    let mut n: usize = 0;
    while n < v.len() && char_is_whitespace(v[n])
        invariant
            n <= v.len(),
            forall|i: int| 0 <= i < n ==> is_whitespace(#[trigger] v@[i]),
        decreases v.len() - n,
    {
        n += 1;
    }
    proof {
        lemma_leading_whitespace(v@, n as int);
    }
    n
}

/// How many characters of white space `v` ends with.
pub fn count_trailing_whitespace(v: &[char]) -> (n: usize)
    ensures
        n == trailing_whitespace(v@),
        n <= v.len(),
{
    let mut n: usize = 0;
    while n < v.len() && char_is_whitespace(v[v.len() - n - 1])
        invariant
            n <= v.len(),
            forall|i: int| v.len() - n <= i < v.len() ==> is_whitespace(#[trigger] v@[i]),
        decreases v.len() - n,
    {
        n += 1;
    }
    proof {
        lemma_trailing_whitespace(v@, n as int);
    }
    n
}

/// `v` without the white space it begins with.
pub fn trim_start(v: &[char]) -> (out: Vec<char>)
    ensures
        out@ == trimmed_start(v@),
{
    let a = count_leading_whitespace(v);
    copy_range(v, a, v.len())
}

/// `v` without the white space at either end.
pub fn trim(v: &[char]) -> (out: Vec<char>)
    ensures
        out@ == trimmed(v@),
{
    let start = trim_start(v);
    let b = count_trailing_whitespace(start.as_slice());
    copy_range(start.as_slice(), 0, start.len() - b)
}

/// Whether `v` holds nothing but white space.
pub fn blank(v: &[char]) -> (r: bool)
    ensures
        r == is_blank(v@),
{
    let a = count_leading_whitespace(v);
    proof {
        lemma_leading_whitespace_bounds(v@);
    }
    a == v.len()
}

// ---------------------------------------------------------------------------------------
// Lines
// ---------------------------------------------------------------------------------------

/// The index of the first line feed in `s`, or the length of `s` when it holds none.
pub open spec fn line_end(s: Seq<char>) -> nat
    decreases s.len(),
{
    if s.len() > 0 && s[0] != '\n' {
        1 + line_end(s.drop_first())
    } else {
        0
    }
}

/// `s` without the carriage return that it ends with, if it ends with one.
pub open spec fn without_carriage_return(s: Seq<char>) -> Seq<char> {
    if s.len() > 0 && s.last() == '\r' {
        s.drop_last()
    } else {
        s
    }
}

/// The lines of `s`. A line ends at a line feed, or at a carriage return directly followed
/// by one; neither belongs to the line. What follows the last line feed is a line of its own
/// unless it is empty, and keeps a carriage return at its end.
pub open spec fn lines_of(s: Seq<char>) -> Seq<Seq<char>>
    decreases s.len(),
{
    let n = line_end(s) as int;
    if s.len() == 0 {
        Seq::empty()
    } else if n >= s.len() {
        seq![s]
    } else {
        seq![without_carriage_return(s.subrange(0, n))] + lines_of(
            s.subrange(n + 1, s.len() as int),
        )
    }
}

/// The texts of `parts` with `sep` between each two neighbours.
pub open spec fn joined(parts: Seq<Seq<char>>, sep: Seq<char>) -> Seq<char>
    decreases parts.len(),
{
    if parts.len() == 0 {
        Seq::empty()
    } else if parts.len() == 1 {
        parts[0]
    } else {
        joined(parts.drop_last(), sep) + sep + parts.last()
    }
}

/// The views of the texts in `parts`.
pub open spec fn views(parts: Seq<Vec<char>>) -> Seq<Seq<char>> {
    Seq::new(parts.len(), |i: int| parts[i]@)
}

/// `n` is where the first line of `s` ends exactly when no character before index `n` is a
/// line feed and the character at index `n`, if any, is one.
pub proof fn lemma_line_end(s: Seq<char>, n: int)
    requires
        0 <= n <= s.len(),
        forall|i: int| 0 <= i < n ==> #[trigger] s[i] != '\n',
        n < s.len() ==> s[n] == '\n',
    ensures
        line_end(s) == n,
    decreases n,
{
    if n > 0 {
        let rest = s.drop_first();
        assert forall|i: int| 0 <= i < n - 1 implies #[trigger] rest[i] != '\n' by {
            assert(rest[i] == s[i + 1]);
        }
        lemma_line_end(rest, n - 1);
    }
}

/// The first line of `s` ends within `s`, at its first line feed.
pub proof fn lemma_line_end_bounds(s: Seq<char>)
    ensures
        line_end(s) <= s.len(),
        forall|i: int| 0 <= i < line_end(s) ==> #[trigger] s[i] != '\n',
        line_end(s) < s.len() ==> s[line_end(s) as int] == '\n',
    decreases s.len(),
{
    if s.len() > 0 && s[0] != '\n' {
        let rest = s.drop_first();
        lemma_line_end_bounds(rest);
        assert forall|i: int| 0 <= i < line_end(s) implies #[trigger] s[i] != '\n' by {
            if i > 0 {
                assert(s[i] == rest[i - 1]);
            }
        }
        if line_end(s) < s.len() {
            assert(s[line_end(s) as int] == rest[line_end(rest) as int]);
        }
    }
}

/// Joining one more part puts the separator before it, unless it is the first.
pub proof fn lemma_joined_push(parts: Seq<Seq<char>>, sep: Seq<char>, last: Seq<char>)
    ensures
        joined(parts.push(last), sep) == if parts.len() == 0 {
            last
        } else {
            joined(parts, sep) + sep + last
        },
{
    assert(parts.push(last).drop_last() == parts);
}

/// The lines of `v`.
pub fn split_lines(v: &[char]) -> (out: Vec<Vec<char>>)
    ensures
        views(out@) == lines_of(v@),
{
    let mut out: Vec<Vec<char>> = Vec::new();
    let mut pos: usize = 0;
    assert(views(out@) == Seq::<Seq<char>>::empty());
    assert(v@.subrange(0, v.len() as int) == v@);
    while pos < v.len()
        invariant
            pos <= v.len(),
            lines_of(v@) == views(out@) + lines_of(v@.subrange(pos as int, v.len() as int)),
        decreases v.len() - pos,
    {
        let ghost rest = v@.subrange(pos as int, v.len() as int);
        let ghost before = views(out@);
        let mut end: usize = pos;
        while end < v.len() && v[end] != '\n'
            invariant
                pos <= end <= v.len(),
                forall|j: int| pos <= j < end ==> #[trigger] v@[j] != '\n',
            decreases v.len() - end,
        {
            end += 1;
        }
        proof {
            assert forall|i: int| 0 <= i < end - pos implies #[trigger] rest[i] != '\n' by {
                assert(rest[i] == v@[pos + i]);
            }
            lemma_line_end(rest, end - pos);
        }
        if end == v.len() {
            let line = copy_range(v, pos, end);
            out.push(line);
            pos = end;
            proof {
                assert(line@ == rest);
                assert(views(out@) == before + seq![rest]);
                assert(lines_of(v@.subrange(pos as int, v.len() as int)) == Seq::<
                    Seq<char>,
                >::empty());
            }
        } else {
            let stop: usize = if end > pos && v[end - 1] == '\r' {
                end - 1
            } else {
                end
            };
            let line = copy_range(v, pos, stop);
            out.push(line);
            proof {
                let head = rest.subrange(0, end - pos);
                assert(head == v@.subrange(pos as int, end as int));
                assert(line@ == without_carriage_return(head));
                assert(views(out@) == before + seq![line@]);
                assert(rest.subrange(end - pos + 1, rest.len() as int) == v@.subrange(
                    end + 1,
                    v.len() as int,
                ));
            }
            pos = end + 1;
        }
    }
    assert(lines_of(v@.subrange(pos as int, v.len() as int)) == Seq::<Seq<char>>::empty());
    out
}

/// The texts of `parts` with `sep` between each two neighbours.
pub fn join(parts: &Vec<Vec<char>>, sep: &[char]) -> (out: Vec<char>)
    ensures
        out@ == joined(views(parts@), sep@),
{
    let mut out: Vec<char> = Vec::new();
    let mut i: usize = 0;
    while i < parts.len()
        invariant
            i <= parts.len(),
            out@ == joined(views(parts@).subrange(0, i as int), sep@),
        decreases parts.len() - i,
    {
        let ghost done = views(parts@).subrange(0, i as int);
        if i > 0 {
            append(&mut out, sep);
        }
        append(&mut out, parts[i].as_slice());
        proof {
            lemma_joined_push(done, sep@, parts[i as int]@);
            assert(views(parts@).subrange(0, i + 1) == done.push(parts[i as int]@));
        }
        i += 1;
    }
    assert(views(parts@).subrange(0, parts.len() as int) == views(parts@));
    out
}

// ---------------------------------------------------------------------------------------
// Numbers
// ---------------------------------------------------------------------------------------

/// The decimal digit that stands for `d`, for `d` below ten.
pub open spec fn digit_char(d: nat) -> char {
    ((d + 48) as u8) as char
}

/// `n` written in decimal, without leading zeros.
pub open spec fn decimal(n: nat) -> Seq<char>
    decreases n,
{
    if n < 10 {
        seq![digit_char(n)]
    } else {
        decimal(n / 10).push(digit_char(n % 10))
    }
}

/// `n` written in decimal, without leading zeros.
pub fn to_decimal(n: u64) -> (out: Vec<char>)
    ensures
        out@ == decimal(n as nat),
{
    let mut reversed: Vec<char> = Vec::new();
    let mut rest: u64 = n;
    while rest >= 10
        invariant
            decimal(n as nat) == decimal(rest as nat) + reversed@.reverse(),
        decreases rest,
    {
        let d: u8 = (rest % 10) as u8;
        let ghost prev = reversed@;
        reversed.push((d + 48) as char);
        proof {
            assert(reversed@.reverse() == seq![digit_char((rest % 10) as nat)] + prev.reverse());
            assert(decimal(rest as nat) == decimal((rest / 10) as nat).push(
                digit_char((rest % 10) as nat),
            ));
            assert(decimal(rest as nat) + prev.reverse() == decimal((rest / 10) as nat)
                + reversed@.reverse());
        }
        rest = rest / 10;
    }
    let mut out: Vec<char> = Vec::new();
    out.push(((rest as u8) + 48) as char);
    let mut i: usize = reversed.len();
    while i > 0
        invariant
            i <= reversed.len(),
            out@ == decimal(rest as nat) + reversed@.reverse().subrange(
                0,
                reversed.len() - i,
            ),
        decreases i,
    {
        i -= 1;
        out.push(reversed[i]);
        proof {
            let r = reversed@.reverse();
            assert(r[reversed.len() - i - 1] == reversed@[i as int]);
            assert(r.subrange(0, reversed.len() - i) == r.subrange(0, reversed.len() - i - 1).push(
                reversed@[i as int],
            ));
        }
    }
    assert(reversed@.reverse().subrange(0, reversed.len() as int) == reversed@.reverse());
    out
}

// ---------------------------------------------------------------------------------------
// Facts about lines and trimming
// ---------------------------------------------------------------------------------------

/// Whether `s` holds no line feed.
pub open spec fn single_line(s: Seq<char>) -> bool {
    forall|i: int| 0 <= i < s.len() ==> #[trigger] s[i] != '\n'
}

/// Trimming keeps a stretch of the text: the characters after the leading white space.
pub proof fn lemma_trimmed_within(s: Seq<char>)
    ensures
        leading_whitespace(s) + trimmed(s).len() <= s.len(),
        forall|i: int|
            0 <= i < trimmed(s).len() ==> #[trigger] trimmed(s)[i] == s[leading_whitespace(s) + i],
{
    lemma_leading_whitespace_bounds(s);
    lemma_trailing_whitespace_bounds(trimmed_start(s));
}

/// Trimming a single line leaves a single line.
pub proof fn lemma_trimmed_single_line(s: Seq<char>)
    requires
        single_line(s),
    ensures
        single_line(trimmed(s)),
{
    lemma_trimmed_within(s);
}

/// Only the empty text has no lines.
pub proof fn lemma_lines_empty(s: Seq<char>)
    ensures
        lines_of(s).len() == 0 <==> s.len() == 0,
{
}

/// No line holds a line feed.
pub proof fn lemma_lines_single(s: Seq<char>)
    ensures
        forall|k: int| 0 <= k < lines_of(s).len() ==> single_line(#[trigger] lines_of(s)[k]),
    decreases s.len(),
{
    lemma_line_end_bounds(s);
    let n = line_end(s) as int;
    if s.len() == 0 {
    } else if n >= s.len() {
    } else {
        let head = without_carriage_return(s.subrange(0, n));
        let rest = s.subrange(n + 1, s.len() as int);
        lemma_lines_single(rest);
        assert forall|k: int| 0 <= k < lines_of(s).len() implies single_line(
            #[trigger] lines_of(s)[k],
        ) by {
            if k == 0 {
                assert(lines_of(s)[0] == head);
                assert forall|i: int| 0 <= i < head.len() implies #[trigger] head[i] != '\n' by {
                    assert(head[i] == s[i]);
                }
            } else {
                assert(lines_of(s)[k] == lines_of(rest)[k - 1]);
            }
        }
    }
}

/// A text that begins with a character that is not white space has a first line that begins
/// with that character.
pub proof fn lemma_first_line(s: Seq<char>)
    requires
        s.len() > 0,
        !is_whitespace(s[0]),
    ensures
        lines_of(s).len() > 0,
        lines_of(s)[0].len() > 0,
        lines_of(s)[0][0] == s[0],
{
    lemma_line_end_bounds(s);
    let n = line_end(s) as int;
    if n < s.len() {
        let head = s.subrange(0, n);
        assert(n > 0);
        assert(head[0] == s[0]);
        assert(lines_of(s)[0] == without_carriage_return(head));
    }
}

// ---------------------------------------------------------------------------------------
// Reading numbers
// ---------------------------------------------------------------------------------------

/// Whether `s` holds nothing but ASCII digits.
pub open spec fn all_digits(s: Seq<char>) -> bool {
    forall|i: int| 0 <= i < s.len() ==> is_ascii_digit(#[trigger] s[i])
}

/// The number that the decimal digits `s` stand for.
pub open spec fn digits_value(s: Seq<char>) -> nat
    decreases s.len(),
{
    if s.len() == 0 {
        0
    } else {
        digits_value(s.drop_last()) * 10 + ((s.last() as u32 - '0' as u32) as nat)
    }
}

/// The number written in `s`, where `s` is one or more decimal digits, after a plus sign or
/// none, that stand for a number of at most `max`; `None` for any other text.
pub open spec fn number_in(s: Seq<char>, max: nat) -> Option<nat> {
    let digits = if s.len() > 0 && s[0] == '+' {
        s.drop_first()
    } else {
        s
    };
    if digits.len() > 0 && all_digits(digits) && digits_value(digits) <= max {
        Some(digits_value(digits))
    } else {
        None
    }
}

/// The digits at the beginning of a number stand for no more than the whole does.
pub proof fn lemma_digits_value_grows(s: Seq<char>, n: int)
    requires
        0 <= n <= s.len(),
        all_digits(s),
    ensures
        digits_value(s.subrange(0, n)) <= digits_value(s),
    decreases s.len() - n,
{
    if n < s.len() {
        let front = s.drop_last();
        assert(s.subrange(0, s.len() as int) == s);
        if n == s.len() - 1 {
            assert(front == s.subrange(0, n));
        } else {
            assert(front.subrange(0, n) == s.subrange(0, n));
            assert forall|i: int| 0 <= i < front.len() implies is_ascii_digit(
                #[trigger] front[i],
            ) by {
                assert(front[i] == s[i]);
            }
            lemma_digits_value_grows(front, n);
        }
    } else {
        assert(s.subrange(0, n) == s);
    }
}

/// The number written in `v`, if it is one of at most `max`.
pub fn parse_number(v: &[char], max: u64) -> (out: Option<u64>)
    ensures
        match out {
            Some(n) => number_in(v@, max as nat) == Some(n as nat),
            None => number_in(v@, max as nat) is None,
        },
{
    let start: usize = if v.len() > 0 && v[0] == '+' {
        1
    } else {
        0
    };
    let ghost digits = v@.subrange(start as int, v.len() as int);
    assert(digits == if v@.len() > 0 && v@[0] == '+' {
        v@.drop_first()
    } else {
        v@
    });
    if start == v.len() {
        return None;
    }
    let mut value: u64 = 0;
    let mut i: usize = start;
    assert(digits.subrange(0, 0) == Seq::<char>::empty());
    while i < v.len()
        invariant
            start <= i <= v.len(),
            digits == v@.subrange(start as int, v.len() as int),
            digits == if v@.len() > 0 && v@[0] == '+' {
                v@.drop_first()
            } else {
                v@
            },
            all_digits(digits.subrange(0, i - start)),
            value == digits_value(digits.subrange(0, i - start)),
            value <= max,
        decreases v.len() - i,
    {
        let c = v[i];
        let ghost upto = digits.subrange(0, i - start + 1);
        proof {
            assert(upto.drop_last() == digits.subrange(0, i - start));
            assert(upto.last() == c);
        }
        if !('0' <= c && c <= '9') {
            assert(!is_ascii_digit(digits[i - start]));
            return None;
        }
        let d: u64 = (c as u32 - '0' as u32) as u64;
        if d > max || value > (max - d) / 10 {
            proof {
                if all_digits(digits) {
                    lemma_digits_value_grows(digits, i - start + 1);
                }
            }
            return None;
        }
        value = value * 10 + d;
        i += 1;
    }
    assert(digits.subrange(0, digits.len() as int) == digits);
    Some(value)
}

} // verus!
