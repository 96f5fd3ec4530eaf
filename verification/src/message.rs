//! The commit message: a subject line and an optional body, read from the text that a
//! generation backend answered with.

use crate::text::{
    append, blank, chars_of, copy_range, is_blank, is_whitespace, join, joined, lemma_first_line,
    lemma_lines_empty, lemma_lines_single, lemma_trimmed, lemma_trimmed_single_line, lines_of,
    lowercased, same_text, single_line, split_lines, starts_with, string_of, to_lowercase, trim,
    trimmed, views,
};
use vstd::prelude::*;

verus! {

/// A structured commit message with subject and optional body.
#[derive(Debug, Clone, PartialEq, Eq)]
pub struct CommitMessage {
    pub subject: String,
    pub body: Option<String>,
}

/// What a [`CommitMessage`] holds, as text.
pub struct MessageText {
    pub subject: Seq<char>,
    pub body: Option<Seq<char>>,
}

impl View for CommitMessage {
    type V = MessageText;

    open spec fn view(&self) -> MessageText {
        MessageText {
            subject: self.subject@,
            body: match self.body {
                Some(body) => Some(body@),
                None => None,
            },
        }
    }
}

impl MessageText {
    /// A message fit to be shown and committed: the subject is one line and not empty, and a
    /// body, where there is one, is not blank.
    pub open spec fn well_formed(self) -> bool {
        &&& self.subject.len() > 0
        &&& single_line(self.subject)
        &&& self.body matches Some(body) ==> !is_blank(body)
    }

    /// The text handed to version control: the subject alone, or the subject, an empty line
    /// and the body.
    pub open spec fn git_text(self) -> Seq<char> {
        match self.body {
            Some(body) => self.subject + seq!['\n', '\n'] + body,
            None => self.subject,
        }
    }
}

// ---------------------------------------------------------------------------------------
// The two-field protocol
// ---------------------------------------------------------------------------------------

/// The label that opens the subject line of an answer.
pub open spec fn subject_marker() -> Seq<char> {
    "SUBJECT:"@
}

/// The label that opens the body of an answer.
pub open spec fn body_marker() -> Seq<char> {
    "BODY:"@
}

/// What follows `marker` on a line that begins with it, trimmed.
pub open spec fn after_marker(line: Seq<char>, marker: Seq<char>) -> Seq<char> {
    trimmed(line.subrange(marker.len() as int, line.len() as int))
}

/// Whether the text after the body label is the word `none`, in any letter case: the
/// answer then says that the message has no body.
pub open spec fn says_none(rest: Seq<char>) -> bool {
    lowercased(rest) == "none"@
}

/// What a scan of the labelled lines has found so far.
pub struct Scan {
    /// What followed the first subject label, once one was seen.
    pub subject: Option<Seq<char>>,
    /// Whether a body label has said that there is no body. From then on there is none,
    /// whatever follows.
    pub closed: bool,
    /// Whether the body is open: a body label was seen, and none has closed the body.
    pub in_body: bool,
    /// The body gathered so far; empty while there is none.
    pub body: Seq<char>,
}

/// The scan before any line.
pub open spec fn scan_start() -> Scan {
    Scan { subject: None, closed: false, in_body: false, body: Seq::empty() }
}

/// The scan after one more line.
///
/// The first line that begins with the subject label gives the subject; later ones are
/// passed over. A line that begins with the body label and goes on with the word `none`
/// closes the body: the message has none, and every later line is passed over. Any other
/// line that begins with the body label opens the body, and what follows the label, unless
/// it is empty, replaces the body gathered so far. Any other line that is not empty is
/// added to the body while the body is open, after a line feed when the body already holds
/// text. Each line is trimmed before it is looked at.
pub open spec fn scan_line(st: Scan, raw: Seq<char>) -> Scan {
    let line = trimmed(raw);
    if subject_marker().is_prefix_of(line) {
        if st.subject is None {
            Scan { subject: Some(after_marker(line, subject_marker())), ..st }
        } else {
            st
        }
    } else if body_marker().is_prefix_of(line) {
        let rest = after_marker(line, body_marker());
        if st.closed {
            st
        } else if says_none(rest) {
            Scan { closed: true, in_body: false, body: Seq::empty(), ..st }
        } else {
            Scan { in_body: true, body: if rest.len() == 0 { st.body } else { rest }, ..st }
        }
    } else if st.in_body && line.len() > 0 {
        Scan {
            body: if st.body.len() == 0 {
                line
            } else {
                st.body + seq!['\n'] + line
            },
            ..st
        }
    } else {
        st
    }
}

/// The scan after all of `lines`, taken in order.
pub open spec fn scan(lines: Seq<Seq<char>>) -> Scan
    decreases lines.len(),
{
    if lines.len() == 0 {
        scan_start()
    } else {
        scan_line(scan(lines.drop_last()), lines.last())
    }
}

/// `lines` without the blank lines that it begins with.
pub open spec fn skip_blank(lines: Seq<Seq<char>>) -> Seq<Seq<char>>
    decreases lines.len(),
{
    if lines.len() > 0 && is_blank(lines[0]) {
        skip_blank(lines.drop_first())
    } else {
        lines
    }
}

/// The message read from lines that carry no usable labels: the first line, trimmed, is the
/// subject; the lines after it, from the first that is not blank, joined by line feeds, are
/// the body, which is absent when that text is blank.
pub open spec fn unlabelled(lines: Seq<Seq<char>>) -> MessageText {
    if lines.len() == 0 {
        MessageText { subject: Seq::empty(), body: None }
    } else {
        let body = joined(skip_blank(lines.drop_first()), seq!['\n']);
        MessageText {
            subject: trimmed(lines[0]),
            body: if is_blank(body) {
                None
            } else {
                Some(body)
            },
        }
    }
}

/// The message that an answer stands for.
///
/// The answer is trimmed and cut into lines. Where the labelled lines give a subject that
/// is not empty, that subject and the gathered body are the message. Otherwise the lines
/// are read without labels.
pub open spec fn parsed(response: Seq<char>) -> MessageText {
    let lines = lines_of(trimmed(response));
    let found = scan(lines);
    let subject = match found.subject {
        Some(subject) => subject,
        None => Seq::empty(),
    };
    if subject.len() > 0 {
        MessageText {
            subject,
            body: if found.body.len() == 0 {
                None
            } else {
                Some(found.body)
            },
        }
    } else {
        unlabelled(lines)
    }
}

/// The view of an optional text.
pub open spec fn optional_text(o: Option<Vec<char>>) -> Option<Seq<char>> {
    match o {
        Some(v) => Some(v@),
        None => None,
    }
}

/// The scan of `lines`, computed line by line.
fn scan_lines(lines: &Vec<Vec<char>>) -> (found: (Option<Vec<char>>, Vec<char>))
    ensures
        optional_text(found.0) == scan(views(lines@)).subject,
        found.1@ == scan(views(lines@)).body,
{
    let subject_label = chars_of("SUBJECT:");
    let body_label = chars_of("BODY:");
    let none = chars_of("none");
    let mut subject: Option<Vec<char>> = None;
    let mut closed = false;
    let mut in_body = false;
    let mut body: Vec<char> = Vec::new();
    let mut i: usize = 0;
    assert(views(lines@).subrange(0, 0) == Seq::<Seq<char>>::empty());
    while i < lines.len()
        invariant
            i <= lines.len(),
            subject_label@ == subject_marker(),
            body_label@ == body_marker(),
            none@ == "none"@,
            scan(views(lines@).subrange(0, i as int)) == (Scan {
                subject: optional_text(subject),
                closed,
                in_body,
                body: body@,
            }),
        decreases lines.len() - i,
    {
        let ghost before = views(lines@).subrange(0, i as int);
        let ghost st = scan(before);
        proof {
            let upto = views(lines@).subrange(0, i + 1);
            assert(upto.drop_last() == before);
            assert(upto.last() == lines@[i as int]@);
        }
        let line = trim(lines[i].as_slice());
        if starts_with(line.as_slice(), subject_label.as_slice()) {
            if subject.is_none() {
                let rest = copy_range(line.as_slice(), subject_label.len(), line.len());
                subject = Some(trim(rest.as_slice()));
            }
        } else if starts_with(line.as_slice(), body_label.as_slice()) {
            let rest = copy_range(line.as_slice(), body_label.len(), line.len());
            let rest = trim(rest.as_slice());
            let lower = to_lowercase(rest.as_slice());
            if closed {
            } else if same_text(lower.as_slice(), none.as_slice()) {
                closed = true;
                in_body = false;
                body = Vec::new();
            } else {
                in_body = true;
                if rest.len() != 0 {
                    body = rest;
                }
            }
        } else if in_body && line.len() > 0 {
            if body.len() > 0 {
                body.push('\n');
            }
            append(&mut body, line.as_slice());
            proof {
                if st.body.len() > 0 {
                    assert(st.body.push('\n') == st.body + seq!['\n']);
                } else {
                    assert(st.body + line@ == line@);
                }
            }
        }
        i += 1;
    }
    assert(views(lines@).subrange(0, lines.len() as int) == views(lines@));
    (subject, body)
}

/// `lines` from index `from` on, without the blank lines that this part begins with, joined
/// by line feeds.
fn join_after_blank(lines: &Vec<Vec<char>>, from: usize) -> (out: Vec<char>)
    requires
        from <= lines.len(),
    ensures
        out@ == joined(
            skip_blank(views(lines@).subrange(from as int, lines.len() as int)),
            seq!['\n'],
        ),
{
    let ghost all = views(lines@);
    let mut start: usize = from;
    while start < lines.len() && blank(lines[start].as_slice())
        invariant
            from <= start <= lines.len(),
            all == views(lines@),
            skip_blank(all.subrange(from as int, lines.len() as int)) == skip_blank(
                all.subrange(start as int, lines.len() as int),
            ),
        decreases lines.len() - start,
    {
        proof {
            let here = all.subrange(start as int, lines.len() as int);
            assert(here[0] == lines@[start as int]@);
            assert(here.drop_first() == all.subrange(start + 1, lines.len() as int));
        }
        start += 1;
    }
    proof {
        let here = all.subrange(start as int, lines.len() as int);
        if start < lines.len() {
            assert(here[0] == lines@[start as int]@);
        }
        assert(skip_blank(here) == here);
    }
    let mut kept: Vec<Vec<char>> = Vec::new();
    let mut i: usize = start;
    while i < lines.len()
        invariant
            start <= i <= lines.len(),
            all == views(lines@),
            views(kept@) == all.subrange(start as int, i as int),
        decreases lines.len() - i,
    {
        let ghost before = views(kept@);
        let line = copy_range(lines[i].as_slice(), 0, lines[i].len());
        assert(line@ == lines@[i as int]@);
        kept.push(line);
        assert(views(kept@) == before.push(lines@[i as int]@));
        assert(all.subrange(start as int, i + 1) == all.subrange(start as int, i as int).push(
            lines@[i as int]@,
        ));
        i += 1;
    }
    let sep = chars_of("\n");
    proof {
        reveal_strlit("\n");
        assert(sep@ == seq!['\n']);
    }
    join(&kept, sep.as_slice())
}

impl CommitMessage {
    /// A commit message with just a subject.
    pub fn new(subject: String) -> (message: Self)
        ensures
            message@ == (MessageText { subject: subject@, body: None }),
    {
        Self { subject, body: None }
    }

    /// Reads the message out of the text that a backend answered with.
    ///
    /// The answer is expected to hold two labelled fields,
    ///
    /// ```text
    /// SUBJECT: feat(scope): description
    /// BODY: detailed explanation (or "none")
    /// ```
    ///
    /// and is read without labels where it gives no subject that way. The subject that comes
    /// back is empty only for a blank answer; for any other answer the message is well
    /// formed.
    pub fn parse_from_ai_response(response: &str) -> (message: Self)
        ensures
            message@ == parsed(response@),
            is_blank(response@) <==> message@.subject.len() == 0,
            !is_blank(response@) ==> message@.well_formed(),
    {
        let all = chars_of(response);
        let text = trim(all.as_slice());
        let lines = split_lines(text.as_slice());
        proof {
            lemma_parsed_well_formed(response@);
        }
        let (subject, body) = scan_lines(&lines);
        match subject {
            Some(subject) if subject.len() > 0 => {
                let body = if body.len() == 0 {
                    None
                } else {
                    Some(string_of(body.as_slice()))
                };
                return Self { subject: string_of(subject.as_slice()), body };
            },
            _ => {},
        }
        if lines.len() == 0 {
            return Self { subject: String::new(), body: None };
        }
        let subject = trim(lines[0].as_slice());
        let body = join_after_blank(&lines, 1);
        assert(views(lines@).subrange(1, lines.len() as int) == views(lines@).drop_first());
        let body = if blank(body.as_slice()) {
            None
        } else {
            Some(string_of(body.as_slice()))
        };
        Self { subject: string_of(subject.as_slice()), body }
    }

    /// The text handed to version control, with an empty line between subject and body.
    pub fn to_git_message(&self) -> (text: String)
        ensures
            text@ == self@.git_text(),
    {
        let mut out = chars_of(self.subject.as_str());
        match &self.body {
            Some(body) => {
                out.push('\n');
                out.push('\n');
                let body = chars_of(body.as_str());
                append(&mut out, body.as_slice());
                assert(out@ == self@.subject + seq!['\n', '\n'] + body@);
            },
            None => {},
        }
        string_of(out.as_slice())
    }

    /// The text shown to the operator for review: the same as is committed.
    pub fn to_display_string(&self) -> (text: String)
        ensures
            text@ == self@.git_text(),
    {
        self.to_git_message()
    }
}

/// The labelled lines of single lines give a subject of one line, and a body that is not
/// blank where they give one.
pub proof fn lemma_scan_well_formed(lines: Seq<Seq<char>>)
    requires
        forall|k: int| 0 <= k < lines.len() ==> single_line(#[trigger] lines[k]),
    ensures
        scan(lines).subject matches Some(subject) ==> single_line(subject),
        scan(lines).body.len() > 0 ==> !is_blank(scan(lines).body),
    decreases lines.len(),
{
    if lines.len() > 0 {
        let st = scan(lines.drop_last());
        assert forall|k: int| 0 <= k < lines.drop_last().len() implies single_line(
            #[trigger] lines.drop_last()[k],
        ) by {
            assert(lines.drop_last()[k] == lines[k]);
        }
        lemma_scan_well_formed(lines.drop_last());
        let line = trimmed(lines.last());
        lemma_trimmed_single_line(lines.last());
        lemma_trimmed(lines.last());
        if subject_marker().is_prefix_of(line) {
            let rest = line.subrange(subject_marker().len() as int, line.len() as int);
            assert(single_line(rest));
            lemma_trimmed_single_line(rest);
        } else if body_marker().is_prefix_of(line) {
            let rest = line.subrange(body_marker().len() as int, line.len() as int);
            lemma_trimmed(rest);
            let found = after_marker(line, body_marker());
            if found.len() > 0 {
                assert(!is_whitespace(found[0]));
            }
        } else if st.in_body && line.len() > 0 {
            let body = scan(lines).body;
            if st.body.len() == 0 {
                assert(!is_whitespace(body[0]));
            } else {
                let at = st.body.len() as int + 1;
                assert(body[at] == line[0]);
                assert(!is_whitespace(body[at]));
            }
        }
    }
}

/// Whatever the answer, the message read from it has a subject of one line, which is empty
/// only for a blank answer, and a body that is not blank where there is one.
pub proof fn lemma_parsed_well_formed(response: Seq<char>)
    ensures
        is_blank(response) <==> parsed(response).subject.len() == 0,
        !is_blank(response) ==> parsed(response).well_formed(),
{
    let text = trimmed(response);
    let lines = lines_of(text);
    lemma_trimmed(response);
    lemma_lines_empty(text);
    lemma_lines_single(text);
    lemma_scan_well_formed(lines);
    let found = scan(lines);
    if found.subject is Some && found.subject->0.len() > 0 {
    } else if lines.len() > 0 {
        lemma_first_line(text);
        lemma_trimmed(lines[0]);
        lemma_trimmed_single_line(lines[0]);
        assert(!is_whitespace(lines[0][0]));
    }
}

// ---------------------------------------------------------------------------------------
// Laws of the two-field protocol
// ---------------------------------------------------------------------------------------

/// Whether `raw`, trimmed, begins with the subject label.
pub open spec fn is_subject_line(raw: Seq<char>) -> bool {
    subject_marker().is_prefix_of(trimmed(raw))
}

/// Whether `raw`, trimmed, begins with the body label.
pub open spec fn is_body_line(raw: Seq<char>) -> bool {
    body_marker().is_prefix_of(trimmed(raw))
}

/// The subject that the labelled line `raw` gives.
pub open spec fn labelled_subject(raw: Seq<char>) -> Seq<char> {
    after_marker(trimmed(raw), subject_marker())
}

/// The opening of the body that the labelled line `raw` gives.
pub open spec fn labelled_body(raw: Seq<char>) -> Seq<char> {
    after_marker(trimmed(raw), body_marker())
}

/// `start`, followed by each of `lines` that is not blank: trimmed, and after a line feed.
pub open spec fn continued(start: Seq<char>, lines: Seq<Seq<char>>) -> Seq<char>
    decreases lines.len(),
{
    if lines.len() == 0 {
        start
    } else {
        let before = continued(start, lines.drop_last());
        let line = trimmed(lines.last());
        if line.len() == 0 {
            before
        } else {
            before + seq!['\n'] + line
        }
    }
}

/// No line begins with both labels.
pub proof fn lemma_labels_differ(raw: Seq<char>)
    ensures
        !(is_subject_line(raw) && is_body_line(raw)),
{
    reveal_strlit("SUBJECT:");
    reveal_strlit("BODY:");
    let line = trimmed(raw);
    if is_subject_line(raw) && is_body_line(raw) {
        assert(line.subrange(0, 8)[0] == 'S');
        assert(line.subrange(0, 5)[0] == 'B');
    }
}

/// Lines of which none begins with the subject label give no subject.
proof fn lemma_scan_without_subject(lines: Seq<Seq<char>>)
    requires
        forall|j: int| 0 <= j < lines.len() ==> !is_subject_line(#[trigger] lines[j]),
    ensures
        scan(lines).subject is None,
    decreases lines.len(),
{
    if lines.len() > 0 {
        let front = lines.drop_last();
        assert forall|j: int| 0 <= j < front.len() implies !is_subject_line(
            #[trigger] front[j],
        ) by {
            assert(front[j] == lines[j]);
        }
        lemma_scan_without_subject(front);
    }
}

/// The subject is what the first line with the subject label gives.
proof fn lemma_scan_first_subject(lines: Seq<Seq<char>>, k: int)
    requires
        0 <= k < lines.len(),
        is_subject_line(lines[k]),
        forall|j: int| 0 <= j < k ==> !is_subject_line(#[trigger] lines[j]),
    ensures
        scan(lines).subject == Some(labelled_subject(lines[k])),
    decreases lines.len(),
{
    let front = lines.drop_last();
    if k == lines.len() - 1 {
        assert forall|j: int| 0 <= j < front.len() implies !is_subject_line(
            #[trigger] front[j],
        ) by {
            assert(front[j] == lines[j]);
        }
        lemma_scan_without_subject(front);
    } else {
        assert(front[k] == lines[k]);
        assert forall|j: int| 0 <= j < k implies !is_subject_line(#[trigger] front[j]) by {
            assert(front[j] == lines[j]);
        }
        lemma_scan_first_subject(front, k);
    }
}

/// Whether `raw` begins with the body label and goes on with the word `none`.
pub open spec fn is_none_line(raw: Seq<char>) -> bool {
    is_body_line(raw) && says_none(labelled_body(raw))
}

/// Lines of which none begins with the body label give no body.
proof fn lemma_scan_without_body(lines: Seq<Seq<char>>)
    requires
        forall|j: int| 0 <= j < lines.len() ==> !is_body_line(#[trigger] lines[j]),
    ensures
        !scan(lines).in_body,
        scan(lines).body.len() == 0,
    decreases lines.len(),
{
    if lines.len() > 0 {
        let front = lines.drop_last();
        assert forall|j: int| 0 <= j < front.len() implies !is_body_line(#[trigger] front[j]) by {
            assert(front[j] == lines[j]);
        }
        lemma_scan_without_body(front);
    }
}

/// A body that is closed is not open, and holds nothing.
proof fn lemma_scan_closed_is_empty(lines: Seq<Seq<char>>)
    ensures
        scan(lines).closed ==> !scan(lines).in_body && scan(lines).body.len() == 0,
    decreases lines.len(),
{
    if lines.len() > 0 {
        lemma_scan_closed_is_empty(lines.drop_last());
    }
}

/// The body is closed once a body label has gone on with the word `none`.
proof fn lemma_scan_closed(lines: Seq<Seq<char>>, k: int)
    requires
        0 <= k < lines.len(),
        is_none_line(lines[k]),
    ensures
        scan(lines).closed,
    decreases lines.len(),
{
    let front = lines.drop_last();
    if k == lines.len() - 1 {
        lemma_labels_differ(lines[k]);
    } else {
        assert(front[k] == lines[k]);
        lemma_scan_closed(front, k);
    }
}

/// The body is not closed while no body label has gone on with the word `none`.
proof fn lemma_scan_not_closed(lines: Seq<Seq<char>>)
    requires
        forall|j: int| 0 <= j < lines.len() ==> !is_none_line(#[trigger] lines[j]),
    ensures
        !scan(lines).closed,
    decreases lines.len(),
{
    if lines.len() > 0 {
        let front = lines.drop_last();
        assert forall|j: int| 0 <= j < front.len() implies !is_none_line(#[trigger] front[j]) by {
            assert(front[j] == lines[j]);
        }
        lemma_scan_not_closed(front);
        assert(!is_none_line(lines[lines.len() - 1]));
    }
}

/// After a body label that opens a body with text, and with no label behind it, the body is
/// that text continued by the lines that follow.
proof fn lemma_scan_body_text(lines: Seq<Seq<char>>, k: int, n: int)
    requires
        0 <= k < n <= lines.len(),
        is_body_line(lines[k]),
        labelled_body(lines[k]).len() > 0,
        forall|j: int| 0 <= j <= k ==> !is_none_line(#[trigger] lines[j]),
        forall|j: int|
            k < j < n ==> !is_subject_line(#[trigger] lines[j]) && !is_body_line(lines[j]),
    ensures
        scan(lines.subrange(0, n)).in_body,
        scan(lines.subrange(0, n)).body.len() > 0,
        scan(lines.subrange(0, n)).body == continued(
            labelled_body(lines[k]),
            lines.subrange(k + 1, n),
        ),
    decreases n,
{
    let upto = lines.subrange(0, n);
    let front = lines.subrange(0, n - 1);
    assert(upto.drop_last() == front);
    assert(upto.last() == lines[n - 1]);
    if n == k + 1 {
        lemma_labels_differ(lines[k]);
        assert forall|j: int| 0 <= j < front.len() implies !is_none_line(#[trigger] front[j]) by {
            assert(front[j] == lines[j]);
        }
        lemma_scan_not_closed(front);
        assert(!is_none_line(lines[k]));
        assert(lines.subrange(k + 1, n) == Seq::<Seq<char>>::empty());
    } else {
        lemma_scan_body_text(lines, k, n - 1);
        let tail = lines.subrange(k + 1, n);
        assert(tail.drop_last() == lines.subrange(k + 1, n - 1));
        assert(tail.last() == lines[n - 1]);
    }
}

/// An answer with a subject label and no body label reads as that subject, without a body.
///
/// `k` is the first line of the trimmed answer that begins with the subject label; no line
/// begins with the body label. The subject is what follows the label on line `k`, trimmed,
/// which must not be empty.
pub proof fn law_subject_without_body(response: Seq<char>, k: int)
    requires
        0 <= k < lines_of(trimmed(response)).len(),
        is_subject_line(lines_of(trimmed(response))[k]),
        forall|j: int|
            0 <= j < k ==> !is_subject_line(#[trigger] lines_of(trimmed(response))[j]),
        forall|j: int|
            0 <= j < lines_of(trimmed(response)).len() ==> !is_body_line(
                #[trigger] lines_of(trimmed(response))[j],
            ),
        labelled_subject(lines_of(trimmed(response))[k]).len() > 0,
    ensures
        parsed(response) == (MessageText {
            subject: labelled_subject(lines_of(trimmed(response))[k]),
            body: None,
        }),
{
    let lines = lines_of(trimmed(response));
    lemma_scan_first_subject(lines, k);
    lemma_scan_without_body(lines);
}

/// An answer whose body label is followed by `none`, in any letter case, has no body,
/// whatever else it holds.
///
/// The labelled lines give a subject that is not empty, and line `k` of the trimmed answer
/// begins with the body label and goes on with the word `none`.
pub proof fn law_body_none(response: Seq<char>, k: int)
    requires
        0 <= k < lines_of(trimmed(response)).len(),
        scan(lines_of(trimmed(response))).subject matches Some(subject) && subject.len() > 0,
        is_none_line(lines_of(trimmed(response))[k]),
    ensures
        parsed(response).body is None,
{
    let lines = lines_of(trimmed(response));
    lemma_scan_closed(lines, k);
    lemma_scan_closed_is_empty(lines);
}

/// An answer whose body label is followed by text has that text as its body, continued by
/// every later line that is not blank, each after a line feed.
///
/// The labelled lines give a subject that is not empty. Line `k` of the trimmed answer
/// begins with the body label, and what follows the label is not empty. No line up to line
/// `k` says that there is no body, and no later line begins with a label.
pub proof fn law_body_text(response: Seq<char>, k: int)
    requires
        0 <= k < lines_of(trimmed(response)).len(),
        scan(lines_of(trimmed(response))).subject matches Some(subject) && subject.len() > 0,
        is_body_line(lines_of(trimmed(response))[k]),
        labelled_body(lines_of(trimmed(response))[k]).len() > 0,
        forall|j: int| 0 <= j <= k ==> !is_none_line(#[trigger] lines_of(trimmed(response))[j]),
        forall|j: int|
            k < j < lines_of(trimmed(response)).len() ==> !is_subject_line(
                #[trigger] lines_of(trimmed(response))[j],
            ) && !is_body_line(lines_of(trimmed(response))[j]),
    ensures
        parsed(response).body == Some(
            continued(
                labelled_body(lines_of(trimmed(response))[k]),
                lines_of(trimmed(response)).subrange(
                    k + 1,
                    lines_of(trimmed(response)).len() as int,
                ),
            ),
        ),
{
    let lines = lines_of(trimmed(response));
    lemma_scan_body_text(lines, k, lines.len() as int);
    assert(lines.subrange(0, lines.len() as int) == lines);
}

} // verus!
