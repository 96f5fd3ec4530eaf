//! The run, from the first generation request to the commit.
//!
//! A run is a [`Phase`] that an [`Event`] moves on. Each phase says what is to be done
//! outside next: ask the backend, show the message and read a choice, open the editor,
//! commit, ask about the push, push. The caller does that and hands back what came of it;
//! [`advance`] decides what follows. Nothing is done outside but what a phase asks for, so
//! what holds of the phases holds of the run.

use crate::config::{Config, ConfigError};
use crate::emoji::{add_emoji_prefix, decorate, decorated, strip, stripped};
use crate::git::GitError;
use crate::message::{parsed, CommitMessage, MessageText};
use crate::prompt::{build_commit_prompt, prompt_text};
use crate::provider::ProviderError;
use crate::text::{
    append, blank, chars_of, decimal, is_blank, join, joined, lines_of, split_lines, string_of,
    to_decimal, trim, trimmed, views,
};
use crate::ui::{choice_in, confirms, confirms_push, UserAction};
use vstd::prelude::*;

verus! {

// ---------------------------------------------------------------------------------------
// What a run is made of
// ---------------------------------------------------------------------------------------

/// Why a run ended without a commit, or with a commit that was not pushed as asked.
#[derive(Debug, Clone, PartialEq, Eq)]
pub enum RunError {
    /// The working directory is not inside a repository.
    NotARepository,
    /// Nothing is staged for the commit.
    NoStagedChanges,
    /// Every generation request that the budget allows has failed.
    Exhausted { max_retries: u32 },
    /// The environment gives no settings.
    Config(ConfigError),
    /// A version-control step failed.
    Git(GitError),
    /// The editor, named here, did not end well.
    Editor(String),
    /// Reading or writing outside failed; the text says how.
    Io(String),
}

impl RunError {
    /// What the operator is told of this error.
    pub open spec fn text(self) -> Seq<char> {
        match self {
            RunError::NotARepository =>
                "Not in a git repository. Please run this command from within a git repository."@,
            RunError::NoStagedChanges =>
                "No staged changes. Use 'git add <files>' to stage changes first."@,
            RunError::Exhausted { max_retries } =>
                "Failed to generate a valid commit message after "@ + decimal(max_retries as nat)
                    + " attempts"@,
            RunError::Config(error) => error.text(),
            RunError::Git(error) => error.text(),
            RunError::Editor(editor) => "Editor '"@ + editor@ + "' exited with error"@,
            RunError::Io(message) => message@,
        }
    }

    /// What the operator is told of this error.
    pub fn to_string(&self) -> (out: String)
        ensures
            out@ == self.text(),
    {
        let mut out: Vec<char> = Vec::new();
        match self {
            RunError::NotARepository => {
                append(
                    &mut out,
                    chars_of(
                        "Not in a git repository. Please run this command from within a git repository.",
                    ).as_slice(),
                );
            },
            RunError::NoStagedChanges => {
                append(
                    &mut out,
                    chars_of(
                        "No staged changes. Use 'git add <files>' to stage changes first.",
                    ).as_slice(),
                );
            },
            RunError::Exhausted { max_retries } => {
                append(
                    &mut out,
                    chars_of("Failed to generate a valid commit message after ").as_slice(),
                );
                append(&mut out, to_decimal(*max_retries as u64).as_slice());
                append(&mut out, chars_of(" attempts").as_slice());
            },
            RunError::Config(error) => {
                return error.to_string();
            },
            RunError::Git(error) => {
                return error.to_string();
            },
            RunError::Editor(editor) => {
                append(&mut out, chars_of("Editor '").as_slice());
                append(&mut out, chars_of(editor.as_str()).as_slice());
                append(&mut out, chars_of("' exited with error").as_slice());
            },
            RunError::Io(message) => {
                append(&mut out, chars_of(message.as_str()).as_slice());
            },
        }
        string_of(out.as_slice())
    }
}

/// What a run generates from: fixed when the run starts, and the same for every request.
#[derive(Debug, Clone, PartialEq, Eq)]
pub struct GenerationContext {
    /// The staged diff, cut to the lines that the prompt has room for.
    pub diff: String,
    /// The subjects of recent commits; empty where there are none.
    pub history: String,
    /// The statistics of the staged change.
    pub stat: String,
    /// How many generation requests in a row may fail.
    pub max_retries: u32,
}

impl GenerationContext {
    /// The request text of this run.
    pub fn prompt(&self) -> (out: String)
        ensures
            out@ == prompt_text(self.diff@, self.history@, self.stat@),
    {
        build_commit_prompt(self.diff.as_str(), self.history.as_str(), self.stat.as_str())
    }
}

/// Why the operator ended a run without a commit.
#[derive(Debug, Clone, Copy, PartialEq, Eq)]
pub enum AbortReason {
    /// The operator chose to quit.
    Quit,
    /// The operator left nothing but white space in the editor.
    EmptyMessage,
}

/// Where a run stands, and with it what is to be done next.
#[derive(Debug, Clone, PartialEq, Eq)]
pub enum Phase {
    /// The backend is to be asked; this is request number `attempt` of the cycle.
    Generating { attempt: u32 },
    /// `message` is to be shown, and the operator's choice read.
    Reviewing { message: CommitMessage },
    /// The editor is to be opened on `text`.
    Editing { text: String },
    /// `text` is to be committed.
    Committing { text: String },
    /// The commit is made; the operator is to be asked whether to push.
    AskingPush,
    /// The commit is to be pushed.
    Pushing,
    /// The run is over: the commit is made, and pushed if `pushed`.
    Committed { pushed: bool },
    /// The run is over: the operator ended it, and nothing was committed.
    Aborted { reason: AbortReason },
    /// The run is over: it failed.
    Failed { error: RunError },
}

/// A [`Phase`], with its texts as sequences of characters.
pub enum PhaseView {
    Generating { attempt: u32 },
    Reviewing { message: MessageText },
    Editing { text: Seq<char> },
    Committing { text: Seq<char> },
    AskingPush,
    Pushing,
    Committed { pushed: bool },
    Aborted { reason: AbortReason },
    Failed { error: RunError },
}

impl View for Phase {
    type V = PhaseView;

    open spec fn view(&self) -> PhaseView {
        match *self {
            Phase::Generating { attempt } => PhaseView::Generating { attempt },
            Phase::Reviewing { message } => PhaseView::Reviewing { message: message@ },
            Phase::Editing { text } => PhaseView::Editing { text: text@ },
            Phase::Committing { text } => PhaseView::Committing { text: text@ },
            Phase::AskingPush => PhaseView::AskingPush,
            Phase::Pushing => PhaseView::Pushing,
            Phase::Committed { pushed } => PhaseView::Committed { pushed },
            Phase::Aborted { reason } => PhaseView::Aborted { reason },
            Phase::Failed { error } => PhaseView::Failed { error },
        }
    }
}

/// What came of the work that a phase asked for.
#[derive(Debug, PartialEq, Eq)]
pub enum Event {
    /// The backend answered with a text, or the request failed.
    Answer(Result<String, ProviderError>),
    /// The operator typed a line.
    Input(String),
    /// The editor was closed, and left this text.
    Edited(String),
    /// The commit, or the push, went through.
    Done,
    /// The work failed in a way that ends the run.
    Failure(RunError),
}

/// What the operator is to be told on the way to the next phase.
#[derive(Debug, Clone, PartialEq, Eq)]
pub enum Notice {
    /// The generation request failed with this error.
    ProviderFailed(ProviderError),
    /// The backend answered with a text that holds no subject.
    InvalidAnswer,
    /// The line typed stands for no choice; another is to be read.
    InvalidChoice,
}

/// The phase that follows, and what the operator is to be told first.
#[derive(Debug, Clone, PartialEq, Eq)]
pub struct Step {
    pub phase: Phase,
    pub notice: Option<Notice>,
}

/// A [`Step`], with its texts as sequences of characters.
pub struct StepView {
    pub phase: PhaseView,
    pub notice: Option<Notice>,
}

impl View for Step {
    type V = StepView;

    open spec fn view(&self) -> StepView {
        StepView { phase: self.phase@, notice: self.notice }
    }
}

impl PhaseView {
    /// Whether the run is over.
    pub open spec fn is_final(self) -> bool {
        self is Committed || self is Aborted || self is Failed
    }

    /// The exit code of a run that is over: 0 after a commit and after the operator ended
    /// the run, 1 after a failure.
    pub open spec fn exit_code(self) -> Option<u8> {
        match self {
            PhaseView::Committed { .. } => Some(0u8),
            PhaseView::Aborted { .. } => Some(0u8),
            PhaseView::Failed { .. } => Some(1u8),
            _ => None,
        }
    }

    /// What holds of every phase that a run reaches: a request has a number from 1 up to
    /// the budget, and a message under review has a subject.
    pub open spec fn sound(self, max_retries: u32) -> bool {
        match self {
            PhaseView::Generating { attempt } => 1 <= attempt <= max_retries,
            PhaseView::Reviewing { message } => message.subject.len() > 0,
            _ => true,
        }
    }
}

// ---------------------------------------------------------------------------------------
// The rules of a run
// ---------------------------------------------------------------------------------------

/// The phase that opens a cycle of requests: the first request, or failure at once where
/// the budget allows none.
pub open spec fn first_attempt(max_retries: u32) -> PhaseView {
    if max_retries == 0 {
        PhaseView::Failed { error: RunError::Exhausted { max_retries } }
    } else {
        PhaseView::Generating { attempt: 1 }
    }
}

/// The phase after request number `attempt` has given no message: the next request, or
/// failure where the budget is used up.
pub open spec fn next_attempt(max_retries: u32, attempt: u32) -> PhaseView {
    if attempt >= max_retries {
        PhaseView::Failed { error: RunError::Exhausted { max_retries } }
    } else {
        PhaseView::Generating { attempt: (attempt + 1) as u32 }
    }
}

/// The message proposed for an answer: the message read from it, with a decorated subject
/// where glyphs are asked for.
pub open spec fn proposed(answer: Seq<char>, emoji: bool) -> MessageText {
    let message = parsed(answer);
    MessageText {
        subject: if emoji {
            decorated(message.subject)
        } else {
            message.subject
        },
        body: message.body,
    }
}

/// `text` with its first line replaced by `first`, and its lines joined by line feeds.
pub open spec fn with_first_line(text: Seq<char>, first: Seq<char>) -> Seq<char> {
    joined(lines_of(text).update(0, first), seq!['\n'])
}

/// The text that the editor is opened on: the message as it would be committed, with the
/// glyph taken off its first line where glyphs are asked for.
pub open spec fn editable(message: MessageText, emoji: bool) -> Seq<char> {
    let text = message.git_text();
    if emoji && lines_of(text).len() > 0 {
        with_first_line(text, stripped(lines_of(text)[0]))
    } else {
        text
    }
}

/// The text committed after an edit: the edited text, trimmed, with a decorated first line
/// where glyphs are asked for.
pub open spec fn committed_text(edited: Seq<char>, emoji: bool) -> Seq<char> {
    let text = trimmed(edited);
    if emoji && lines_of(text).len() > 0 {
        with_first_line(text, decorated(lines_of(text)[0]))
    } else {
        text
    }
}

/// The phase stays as it is, and nothing is to be told.
pub open spec fn stay(phase: PhaseView) -> StepView {
    go(phase)
}

/// The run fails with `error`.
pub open spec fn fail(error: RunError) -> StepView {
    StepView { phase: PhaseView::Failed { error }, notice: None }
}

/// The run moves to `phase`, and nothing is to be told.
pub open spec fn go(phase: PhaseView) -> StepView {
    StepView { phase, notice: None }
}

/// What follows `phase` on `event`.
///
/// - While generating: an answer that holds a subject is proposed for review; one that
///   holds none, and a failed request, use up one request of the budget. The operator is
///   told of either.
/// - Under review: a typed line that stands for a choice is followed: accepting commits the
///   message, editing opens the editor, asking for another message opens a new cycle of
///   requests with the whole budget, quitting ends the run. Any other line is asked for
///   again.
/// - After the edit: a blank text ends the run without a commit; any other is committed.
/// - After the commit the operator is asked about the push, and the answer is followed.
/// - A failure of the work outside ends the run at once, in every phase that is not final.
/// - An event that the phase did not ask for leaves the phase as it is, and a final phase
///   stays whatever comes.
pub open spec fn advanced(max_retries: u32, emoji: bool, phase: PhaseView, event: Event) -> StepView {
    match phase {
        PhaseView::Generating { attempt } => match event {
            Event::Answer(Ok(answer)) => if parsed(answer@).subject.len() == 0 {
                StepView {
                    phase: next_attempt(max_retries, attempt),
                    notice: Some(Notice::InvalidAnswer),
                }
            } else {
                go(PhaseView::Reviewing { message: proposed(answer@, emoji) })
            },
            Event::Answer(Err(error)) => StepView {
                phase: next_attempt(max_retries, attempt),
                notice: Some(Notice::ProviderFailed(error)),
            },
            Event::Failure(error) => fail(error),
            _ => stay(phase),
        },
        PhaseView::Reviewing { message } => match event {
            Event::Input(line) => match choice_in(line@) {
                Some(UserAction::Accept) => go(PhaseView::Committing { text: message.git_text() }),
                Some(UserAction::Edit) => go(PhaseView::Editing { text: editable(message, emoji) }),
                Some(UserAction::Regenerate) => go(first_attempt(max_retries)),
                Some(UserAction::Quit) => go(PhaseView::Aborted { reason: AbortReason::Quit }),
                None => StepView { phase, notice: Some(Notice::InvalidChoice) },
            },
            Event::Failure(error) => fail(error),
            _ => stay(phase),
        },
        PhaseView::Editing { text } => match event {
            Event::Edited(edited) => if is_blank(edited@) {
                go(PhaseView::Aborted { reason: AbortReason::EmptyMessage })
            } else {
                go(PhaseView::Committing { text: committed_text(edited@, emoji) })
            },
            Event::Failure(error) => fail(error),
            _ => stay(phase),
        },
        PhaseView::Committing { text } => match event {
            Event::Done => go(PhaseView::AskingPush),
            Event::Failure(error) => fail(error),
            _ => stay(phase),
        },
        PhaseView::AskingPush => match event {
            Event::Input(line) => if confirms(line@) {
                go(PhaseView::Pushing)
            } else {
                go(PhaseView::Committed { pushed: false })
            },
            Event::Failure(error) => fail(error),
            _ => stay(phase),
        },
        PhaseView::Pushing => match event {
            Event::Done => go(PhaseView::Committed { pushed: true }),
            Event::Failure(error) => fail(error),
            _ => stay(phase),
        },
        _ => stay(phase),
    }
}

// ---------------------------------------------------------------------------------------
// Running
// ---------------------------------------------------------------------------------------

/// The phase that opens a cycle of requests.
fn open_cycle(max_retries: u32) -> (phase: Phase)
    ensures
        phase@ == first_attempt(max_retries),
{
    if max_retries == 0 {
        Phase::Failed { error: RunError::Exhausted { max_retries } }
    } else {
        Phase::Generating { attempt: 1 }
    }
}

/// The phase after request number `attempt` has given no message.
fn retry(max_retries: u32, attempt: u32) -> (phase: Phase)
    ensures
        phase@ == next_attempt(max_retries, attempt),
{
    if attempt >= max_retries {
        Phase::Failed { error: RunError::Exhausted { max_retries } }
    } else {
        Phase::Generating { attempt: attempt + 1 }
    }
}

/// The separator of lines.
fn line_feed() -> (sep: Vec<char>)
    ensures
        sep@ == seq!['\n'],
{
    let mut sep: Vec<char> = Vec::new();
    sep.push('\n');
    sep
}

/// The text that the editor is opened on.
fn editable_text(message: &CommitMessage, emoji: bool) -> (out: String)
    ensures
        out@ == editable(message@, emoji),
{
    let text = message.to_git_message();
    if !emoji {
        return text;
    }
    let chars = chars_of(text.as_str());
    let mut lines = split_lines(chars.as_slice());
    assert(views(lines@).len() == lines@.len());
    if lines.len() == 0 {
        return text;
    }
    let ghost before = views(lines@);
    let first = strip(lines[0].as_slice());
    lines.set(0, first);
    assert(views(lines@) == before.update(0, first@));
    let out = join(&lines, line_feed().as_slice());
    string_of(out.as_slice())
}

/// The text committed after an edit.
fn edited_text(edited: &str, emoji: bool) -> (out: String)
    ensures
        out@ == committed_text(edited@, emoji),
{
    let chars = chars_of(edited);
    let text = trim(chars.as_slice());
    if !emoji {
        return string_of(text.as_slice());
    }
    let mut lines = split_lines(text.as_slice());
    assert(views(lines@).len() == lines@.len());
    if lines.len() == 0 {
        return string_of(text.as_slice());
    }
    let ghost before = views(lines@);
    let first = decorate(lines[0].as_slice());
    lines.set(0, first);
    assert(views(lines@) == before.update(0, first@));
    let out = join(&lines, line_feed().as_slice());
    string_of(out.as_slice())
}

/// Opens a run on what the version-control adapter has handed over: the staged diff or the
/// reason why there is none, the recent history if it could be read, and the statistics.
///
/// Without a staged diff there is no run: nothing is generated, and the error says why.
/// With one, the run begins with the first generation request.
pub fn start(
    config: &Config,
    staged: Result<String, GitError>,
    history: Result<String, GitError>,
    stat: String,
) -> (out: Result<(GenerationContext, Phase), RunError>)
    ensures
        match out {
            Ok((context, phase)) => {
                &&& staged == Ok::<String, GitError>(context.diff)
                &&& context.history@ == match history {
                    Ok(text) => text@,
                    Err(_) => Seq::empty(),
                }
                &&& context.stat == stat
                &&& context.max_retries == config.max_retries
                &&& phase@ == first_attempt(config.max_retries)
            },
            Err(error) => {
                &&& staged matches Err(cause)
                &&& error == match cause {
                    GitError::NoStagedChanges => RunError::NoStagedChanges,
                    _ => RunError::Git(cause),
                }
            },
        },
{
    let diff = match staged {
        Ok(diff) => diff,
        Err(GitError::NoStagedChanges) => {
            return Err(RunError::NoStagedChanges);
        },
        Err(cause) => {
            return Err(RunError::Git(cause));
        },
    };
    let history = match history {
        Ok(text) => text,
        Err(_) => String::new(),
    };
    let context = GenerationContext { diff, history, stat, max_retries: config.max_retries };
    Ok((context, open_cycle(config.max_retries)))
}

/// Decides what follows `phase` on `event`.
pub fn advance(context: &GenerationContext, emoji_enabled: bool, phase: Phase, event: Event) -> (step:
    Step)
    ensures
        step@ == advanced(context.max_retries, emoji_enabled, phase@, event),
{
    let max_retries = context.max_retries;
    match phase {
        Phase::Generating { attempt } => match event {
            Event::Answer(Ok(answer)) => {
                let message = CommitMessage::parse_from_ai_response(answer.as_str());
                if message.subject.as_str().is_empty() {
                    Step { phase: retry(max_retries, attempt), notice: Some(Notice::InvalidAnswer) }
                } else {
                    let message = if emoji_enabled {
                        CommitMessage {
                            subject: add_emoji_prefix(message.subject.as_str()),
                            body: message.body,
                        }
                    } else {
                        message
                    };
                    Step { phase: Phase::Reviewing { message }, notice: None }
                }
            },
            Event::Answer(Err(error)) => Step {
                phase: retry(max_retries, attempt),
                notice: Some(Notice::ProviderFailed(error)),
            },
            Event::Failure(error) => Step { phase: Phase::Failed { error }, notice: None },
            _ => Step { phase: Phase::Generating { attempt }, notice: None },
        },
        Phase::Reviewing { message } => match event {
            Event::Input(line) => match UserAction::from_input(line.as_str()) {
                Some(UserAction::Accept) => Step {
                    phase: Phase::Committing { text: message.to_git_message() },
                    notice: None,
                },
                Some(UserAction::Edit) => Step {
                    phase: Phase::Editing { text: editable_text(&message, emoji_enabled) },
                    notice: None,
                },
                Some(UserAction::Regenerate) => Step {
                    phase: open_cycle(max_retries),
                    notice: None,
                },
                Some(UserAction::Quit) => Step {
                    phase: Phase::Aborted { reason: AbortReason::Quit },
                    notice: None,
                },
                None => Step {
                    phase: Phase::Reviewing { message },
                    notice: Some(Notice::InvalidChoice),
                },
            },
            Event::Failure(error) => Step { phase: Phase::Failed { error }, notice: None },
            _ => Step { phase: Phase::Reviewing { message }, notice: None },
        },
        Phase::Editing { text } => match event {
            Event::Edited(edited) => {
                if blank(chars_of(edited.as_str()).as_slice()) {
                    Step { phase: Phase::Aborted { reason: AbortReason::EmptyMessage }, notice: None }
                } else {
                    Step {
                        phase: Phase::Committing { text: edited_text(edited.as_str(), emoji_enabled) },
                        notice: None,
                    }
                }
            },
            Event::Failure(error) => Step { phase: Phase::Failed { error }, notice: None },
            _ => Step { phase: Phase::Editing { text }, notice: None },
        },
        Phase::Committing { text } => match event {
            Event::Done => Step { phase: Phase::AskingPush, notice: None },
            Event::Failure(error) => Step { phase: Phase::Failed { error }, notice: None },
            _ => Step { phase: Phase::Committing { text }, notice: None },
        },
        Phase::AskingPush => match event {
            Event::Input(line) => {
                if confirms_push(line.as_str()) {
                    Step { phase: Phase::Pushing, notice: None }
                } else {
                    Step { phase: Phase::Committed { pushed: false }, notice: None }
                }
            },
            Event::Failure(error) => Step { phase: Phase::Failed { error }, notice: None },
            _ => Step { phase: Phase::AskingPush, notice: None },
        },
        Phase::Pushing => match event {
            Event::Done => Step { phase: Phase::Committed { pushed: true }, notice: None },
            Event::Failure(error) => Step { phase: Phase::Failed { error }, notice: None },
            _ => Step { phase: Phase::Pushing, notice: None },
        },
        Phase::Committed { pushed } => Step { phase: Phase::Committed { pushed }, notice: None },
        Phase::Aborted { reason } => Step { phase: Phase::Aborted { reason }, notice: None },
        Phase::Failed { error } => Step { phase: Phase::Failed { error }, notice: None },
    }
}

impl Phase {
    /// Whether the run is over.
    pub fn is_final(&self) -> (r: bool)
        ensures
            r == self@.is_final(),
    {
        match self {
            Phase::Committed { .. } => true,
            Phase::Aborted { .. } => true,
            Phase::Failed { .. } => true,
            _ => false,
        }
    }

    /// The exit code of a run that is over.
    pub fn exit_code(&self) -> (code: Option<u8>)
        ensures
            code == self@.exit_code(),
    {
        match self {
            Phase::Committed { .. } => Some(0),
            Phase::Aborted { .. } => Some(0),
            Phase::Failed { .. } => Some(1),
            _ => None,
        }
    }
}

// ---------------------------------------------------------------------------------------
// Laws of a run
// ---------------------------------------------------------------------------------------

/// The phase that `events`, one after another, lead to from `phase`.
pub open spec fn run(max_retries: u32, emoji: bool, phase: PhaseView, events: Seq<Event>) -> PhaseView
    decreases events.len(),
{
    if events.len() == 0 {
        phase
    } else {
        advanced(
            max_retries,
            emoji,
            run(max_retries, emoji, phase, events.drop_last()),
            events.last(),
        ).phase
    }
}

/// Whether every one of `events` is a generation request that failed.
pub open spec fn all_requests_failed(events: Seq<Event>) -> bool {
    forall|i: int| 0 <= i < events.len() ==> (#[trigger] events[i]) matches Event::Answer(Err(_))
}

/// A backend that fails every time is asked exactly as often as the budget allows: while
/// fewer requests have failed than the budget holds, the run asks again, with the next
/// number; when as many have failed, the run has failed, and says that the budget is used
/// up.
pub proof fn law_retry_budget(max_retries: u32, emoji: bool, events: Seq<Event>)
    requires
        all_requests_failed(events),
        events.len() <= max_retries,
    ensures
        run(max_retries, emoji, first_attempt(max_retries), events) == if events.len()
            < max_retries {
            PhaseView::Generating { attempt: (events.len() + 1) as u32 }
        } else {
            PhaseView::Failed { error: RunError::Exhausted { max_retries } }
        },
    decreases events.len(),
{
    if events.len() > 0 {
        let front = events.drop_last();
        assert forall|i: int| 0 <= i < front.len() implies (#[trigger] front[i]) matches Event::Answer(
            Err(_),
        ) by {
            assert(front[i] == events[i]);
        }
        law_retry_budget(max_retries, emoji, front);
        assert(events.last() == events[events.len() - 1]);
    }
}

/// A run that is over stays as it is, whatever comes: after a failure, and so after a start
/// without staged changes, nothing is generated and nothing committed.
pub proof fn law_final_phase_stays(max_retries: u32, emoji: bool, phase: PhaseView, events: Seq<Event>)
    requires
        phase.is_final(),
    ensures
        run(max_retries, emoji, phase, events) == phase,
    decreases events.len(),
{
    if events.len() > 0 {
        law_final_phase_stays(max_retries, emoji, phase, events.drop_last());
    }
}

/// Every phase of a run is sound: the first is, and every phase that follows a sound one.
/// So a message that reaches review always has a subject, and no request has a number
/// beyond the budget.
pub proof fn law_phases_sound(max_retries: u32, emoji: bool, phase: PhaseView, event: Event)
    requires
        phase.sound(max_retries),
    ensures
        first_attempt(max_retries).sound(max_retries),
        advanced(max_retries, emoji, phase, event).phase.sound(max_retries),
{
}

/// An edit that leaves nothing but white space ends the run without a commit: the phase
/// under review is followed by the edit and then by the end, and by no commit in between.
pub proof fn law_blank_edit_aborts(
    max_retries: u32,
    emoji: bool,
    message: MessageText,
    line: String,
    edited: String,
)
    requires
        choice_in(line@) == Some(UserAction::Edit),
        is_blank(edited@),
    ensures
        advanced(
            max_retries,
            emoji,
            PhaseView::Reviewing { message },
            Event::Input(line),
        ).phase is Editing,
        run(
            max_retries,
            emoji,
            PhaseView::Reviewing { message },
            seq![Event::Input(line), Event::Edited(edited)],
        ) == (PhaseView::Aborted { reason: AbortReason::EmptyMessage }),
{
    let events = seq![Event::Input(line), Event::Edited(edited)];
    assert(events.drop_last() == seq![Event::Input(line)]);
    assert(events.drop_last().drop_last() == Seq::<Event>::empty());
    reveal_with_fuel(run, 3);
}

} // verus!
