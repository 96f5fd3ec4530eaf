//! What the operator may answer.

use crate::text::{
    ascii_lower, char_ascii_lower, chars_of, lowercased, same_text, to_lowercase, trim, trimmed,
};
use vstd::prelude::*;

verus! {

/// What the operator chooses to do with a proposed message.
#[derive(Debug, Clone, Copy, PartialEq, Eq)]
pub enum UserAction {
    Accept,
    Edit,
    Regenerate,
    Quit,
}

/// The choice that a typed line stands for, by the first character that is not white space,
/// in either case: `a` or `y` accepts, `e` edits, `r` asks for another message, `q` or `n`
/// quits. Any other line, an empty one too, stands for no choice.
pub open spec fn choice_in(input: Seq<char>) -> Option<UserAction> {
    let line = trimmed(input);
    if line.len() == 0 {
        None
    } else {
        let c = ascii_lower(line[0]);
        if c == 'a' || c == 'y' {
            Some(UserAction::Accept)
        } else if c == 'e' {
            Some(UserAction::Edit)
        } else if c == 'r' {
            Some(UserAction::Regenerate)
        } else if c == 'q' || c == 'n' {
            Some(UserAction::Quit)
        } else {
            None
        }
    }
}

/// Whether a typed line asks for the push: it does when, trimmed, it is the letter `y` in
/// either case.
pub open spec fn confirms(input: Seq<char>) -> bool {
    lowercased(trimmed(input)) == "y"@
}

impl UserAction {
    /// The choice that a typed line stands for; `None` asks for the line to be typed again.
    pub fn from_input(input: &str) -> (choice: Option<UserAction>)
        ensures
            choice == choice_in(input@),
    {
        let chars = chars_of(input);
        let line = trim(chars.as_slice());
        if line.len() == 0 {
            return None;
        }
        let c = char_ascii_lower(line[0]);
        if c == 'a' || c == 'y' {
            Some(UserAction::Accept)
        } else if c == 'e' {
            Some(UserAction::Edit)
        } else if c == 'r' {
            Some(UserAction::Regenerate)
        } else if c == 'q' || c == 'n' {
            Some(UserAction::Quit)
        } else {
            None
        }
    }
}

/// Whether a typed line asks for the push.
pub fn confirms_push(input: &str) -> (yes: bool)
    ensures
        yes == confirms(input@),
{
    let chars = chars_of(input);
    let line = trim(chars.as_slice());
    let lower = to_lowercase(line.as_slice());
    same_text(lower.as_slice(), chars_of("y").as_slice())
}

} // verus!
