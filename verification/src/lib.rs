//! Commit messages in the conventional format, proposed by a text-generation backend for
//! the staged changes of a repository, and accepted, edited, asked for again or dropped by
//! the operator.
//!
//! This library holds the rules: how the request is worded ([`prompt`]), how a backend is
//! asked and its reply judged ([`provider`], [`json`]), how a message is read out of an
//! answer ([`message`]) and decorated ([`emoji`]), and what a run does next ([`session`],
//! [`ui`]), with the settings ([`config`]) and the staged diff ([`git`]) that it starts
//! from. It reads no file, starts no process and sends nothing: the program around it does,
//! and hands over what came of it.

pub mod config;
pub mod emoji;
pub mod git;
pub mod json;
pub mod message;
pub mod prompt;
pub mod provider;
pub mod session;
pub mod text;
pub mod ui;
