//! Shows the GitHub accounts, or switches between them.

use vstd::prelude::*;
use crate::cli::{UserCmd, UserCmdView};
use crate::ghk::flow::{
    fail,
    need,
    said,
    silence,
    succeed,
    Facts,
    FactsView,
    MessageView,
    Progress,
    ProgressView,
    Request,
    RequestView,
    Speech,
    Tone,
};

verus! {

/// What is said before the accounts are shown.
pub open spec fn listing() -> Seq<MessageView> {
    silence().push(said(Tone::Success, "Your accounts:"@))
}

/// What is said before the account is switched.
pub open spec fn switching(name: Seq<char>) -> Seq<MessageView> {
    silence().push(said(Tone::Info, "Switching to "@ + name + "..."@))
}

/// The course of the command. Without a login there is nothing to show and
/// nothing to switch, which is no error.
pub open spec fn plan(cmd: UserCmdView, facts: FactsView) -> ProgressView {
    match facts.logged_in {
        None => need(silence(), RequestView::LoggedIn),
        Some(false) => match cmd {
            UserCmdView::List => succeed(
                silence().push(said(Tone::Warning, "No accounts found"@)).push(
                    said(Tone::Dim, "Run 'ghk login' to connect your GitHub account"@),
                ),
            ),
            UserCmdView::Switch { .. } => succeed(
                silence().push(said(Tone::Warning, "Not logged in"@)).push(
                    said(Tone::Dim, "Run 'ghk login' first"@),
                ),
            ),
        },
        Some(true) => match cmd {
            UserCmdView::List => match facts.done {
                None => need(listing(), RequestView::ListUsers),
                Some(Err(reason)) => fail(listing(), reason),
                Some(Ok(_)) => succeed(listing()),
            },
            UserCmdView::Switch { name } => match facts.done {
                None => need(switching(name), RequestView::SwitchUser(name)),
                Some(Err(reason)) => fail(switching(name), reason),
                Some(Ok(_)) => succeed(
                    switching(name).push(said(Tone::Success, "Now using "@ + name)),
                ),
            },
        },
    }
}

/// Where the command stands, given what is known.
pub fn run(cmd: &UserCmd, facts: &Facts) -> (progress: Progress)
    ensures
        progress@ == plan(cmd@, facts@),
{
    let mut speech = Speech::new();
    match facts.logged_in {
        None => speech.need(Request::LoggedIn),
        Some(false) => {
            match cmd {
                UserCmd::List => {
                    speech.say(Tone::Warning, "No accounts found".to_owned());
                    speech.say(
                        Tone::Dim,
                        "Run 'ghk login' to connect your GitHub account".to_owned(),
                    );
                },
                UserCmd::Switch { .. } => {
                    speech.say(Tone::Warning, "Not logged in".to_owned());
                    speech.say(Tone::Dim, "Run 'ghk login' first".to_owned());
                },
            }
            speech.succeed()
        },
        Some(true) => match cmd {
            UserCmd::List => {
                speech.say(Tone::Success, "Your accounts:".to_owned());
                match &facts.done {
                    None => speech.need(Request::ListUsers),
                    Some(Err(reason)) => speech.fail(reason.clone()),
                    Some(Ok(_)) => speech.succeed(),
                }
            },
            UserCmd::Switch { name } => {
                speech.say(
                    Tone::Info,
                    "Switching to ".to_owned().concat(name.as_str()).concat("..."),
                );
                match &facts.done {
                    None => speech.need(Request::SwitchUser(name.clone())),
                    Some(Err(reason)) => speech.fail(reason.clone()),
                    Some(Ok(_)) => {
                        speech.say(Tone::Success, "Now using ".to_owned().concat(name.as_str()));
                        speech.succeed()
                    },
                }
            },
        },
    }
}

} // verus!
