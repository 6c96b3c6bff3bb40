//! Disconnects from GitHub.

use vstd::prelude::*;
use crate::ghk::flow::{
    fail,
    need,
    said,
    silence,
    succeed,
    Facts,
    FactsView,
    MessageView,
    Progress,
    ProgressView,
    Request,
    RequestView,
    Speech,
    Tone,
};

verus! {

/// What is said before the logout.
pub open spec fn leaving(facts: FactsView) -> Seq<MessageView> {
    silence().push(said(Tone::Info, "Logging out from "@ + facts.user_name() + "..."@))
}

/// The course of the command: nothing is done for a user who is not logged
/// in; another is logged out.
pub open spec fn plan(facts: FactsView) -> ProgressView {
    match facts.logged_in {
        None => need(silence(), RequestView::LoggedIn),
        Some(false) => succeed(
            silence().push(said(Tone::Warning, "Not logged in"@)).push(
                said(Tone::Dim, "Nothing to do"@),
            ),
        ),
        Some(true) => match facts.user {
            None => need(silence(), RequestView::WhoAmI),
            Some(_) => match facts.done {
                None => need(leaving(facts), RequestView::Logout),
                Some(Err(reason)) => fail(leaving(facts), reason),
                Some(Ok(_)) => succeed(leaving(facts).push(said(Tone::Success, "Logged out"@))),
            },
        },
    }
}

/// Where the command stands, given what is known.
pub fn run(facts: &Facts) -> (progress: Progress)
    ensures
        progress@ == plan(facts@),
{
    let mut speech = Speech::new();
    match facts.logged_in {
        None => speech.need(Request::LoggedIn),
        Some(false) => {
            speech.say(Tone::Warning, "Not logged in".to_owned());
            speech.say(Tone::Dim, "Nothing to do".to_owned());
            speech.succeed()
        },
        Some(true) => {
            if facts.user.is_none() {
                return speech.need(Request::WhoAmI);
            }
            speech.say(
                Tone::Info,
                "Logging out from ".to_owned().concat(facts.user_name().as_str()).concat("..."),
            );
            match &facts.done {
                None => speech.need(Request::Logout),
                Some(Err(reason)) => speech.fail(reason.clone()),
                Some(Ok(_)) => {
                    speech.say(Tone::Success, "Logged out".to_owned());
                    speech.succeed()
                },
            }
        },
    }
}

} // verus!
