//! Connects to GitHub.

use vstd::prelude::*;
use crate::ghk::flow::{
    fail,
    need,
    said,
    silence,
    succeed,
    Facts,
    FactsView,
    Progress,
    ProgressView,
    Request,
    RequestView,
    Speech,
    Tone,
};

verus! {

/// What is said to a user who is logged in already.
pub open spec fn already(facts: FactsView) -> Seq<crate::ghk::flow::MessageView> {
    silence().push(said(Tone::Success, "Already logged in as "@ + facts.user_name())).push(
        said(Tone::Dim, "Run 'ghk logout' first if you want to switch accounts"@),
    )
}

/// What is said before the login.
pub open spec fn opening() -> Seq<crate::ghk::flow::MessageView> {
    silence().push(said(Tone::Info, "Opening GitHub login..."@))
}

/// The course of the command: a user who is logged in is told so; another
/// is sent through the login and told what came of it.
pub open spec fn plan(facts: FactsView) -> ProgressView {
    match facts.logged_in {
        None => need(silence(), RequestView::LoggedIn),
        Some(true) => match facts.user {
            None => need(silence(), RequestView::WhoAmI),
            Some(_) => succeed(already(facts)),
        },
        Some(false) => match facts.done {
            None => need(opening(), RequestView::Login),
            Some(Err(reason)) => fail(opening(), reason),
            Some(Ok(_)) => match facts.logged_in_after {
                None => need(opening(), RequestView::LoggedInAfter),
                Some(false) => succeed(opening().push(said(Tone::Warning, "Login was cancelled"@))),
                Some(true) => match facts.user {
                    None => need(opening(), RequestView::WhoAmI),
                    Some(_) => succeed(
                        opening().push(said(Tone::Success, "Connected as "@ + facts.user_name())),
                    ),
                },
            },
        },
    }
}

/// Where the command stands, given what is known.
pub fn run(facts: &Facts) -> (progress: Progress)
    ensures
        progress@ == plan(facts@),
{
    let mut speech = Speech::new();
    match facts.logged_in {
        None => speech.need(Request::LoggedIn),
        Some(true) => {
            if facts.user.is_none() {
                return speech.need(Request::WhoAmI);
            }
            speech.say(
                Tone::Success,
                "Already logged in as ".to_owned().concat(facts.user_name().as_str()),
            );
            speech.say(
                Tone::Dim,
                "Run 'ghk logout' first if you want to switch accounts".to_owned(),
            );
            speech.succeed()
        },
        Some(false) => {
            speech.say(Tone::Info, "Opening GitHub login...".to_owned());
            match &facts.done {
                None => speech.need(Request::Login),
                Some(Err(reason)) => speech.fail(reason.clone()),
                Some(Ok(_)) => match facts.logged_in_after {
                    None => speech.need(Request::LoggedInAfter),
                    Some(false) => {
                        speech.say(Tone::Warning, "Login was cancelled".to_owned());
                        speech.succeed()
                    },
                    Some(true) => {
                        if facts.user.is_none() {
                            return speech.need(Request::WhoAmI);
                        }
                        speech.say(
                            Tone::Success,
                            "Connected as ".to_owned().concat(facts.user_name().as_str()),
                        );
                        speech.succeed()
                    },
                },
            }
        },
    }
}

} // verus!
