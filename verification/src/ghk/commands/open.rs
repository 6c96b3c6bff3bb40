//! Opens the repository in the browser.

use vstd::prelude::*;
use crate::ghk::flow::{
    fail,
    need,
    said,
    silence,
    succeed,
    Facts,
    FactsView,
    MessageView,
    Progress,
    ProgressView,
    Request,
    RequestView,
    Speech,
    Tone,
};

verus! {

/// What is said before the browser is opened.
pub open spec fn opening() -> Seq<MessageView> {
    silence().push(said(Tone::Info, "Opening in browser..."@))
}

/// The course of the command: it needs a repository with a remote.
pub open spec fn plan(facts: FactsView) -> ProgressView {
    match facts.is_repo {
        None => need(silence(), RequestView::IsRepo),
        Some(false) => fail(
            silence().push(said(Tone::Failure, "Not a git repository"@)),
            "Not a git repository"@,
        ),
        Some(true) => match facts.has_remote {
            None => need(silence(), RequestView::HasRemote),
            Some(false) => fail(
                silence().push(said(Tone::Failure, "Not connected to GitHub"@)).push(
                    said(Tone::Dim, "Run 'ghk create' first"@),
                ),
                "No remote configured"@,
            ),
            Some(true) => match facts.done {
                None => need(opening(), RequestView::OpenRepo),
                Some(Err(reason)) => fail(opening(), reason),
                Some(Ok(_)) => succeed(opening().push(said(Tone::Success, "Opened"@))),
            },
        },
    }
}

/// Where the command stands, given what is known.
pub fn run(facts: &Facts) -> (progress: Progress)
    ensures
        progress@ == plan(facts@),
{
    let mut speech = Speech::new();
    match facts.is_repo {
        None => speech.need(Request::IsRepo),
        Some(false) => {
            speech.say(Tone::Failure, "Not a git repository".to_owned());
            speech.fail("Not a git repository".to_owned())
        },
        Some(true) => match facts.has_remote {
            None => speech.need(Request::HasRemote),
            Some(false) => {
                speech.say(Tone::Failure, "Not connected to GitHub".to_owned());
                speech.say(Tone::Dim, "Run 'ghk create' first".to_owned());
                speech.fail("No remote configured".to_owned())
            },
            Some(true) => {
                speech.say(Tone::Info, "Opening in browser...".to_owned());
                match &facts.done {
                    None => speech.need(Request::OpenRepo),
                    Some(Err(reason)) => speech.fail(reason.clone()),
                    Some(Ok(_)) => {
                        speech.say(Tone::Success, "Opened".to_owned());
                        speech.succeed()
                    },
                }
            },
        },
    }
}

} // verus!
