//! Downloads the changes from GitHub.

use vstd::prelude::*;
use crate::ghk::flow::{
    fail,
    need,
    said,
    silence,
    succeed,
    Facts,
    FactsView,
    MessageView,
    Progress,
    ProgressView,
    Request,
    RequestView,
    Speech,
    Tone,
};

verus! {

/// What is said before the pull: a warning where there are changes that
/// are not saved.
pub open spec fn syncing(unsaved: bool) -> Seq<MessageView> {
    (if unsaved {
        silence().push(said(Tone::Warning, "You have unsaved changes"@)).push(
            said(Tone::Dim, "Consider running 'ghk push' first"@),
        )
    } else {
        silence()
    }).push(said(Tone::Info, "Syncing from GitHub..."@))
}

/// The course of the command: it needs a repository with a remote and a
/// connection to GitHub, in this order.
pub open spec fn plan(facts: FactsView) -> ProgressView {
    match facts.is_repo {
        None => need(silence(), RequestView::IsRepo),
        Some(false) => fail(
            silence().push(said(Tone::Failure, "Not a git repository"@)).push(
                said(Tone::Dim, "Run 'ghk init' first"@),
            ),
            "Not a git repository"@,
        ),
        Some(true) => match facts.has_remote {
            None => need(silence(), RequestView::HasRemote),
            Some(false) => fail(
                silence().push(said(Tone::Failure, "Not connected to GitHub"@)).push(
                    said(Tone::Dim, "Run 'ghk create' first"@),
                ),
                "No remote configured"@,
            ),
            Some(true) => match facts.online {
                None => need(silence(), RequestView::Online),
                Some(false) => fail(
                    silence().push(said(Tone::Failure, "Cannot reach GitHub"@)).push(
                        said(Tone::Dim, "Check your internet connection"@),
                    ),
                    "Offline"@,
                ),
                Some(true) => match facts.changes {
                    None => need(silence(), RequestView::Changes),
                    Some(Err(reason)) => fail(silence(), reason),
                    Some(Ok(unsaved)) => match facts.done {
                        None => need(syncing(unsaved), RequestView::Pull),
                        Some(Err(reason)) => fail(syncing(unsaved), reason),
                        Some(Ok(_)) => succeed(
                            syncing(unsaved).push(said(Tone::Success, "Synced!"@)),
                        ),
                    },
                },
            },
        },
    }
}

/// Where the command stands, given what is known.
pub fn run(facts: &Facts) -> (progress: Progress)
    ensures
        progress@ == plan(facts@),
{
    let mut speech = Speech::new();
    match facts.is_repo {
        None => { return speech.need(Request::IsRepo); },
        Some(false) => {
            speech.say(Tone::Failure, "Not a git repository".to_owned());
            speech.say(Tone::Dim, "Run 'ghk init' first".to_owned());
            return speech.fail("Not a git repository".to_owned());
        },
        Some(true) => {},
    }
    match facts.has_remote {
        None => { return speech.need(Request::HasRemote); },
        Some(false) => {
            speech.say(Tone::Failure, "Not connected to GitHub".to_owned());
            speech.say(Tone::Dim, "Run 'ghk create' first".to_owned());
            return speech.fail("No remote configured".to_owned());
        },
        Some(true) => {},
    }
    match facts.online {
        None => { return speech.need(Request::Online); },
        Some(false) => {
            speech.say(Tone::Failure, "Cannot reach GitHub".to_owned());
            speech.say(Tone::Dim, "Check your internet connection".to_owned());
            return speech.fail("Offline".to_owned());
        },
        Some(true) => {},
    }
    match &facts.changes {
        None => { return speech.need(Request::Changes); },
        Some(Err(reason)) => { return speech.fail(reason.clone()); },
        Some(Ok(unsaved)) => {
            if *unsaved {
                speech.say(Tone::Warning, "You have unsaved changes".to_owned());
                speech.say(Tone::Dim, "Consider running 'ghk push' first".to_owned());
            }
        },
    }
    speech.say(Tone::Info, "Syncing from GitHub...".to_owned());
    match &facts.done {
        None => speech.need(Request::Pull),
        Some(Err(reason)) => speech.fail(reason.clone()),
        Some(Ok(_)) => {
            speech.say(Tone::Success, "Synced!".to_owned());
            speech.succeed()
        },
    }
}

} // verus!
