//! Takes the last commit back and keeps its changes.

use vstd::prelude::*;
use crate::ghk::flow::{
    fail,
    need,
    said,
    silence,
    succeed,
    Facts,
    FactsView,
    MessageView,
    Progress,
    ProgressView,
    Request,
    RequestView,
    Speech,
    Tone,
};

verus! {

/// What the user is asked before the commit is taken back.
pub open spec fn question() -> RequestView {
    RequestView::Confirm { prompt: "Undo this commit? (changes will be kept)"@, default: false }
}

/// What is shown of the commit that is to be taken back.
pub open spec fn last_commit(commit: Seq<char>) -> Seq<MessageView> {
    silence().push(said(Tone::Info, "Last commit:"@)).push(said(Tone::Dim, "  "@ + commit))
}

/// The course of the command: the last commit is shown, and taken back
/// only if the user agrees.
pub open spec fn plan(facts: FactsView) -> ProgressView {
    match facts.is_repo {
        None => need(silence(), RequestView::IsRepo),
        Some(false) => fail(
            silence().push(said(Tone::Failure, "Not a git repository"@)),
            "Not a git repository"@,
        ),
        Some(true) => match facts.history {
            None => need(silence(), RequestView::History(1)),
            Some(Err(reason)) => fail(silence(), reason),
            Some(Ok(commits)) => if commits.len() == 0 {
                succeed(silence().push(said(Tone::Warning, "No commits to undo"@)))
            } else {
                match facts.confirmed {
                    None => need(last_commit(commits[0]), question()),
                    Some(Err(reason)) => fail(last_commit(commits[0]), reason),
                    Some(Ok(false)) => succeed(
                        last_commit(commits[0]).push(said(Tone::Dim, "Cancelled"@)),
                    ),
                    Some(Ok(true)) => match facts.done {
                        None => need(last_commit(commits[0]), RequestView::UndoLast),
                        Some(Err(reason)) => fail(last_commit(commits[0]), reason),
                        Some(Ok(_)) => succeed(
                            last_commit(commits[0]).push(said(Tone::Success, "Commit undone"@)).push(
                                said(Tone::Dim, "Your changes are still there, just uncommitted"@),
                            ),
                        ),
                    },
                }
            },
        },
    }
}

/// Where the command stands, given what is known.
pub fn run(facts: &Facts) -> (progress: Progress)
    ensures
        progress@ == plan(facts@),
{
    let mut speech = Speech::new();
    match facts.is_repo {
        None => { return speech.need(Request::IsRepo); },
        Some(false) => {
            speech.say(Tone::Failure, "Not a git repository".to_owned());
            return speech.fail("Not a git repository".to_owned());
        },
        Some(true) => {},
    }
    let commits = match &facts.history {
        None => { return speech.need(Request::History(1)); },
        Some(Err(reason)) => { return speech.fail(reason.clone()); },
        Some(Ok(commits)) => commits,
    };
    if commits.len() == 0 {
        speech.say(Tone::Warning, "No commits to undo".to_owned());
        return speech.succeed();
    }
    speech.say(Tone::Info, "Last commit:".to_owned());
    speech.say(Tone::Dim, "  ".to_owned().concat(commits[0].as_str()));
    match &facts.confirmed {
        None => speech.need(
            Request::Confirm {
                prompt: "Undo this commit? (changes will be kept)".to_owned(),
                default: false,
            },
        ),
        Some(Err(reason)) => speech.fail(reason.clone()),
        Some(Ok(false)) => {
            speech.say(Tone::Dim, "Cancelled".to_owned());
            speech.succeed()
        },
        Some(Ok(true)) => match &facts.done {
            None => speech.need(Request::UndoLast),
            Some(Err(reason)) => speech.fail(reason.clone()),
            Some(Ok(_)) => {
                speech.say(Tone::Success, "Commit undone".to_owned());
                speech.say(
                    Tone::Dim,
                    "Your changes are still there, just uncommitted".to_owned(),
                );
                speech.succeed()
            },
        },
    }
}

} // verus!
