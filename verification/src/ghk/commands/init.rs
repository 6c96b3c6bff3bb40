//! Starts tracking the current directory.

use vstd::prelude::*;
use crate::ghk::flow::{
    fail,
    need,
    said,
    silence,
    succeed,
    Facts,
    FactsView,
    Progress,
    ProgressView,
    Request,
    RequestView,
    Speech,
    Tone,
};

verus! {

/// The course of the command: nothing is done inside a repository;
/// elsewhere one is made.
pub open spec fn plan(facts: FactsView) -> ProgressView {
    match facts.is_repo {
        None => need(silence(), RequestView::IsRepo),
        Some(true) => succeed(
            silence().push(said(Tone::Warning, "Already a git repository"@)).push(
                said(Tone::Dim, "Your project folder is already set up"@),
            ),
        ),
        Some(false) => match facts.done {
            None => need(silence(), RequestView::Init),
            Some(Err(reason)) => fail(silence(), reason),
            Some(Ok(_)) => succeed(
                silence().push(said(Tone::Success, "Project folder ready"@)).push(
                    said(Tone::Dim, "Created .git folder to track your changes"@),
                ),
            ),
        },
    }
}

/// Where the command stands, given what is known.
pub fn run(facts: &Facts) -> (progress: Progress)
    ensures
        progress@ == plan(facts@),
{
    let mut speech = Speech::new();
    match facts.is_repo {
        None => speech.need(Request::IsRepo),
        Some(true) => {
            speech.say(Tone::Warning, "Already a git repository".to_owned());
            speech.say(Tone::Dim, "Your project folder is already set up".to_owned());
            speech.succeed()
        },
        Some(false) => match &facts.done {
            None => speech.need(Request::Init),
            Some(Err(reason)) => speech.fail(reason.clone()),
            Some(Ok(_)) => {
                speech.say(Tone::Success, "Project folder ready".to_owned());
                speech.say(Tone::Dim, "Created .git folder to track your changes".to_owned());
                speech.succeed()
            },
        },
    }
}

} // verus!
