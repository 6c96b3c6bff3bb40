//! Downloads a repository.

use vstd::prelude::*;
use crate::ghk::flow::{
    fail,
    need,
    said,
    silence,
    succeed,
    Facts,
    FactsView,
    MessageView,
    Progress,
    ProgressView,
    Request,
    RequestView,
    Speech,
    Tone,
};
use crate::text::{after_last, tail_after};

verus! {

/// What the user is asked where no repository was given.
pub open spec fn repo_prompt() -> RequestView {
    RequestView::Input { prompt: "Repository (owner/name or URL)"@, initial: None }
}

/// What is said before the download.
pub open spec fn cloning(repo: Seq<char>) -> Seq<MessageView> {
    silence().push(said(Tone::Info, "Cloning "@ + repo + "..."@))
}

/// The directory that the repository is downloaded to: the one that was
/// given, else the last part of the name of the repository.
pub open spec fn target_dir(repo: Seq<char>, dir: Option<Seq<char>>) -> Seq<char> {
    match dir {
        Some(dir) => dir,
        None => after_last(repo, '/'),
    }
}

/// What is said after the download.
pub open spec fn cloned(repo: Seq<char>, dir: Option<Seq<char>>) -> Seq<MessageView> {
    cloning(repo).push(
        said(Tone::Success, "Downloaded to '"@ + target_dir(repo, dir) + "'"@),
    ).push(said(Tone::Dim, "cd "@ + target_dir(repo, dir) + " to start working"@))
}

/// The course of the download of `repo`.
pub open spec fn download(repo: Seq<char>, dir: Option<Seq<char>>, facts: FactsView) -> ProgressView {
    match facts.done {
        None => need(cloning(repo), RequestView::CloneRepo { repo, dir }),
        Some(Err(reason)) => fail(cloning(repo), reason),
        Some(Ok(_)) => succeed(cloned(repo, dir)),
    }
}

/// The course of the command: it needs a connection to GitHub, and the
/// name of a repository, from the command line or from the user.
pub open spec fn plan(repo: Option<Seq<char>>, dir: Option<Seq<char>>, facts: FactsView) -> ProgressView {
    match facts.online {
        None => need(silence(), RequestView::Online),
        Some(false) => fail(
            silence().push(said(Tone::Failure, "Cannot reach GitHub"@)).push(
                said(Tone::Dim, "Check your internet connection"@),
            ),
            "Offline"@,
        ),
        Some(true) => match repo {
            Some(repo) => download(repo, dir, facts),
            None => match facts.input {
                None => need(silence(), repo_prompt()),
                Some(Err(reason)) => fail(silence(), reason),
                Some(Ok(repo)) => download(repo, dir, facts),
            },
        },
    }
}

fn copy(text: &Option<String>) -> (same: Option<String>)
    ensures
        same.deep_view() == text.deep_view(),
{
    match text {
        Some(text) => Some(text.clone()),
        None => None,
    }
}

/// Where the command stands, given what is known.
pub fn run(repo: &Option<String>, dir: &Option<String>, facts: &Facts) -> (progress: Progress)
    ensures
        progress@ == plan(repo.deep_view(), dir.deep_view(), facts@),
{
    let mut speech = Speech::new();
    match facts.online {
        None => { return speech.need(Request::Online); },
        Some(false) => {
            speech.say(Tone::Failure, "Cannot reach GitHub".to_owned());
            speech.say(Tone::Dim, "Check your internet connection".to_owned());
            return speech.fail("Offline".to_owned());
        },
        Some(true) => {},
    }
    let name: &String = match repo {
        Some(repo) => repo,
        None => match &facts.input {
            None => {
                return speech.need(
                    Request::Input {
                        prompt: "Repository (owner/name or URL)".to_owned(),
                        initial: None,
                    },
                );
            },
            Some(Err(reason)) => { return speech.fail(reason.clone()); },
            Some(Ok(repo)) => repo,
        },
    };
    speech.say(Tone::Info, "Cloning ".to_owned().concat(name.as_str()).concat("..."));
    match &facts.done {
        None => speech.need(Request::CloneRepo { repo: name.clone(), dir: copy(dir) }),
        Some(Err(reason)) => speech.fail(reason.clone()),
        Some(Ok(_)) => {
            let target = match dir {
                Some(dir) => dir.as_str(),
                None => tail_after(name.as_str(), '/'),
            };
            speech.say(Tone::Success, "Downloaded to '".to_owned().concat(target).concat("'"));
            speech.say(Tone::Dim, "cd ".to_owned().concat(target).concat(" to start working"));
            speech.succeed()
        },
    }
}

} // verus!
