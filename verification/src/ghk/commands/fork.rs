//! Forks a repository on GitHub.

use vstd::prelude::*;
use crate::ghk::config::{Config, ConfigView};
use crate::ghk::flow::{
    fail,
    need,
    said,
    silence,
    succeed,
    Facts,
    FactsView,
    MessageView,
    Progress,
    ProgressView,
    Request,
    RequestView,
    Speech,
    Tone,
};

verus! {

/// What the user is asked where no repository is given and none is found.
pub open spec fn upstream_prompt() -> RequestView {
    RequestView::Input { prompt: "Repository to fork (owner/repo or URL)"@, initial: None }
}

/// What is said after the fork.
pub open spec fn forked(owner: Seq<char>) -> Seq<MessageView> {
    silence().push(said(Tone::Success, "Repository forked into '"@ + owner + "'!"@)).push(
        said(Tone::Dim, "Security features have been enabled:"@),
    ).push(said(Tone::Success, "  dependency graph"@)).push(
        said(Tone::Success, "  security updates"@),
    ).push(said(Tone::Dim, "Run 'ghk push' to save your changes"@))
}

/// The course of the fork of `upstream`: into the organization of the
/// settings where there is one, otherwise into the account of the user.
pub open spec fn fork_into(cfg: ConfigView, upstream: Seq<char>, facts: FactsView) -> ProgressView {
    match cfg.org {
        Some(owner) => fork_for(upstream, owner, facts),
        None => match facts.user {
            None => need(silence(), RequestView::WhoAmI),
            Some(Err(reason)) => fail(silence(), reason),
            Some(Ok(owner)) => fork_for(upstream, owner, facts),
        },
    }
}

/// The course of the fork of `upstream` into the account of `owner`.
pub open spec fn fork_for(upstream: Seq<char>, owner: Seq<char>, facts: FactsView) -> ProgressView {
    match facts.done {
        None => need(silence(), RequestView::ForkRepo { upstream, owner }),
        Some(Err(reason)) => fail(silence(), reason),
        Some(Ok(_)) => succeed(forked(owner)),
    }
}

/// The course of the command: it needs a login; the repository to fork is
/// the one that was given, else the remote of the current repository, else
/// what the user names.
pub open spec fn plan(cfg: ConfigView, target: Option<Seq<char>>, facts: FactsView) -> ProgressView {
    match facts.logged_in {
        None => need(silence(), RequestView::LoggedIn),
        Some(false) => fail(
            silence().push(said(Tone::Failure, "Not logged in to GitHub"@)).push(
                said(Tone::Dim, "Run 'ghk login' first to connect your account"@),
            ),
            "Not logged in"@,
        ),
        Some(true) => match target {
            Some(upstream) => fork_into(cfg, upstream, facts),
            None => match facts.is_repo {
                None => need(silence(), RequestView::IsRepo),
                Some(true) => match facts.remote_url {
                    None => need(silence(), RequestView::RemoteUrl),
                    Some(Err(_)) => fail(
                        silence(),
                        "Could not determine remote URL of current repo"@,
                    ),
                    Some(Ok(upstream)) => fork_into(cfg, upstream, facts),
                },
                Some(false) => match facts.input {
                    None => need(silence(), upstream_prompt()),
                    Some(Err(reason)) => fail(silence(), reason),
                    Some(Ok(upstream)) => fork_into(cfg, upstream, facts),
                },
            },
        },
    }
}

/// Where the command stands, given what is known.
pub fn run(cfg: &Config, target: &Option<String>, facts: &Facts) -> (progress: Progress)
    ensures
        progress@ == plan(cfg@, target.deep_view(), facts@),
{
    let mut speech = Speech::new();
    match facts.logged_in {
        None => { return speech.need(Request::LoggedIn); },
        Some(false) => {
            speech.say(Tone::Failure, "Not logged in to GitHub".to_owned());
            speech.say(Tone::Dim, "Run 'ghk login' first to connect your account".to_owned());
            return speech.fail("Not logged in".to_owned());
        },
        Some(true) => {},
    }
    let upstream: &String = match target {
        Some(upstream) => upstream,
        None => match facts.is_repo {
            None => { return speech.need(Request::IsRepo); },
            Some(true) => match &facts.remote_url {
                None => { return speech.need(Request::RemoteUrl); },
                Some(Err(_)) => {
                    return speech.fail(
                        "Could not determine remote URL of current repo".to_owned(),
                    );
                },
                Some(Ok(upstream)) => upstream,
            },
            Some(false) => match &facts.input {
                None => {
                    return speech.need(
                        Request::Input {
                            prompt: "Repository to fork (owner/repo or URL)".to_owned(),
                            initial: None,
                        },
                    );
                },
                Some(Err(reason)) => { return speech.fail(reason.clone()); },
                Some(Ok(upstream)) => upstream,
            },
        },
    };
    let owner: &String = match &cfg.org {
        Some(owner) => owner,
        None => match &facts.user {
            None => { return speech.need(Request::WhoAmI); },
            Some(Err(reason)) => { return speech.fail(reason.clone()); },
            Some(Ok(owner)) => owner,
        },
    };
    match &facts.done {
        None => speech.need(
            Request::ForkRepo { upstream: upstream.clone(), owner: owner.clone() },
        ),
        Some(Err(reason)) => speech.fail(reason.clone()),
        Some(Ok(_)) => {
            speech.say(
                Tone::Success,
                "Repository forked into '".to_owned().concat(owner.as_str()).concat("'!"),
            );
            speech.say(Tone::Dim, "Security features have been enabled:".to_owned());
            speech.say(Tone::Success, "  dependency graph".to_owned());
            speech.say(Tone::Success, "  security updates".to_owned());
            speech.say(Tone::Dim, "Run 'ghk push' to save your changes".to_owned());
            speech.succeed()
        },
    }
}

} // verus!
