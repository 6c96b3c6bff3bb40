//! Shows where the project stands.

use vstd::prelude::*;
use crate::ghk::flow::{
    blank,
    need,
    said,
    silence,
    succeed,
    summarized,
    Facts,
    FactsView,
    MessageView,
    Progress,
    ProgressView,
    Request,
    RequestView,
    Speech,
    Tone,
};
use crate::text::{decimal, to_decimal};

verus! {

/// How many changed files are named.
pub const SHOWN_FILES: usize = 5;

/// The files that are looked at: none where they could not be listed.
pub open spec fn changed(facts: FactsView) -> Seq<Seq<char>> {
    match facts.files {
        Some(Ok(files)) => files,
        _ => Seq::empty(),
    }
}

/// What is said of the changed files: their number, the first of them by
/// name, and how many there are besides.
pub open spec fn changes_report(before: Seq<MessageView>, files: Seq<Seq<char>>) -> Seq<
    MessageView,
> {
    summarized(
        before.push(said(Tone::Warning, decimal(files.len()) + " unsaved changes"@)),
        files,
        SHOWN_FILES,
    )
}

/// What is said of the account.
pub open spec fn account_report(before: Seq<MessageView>, facts: FactsView) -> ProgressView {
    match facts.logged_in {
        None => need(before.push(blank()), RequestView::LoggedIn),
        Some(true) => match facts.user {
            None => need(before.push(blank()), RequestView::WhoAmI),
            Some(_) => succeed(
                before.push(blank()).push(
                    said(Tone::Success, "GitHub: Logged in as "@ + facts.user_name()),
                ).push(blank()),
            ),
        },
        Some(false) => succeed(
            before.push(blank()).push(said(Tone::Warning, "GitHub: Not logged in"@)).push(
                said(Tone::Dim, "Run 'ghk login' to connect"@),
            ).push(blank()),
        ),
    }
}

/// What is said of the branch that is checked out, where it is known.
pub open spec fn with_branch(before: Seq<MessageView>, facts: FactsView) -> Seq<MessageView> {
    match facts.branch {
        Some(Ok(branch)) => before.push(said(Tone::Dim, "Branch: "@ + branch)),
        _ => before,
    }
}

/// What is said of the remote, where its address is known.
pub open spec fn with_remote(before: Seq<MessageView>, facts: FactsView) -> Seq<MessageView> {
    match facts.has_remote {
        Some(false) => before.push(said(Tone::Dim, "Remote: Not connected (run 'ghk create')"@)),
        _ => match facts.remote_url {
            Some(Ok(url)) => before.push(said(Tone::Dim, "Remote: "@ + url)),
            _ => before,
        },
    }
}

/// What is said first inside a repository.
pub open spec fn ready() -> Seq<MessageView> {
    silence().push(blank()).push(said(Tone::Success, "Git: Ready"@))
}

/// The course of the command inside a repository.
pub open spec fn repo_report(facts: FactsView) -> ProgressView {
    if facts.branch is None {
        need(ready(), RequestView::Branch)
    } else if facts.has_remote is None {
        need(with_branch(ready(), facts), RequestView::HasRemote)
    } else if facts.has_remote == Some(true) && facts.remote_url is None {
        need(with_branch(ready(), facts), RequestView::RemoteUrl)
    } else {
        let before = with_remote(with_branch(ready(), facts), facts);
        match facts.changes {
            None => need(before, RequestView::Changes),
            Some(Err(_)) => account_report(before, facts),
            Some(Ok(false)) => account_report(
                before.push(said(Tone::Dim, "No unsaved changes"@)),
                facts,
            ),
            Some(Ok(true)) => if facts.files is None {
                need(before, RequestView::Files)
            } else {
                account_report(changes_report(before, changed(facts)), facts)
            },
        }
    }
}

/// The course of the command. It never fails: what cannot be found out is
/// left out.
pub open spec fn plan(facts: FactsView) -> ProgressView {
    match facts.is_repo {
        None => need(silence().push(blank()), RequestView::IsRepo),
        Some(false) => account_report(
            silence().push(blank()).push(said(Tone::Warning, "Git: Not initialized"@)).push(
                said(Tone::Dim, "Run 'ghk init' to set up"@),
            ),
            facts,
        ),
        Some(true) => repo_report(facts),
    }
}

fn account(speech: Speech, facts: &Facts) -> (progress: Progress)
    ensures
        progress@ == account_report(speech@, facts@),
{
    let mut speech = speech;
    speech.blank();
    match facts.logged_in {
        None => speech.need(Request::LoggedIn),
        Some(true) => {
            if facts.user.is_none() {
                return speech.need(Request::WhoAmI);
            }
            speech.say(
                Tone::Success,
                "GitHub: Logged in as ".to_owned().concat(facts.user_name().as_str()),
            );
            speech.blank();
            speech.succeed()
        },
        Some(false) => {
            speech.say(Tone::Warning, "GitHub: Not logged in".to_owned());
            speech.say(Tone::Dim, "Run 'ghk login' to connect".to_owned());
            speech.blank();
            speech.succeed()
        },
    }
}

fn report_changes(speech: &mut Speech, files: &Vec<String>)
    ensures
        final(speech)@ == changes_report(old(speech)@, files.deep_view()),
{
    speech.say(Tone::Warning, to_decimal(files.len() as u128).concat(" unsaved changes"));
    speech.summarize(files, SHOWN_FILES);
}

/// Where the command stands, given what is known.
pub fn run(facts: &Facts) -> (progress: Progress)
    ensures
        progress@ == plan(facts@),
{
    let mut speech = Speech::new();
    speech.blank();
    match facts.is_repo {
        None => { return speech.need(Request::IsRepo); },
        Some(false) => {
            speech.say(Tone::Warning, "Git: Not initialized".to_owned());
            speech.say(Tone::Dim, "Run 'ghk init' to set up".to_owned());
            return account(speech, facts);
        },
        Some(true) => {},
    }
    speech.say(Tone::Success, "Git: Ready".to_owned());
    match &facts.branch {
        None => { return speech.need(Request::Branch); },
        Some(Ok(branch)) => {
            speech.say(Tone::Dim, "Branch: ".to_owned().concat(branch.as_str()));
        },
        Some(Err(_)) => {},
    }
    match facts.has_remote {
        None => { return speech.need(Request::HasRemote); },
        Some(true) => match &facts.remote_url {
            None => { return speech.need(Request::RemoteUrl); },
            Some(Ok(url)) => {
                speech.say(Tone::Dim, "Remote: ".to_owned().concat(url.as_str()));
            },
            Some(Err(_)) => {},
        },
        Some(false) => {
            speech.say(Tone::Dim, "Remote: Not connected (run 'ghk create')".to_owned());
        },
    }
    match &facts.changes {
        None => { return speech.need(Request::Changes); },
        Some(Err(_)) => {},
        Some(Ok(false)) => {
            speech.say(Tone::Dim, "No unsaved changes".to_owned());
        },
        Some(Ok(true)) => match &facts.files {
            None => { return speech.need(Request::Files); },
            Some(Ok(files)) => {
                report_changes(&mut speech, files);
            },
            Some(Err(_)) => {
                let none: Vec<String> = Vec::new();
                report_changes(&mut speech, &none);
            },
        },
    }
    account(speech, facts)
}

} // verus!
