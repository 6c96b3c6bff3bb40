//! Creates a repository on GitHub from the current one.

use vstd::prelude::*;
use crate::ghk::flow::{
    fail,
    need,
    said,
    silence,
    succeed,
    Facts,
    FactsView,
    MessageView,
    Progress,
    ProgressView,
    Request,
    RequestView,
    Speech,
    Tone,
};

verus! {

/// The name that is offered where the current directory has none.
pub const FALLBACK_NAME: &'static str = "my-project";

/// The message of the first commit.
pub const INITIAL_COMMIT: &'static str = "Initial commit";

/// The name that is offered for the repository: that of the current
/// directory.
pub open spec fn offered(facts: FactsView) -> Seq<char> {
    match facts.dir_name {
        Some(Some(name)) => name,
        _ => FALLBACK_NAME@,
    }
}

/// What the user is asked about the name.
pub open spec fn name_prompt(facts: FactsView) -> RequestView {
    RequestView::Input { prompt: "Repository name"@, initial: Some(offered(facts)) }
}

/// What the user is asked about the visibility.
pub open spec fn private_prompt() -> RequestView {
    RequestView::Confirm { prompt: "Make it private?"@, default: false }
}

/// What is said where the repository has a remote already.
pub open spec fn connected(facts: FactsView) -> Seq<MessageView> {
    silence().push(said(Tone::Warning, "Repository already connected to GitHub"@)).push(
        said(
            Tone::Dim,
            "  "@ + (match facts.remote_url {
                Some(Ok(url)) => url,
                _ => "unknown"@,
            }),
        ),
    ).push(said(Tone::Dim, "Run 'ghk push' to save your changes"@))
}

/// What is said before the first commit.
pub open spec fn saving() -> Seq<MessageView> {
    silence().push(said(Tone::Info, "Creating initial save..."@))
}

/// The course of the creation itself.
pub open spec fn publish(
    before: Seq<MessageView>,
    name: Seq<char>,
    private: bool,
    facts: FactsView,
) -> ProgressView {
    let creating = before.push(said(Tone::Info, "Creating repository on GitHub..."@));
    match facts.done {
        None => need(creating, RequestView::CreateRepo { name, private }),
        Some(Err(reason)) => fail(creating, reason),
        Some(Ok(_)) => succeed(
            creating.push(said(Tone::Success, "Repository '"@ + name + "' created!"@)).push(
                said(Tone::Dim, "Run 'ghk push' to save your changes"@),
            ),
        ),
    }
}

/// The course of the command once the user has answered: where there are
/// changes, or no commit yet, all is staged and committed first; that the
/// commit fails does not matter.
pub open spec fn prepare(name: Seq<char>, private: bool, facts: FactsView) -> ProgressView {
    match facts.changes {
        None => need(silence(), RequestView::Changes),
        Some(Err(reason)) => fail(silence(), reason),
        Some(Ok(unsaved)) => if !unsaved && facts.has_commits is None {
            need(silence(), RequestView::HasCommits)
        } else if !unsaved && facts.has_commits == Some(true) {
            publish(silence(), name, private, facts)
        } else {
            match facts.staged {
                None => need(saving(), RequestView::AddAll),
                Some(Err(reason)) => fail(saving(), reason),
                Some(Ok(_)) => if facts.committed is None {
                    need(saving(), RequestView::Commit(INITIAL_COMMIT@))
                } else {
                    publish(saving(), name, private, facts)
                },
            }
        },
    }
}

/// The course of the command: it needs a repository without a remote, and
/// a login.
pub open spec fn plan(facts: FactsView) -> ProgressView {
    match facts.is_repo {
        None => need(silence(), RequestView::IsRepo),
        Some(false) => fail(
            silence().push(said(Tone::Failure, "Not a git repository"@)).push(
                said(Tone::Dim, "Run 'ghk init' first to set up your project"@),
            ),
            "Not a git repository"@,
        ),
        Some(true) => match facts.logged_in {
            None => need(silence(), RequestView::LoggedIn),
            Some(false) => fail(
                silence().push(said(Tone::Failure, "Not logged in to GitHub"@)).push(
                    said(Tone::Dim, "Run 'ghk login' first to connect your account"@),
                ),
                "Not logged in"@,
            ),
            Some(true) => match facts.has_remote {
                None => need(silence(), RequestView::HasRemote),
                Some(true) => match facts.remote_url {
                    None => need(silence(), RequestView::RemoteUrl),
                    Some(_) => succeed(connected(facts)),
                },
                Some(false) => match facts.dir_name {
                    None => need(silence(), RequestView::DirName),
                    Some(_) => match facts.input {
                        None => need(silence(), name_prompt(facts)),
                        Some(Err(reason)) => fail(silence(), reason),
                        Some(Ok(name)) => match facts.confirmed {
                            None => need(silence(), private_prompt()),
                            Some(Err(reason)) => fail(silence(), reason),
                            Some(Ok(private)) => prepare(name, private, facts),
                        },
                    },
                },
            },
        },
    }
}

fn publish_repo(speech: Speech, name: &String, private: bool, facts: &Facts) -> (progress: Progress)
    ensures
        progress@ == publish(speech@, name@, private, facts@),
{
    let mut speech = speech;
    speech.say(Tone::Info, "Creating repository on GitHub...".to_owned());
    match &facts.done {
        None => speech.need(Request::CreateRepo { name: name.clone(), private }),
        Some(Err(reason)) => speech.fail(reason.clone()),
        Some(Ok(_)) => {
            speech.say(
                Tone::Success,
                "Repository '".to_owned().concat(name.as_str()).concat("' created!"),
            );
            speech.say(Tone::Dim, "Run 'ghk push' to save your changes".to_owned());
            speech.succeed()
        },
    }
}

/// Where the command stands, given what is known.
pub fn run(facts: &Facts) -> (progress: Progress)
    ensures
        progress@ == plan(facts@),
{
    let mut speech = Speech::new();
    match facts.is_repo {
        None => { return speech.need(Request::IsRepo); },
        Some(false) => {
            speech.say(Tone::Failure, "Not a git repository".to_owned());
            speech.say(Tone::Dim, "Run 'ghk init' first to set up your project".to_owned());
            return speech.fail("Not a git repository".to_owned());
        },
        Some(true) => {},
    }
    match facts.logged_in {
        None => { return speech.need(Request::LoggedIn); },
        Some(false) => {
            speech.say(Tone::Failure, "Not logged in to GitHub".to_owned());
            speech.say(Tone::Dim, "Run 'ghk login' first to connect your account".to_owned());
            return speech.fail("Not logged in".to_owned());
        },
        Some(true) => {},
    }
    match facts.has_remote {
        None => { return speech.need(Request::HasRemote); },
        Some(true) => {
            let url = match &facts.remote_url {
                None => { return speech.need(Request::RemoteUrl); },
                Some(Ok(url)) => url.clone(),
                Some(Err(_)) => "unknown".to_owned(),
            };
            speech.say(Tone::Warning, "Repository already connected to GitHub".to_owned());
            speech.say(Tone::Dim, "  ".to_owned().concat(url.as_str()));
            speech.say(Tone::Dim, "Run 'ghk push' to save your changes".to_owned());
            return speech.succeed();
        },
        Some(false) => {},
    }
    let offer = match &facts.dir_name {
        None => { return speech.need(Request::DirName); },
        Some(Some(name)) => name.clone(),
        Some(None) => FALLBACK_NAME.to_owned(),
    };
    let name = match &facts.input {
        None => {
            return speech.need(
                Request::Input { prompt: "Repository name".to_owned(), initial: Some(offer) },
            );
        },
        Some(Err(reason)) => { return speech.fail(reason.clone()); },
        Some(Ok(name)) => name,
    };
    let private = match &facts.confirmed {
        None => {
            return speech.need(
                Request::Confirm { prompt: "Make it private?".to_owned(), default: false },
            );
        },
        Some(Err(reason)) => { return speech.fail(reason.clone()); },
        Some(Ok(private)) => *private,
    };
    let unsaved = match &facts.changes {
        None => { return speech.need(Request::Changes); },
        Some(Err(reason)) => { return speech.fail(reason.clone()); },
        Some(Ok(unsaved)) => *unsaved,
    };
    if !unsaved {
        match facts.has_commits {
            None => { return speech.need(Request::HasCommits); },
            Some(true) => { return publish_repo(speech, name, private, facts); },
            Some(false) => {},
        }
    }
    speech.say(Tone::Info, "Creating initial save...".to_owned());
    match &facts.staged {
        None => { return speech.need(Request::AddAll); },
        Some(Err(reason)) => { return speech.fail(reason.clone()); },
        Some(Ok(_)) => {},
    }
    if facts.committed.is_none() {
        return speech.need(Request::Commit(INITIAL_COMMIT.to_owned()));
    }
    publish_repo(speech, name, private, facts)
}

} // verus!
