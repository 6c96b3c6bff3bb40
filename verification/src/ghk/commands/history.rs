//! Shows the recent commits.

use vstd::prelude::*;
use crate::ghk::flow::{
    blank,
    fail,
    listed,
    need,
    said,
    silence,
    succeed,
    Facts,
    FactsView,
    MessageView,
    Progress,
    ProgressView,
    Request,
    RequestView,
    Speech,
    Tone,
};
use crate::text::{decimal, to_decimal};

verus! {

/// How many commits are shown where no number is given.
pub const DEFAULT_COUNT: usize = 10;

/// How many commits are asked for.
pub open spec fn wanted(count: Option<usize>) -> usize {
    match count {
        Some(n) => n,
        None => DEFAULT_COUNT,
    }
}

/// What is shown of the commits: the commits, and where there may be more
/// of them than were asked for, how to see twice as many.
pub open spec fn shown(commits: Seq<Seq<char>>, n: usize) -> Seq<MessageView> {
    let list = listed(silence().push(blank()).push(said(Tone::Info, "Recent saves:"@)), commits);
    (if commits.len() == n {
        list.push(
            said(
                Tone::Dim,
                "  ... use 'ghk history "@ + decimal((n * 2) as nat) + "' to see more"@,
            ),
        )
    } else {
        list
    }).push(blank())
}

/// The course of the command.
pub open spec fn plan(count: Option<usize>, facts: FactsView) -> ProgressView {
    match facts.is_repo {
        None => need(silence(), RequestView::IsRepo),
        Some(false) => fail(
            silence().push(said(Tone::Failure, "Not a git repository"@)),
            "Not a git repository"@,
        ),
        Some(true) => match facts.history {
            None => need(silence(), RequestView::History(wanted(count))),
            Some(Err(reason)) => fail(silence(), reason),
            Some(Ok(commits)) => if commits.len() == 0 {
                succeed(
                    silence().push(said(Tone::Warning, "No history yet"@)).push(
                        said(Tone::Dim, "Make some changes and run 'ghk push'"@),
                    ),
                )
            } else {
                succeed(shown(commits, wanted(count)))
            },
        },
    }
}

/// Where the command stands, given what is known.
pub fn run(count: Option<usize>, facts: &Facts) -> (progress: Progress)
    ensures
        progress@ == plan(count, facts@),
{
    let mut speech = Speech::new();
    match facts.is_repo {
        None => { return speech.need(Request::IsRepo); },
        Some(false) => {
            speech.say(Tone::Failure, "Not a git repository".to_owned());
            return speech.fail("Not a git repository".to_owned());
        },
        Some(true) => {},
    }
    let n = match count {
        Some(n) => n,
        None => DEFAULT_COUNT,
    };
    let commits = match &facts.history {
        None => { return speech.need(Request::History(n)); },
        Some(Err(reason)) => { return speech.fail(reason.clone()); },
        Some(Ok(commits)) => commits,
    };
    if commits.len() == 0 {
        speech.say(Tone::Warning, "No history yet".to_owned());
        speech.say(Tone::Dim, "Make some changes and run 'ghk push'".to_owned());
        return speech.succeed();
    }
    speech.blank();
    speech.say(Tone::Info, "Recent saves:".to_owned());
    speech.list(commits);
    if commits.len() == n {
        let twice = (n as u128) * 2;
        speech.say(
            Tone::Dim,
            "  ... use 'ghk history ".to_owned().concat(to_decimal(twice).as_str()).concat(
                "' to see more",
            ),
        );
    }
    speech.blank();
    speech.succeed()
}

} // verus!
