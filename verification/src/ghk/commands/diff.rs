//! Shows the changes before they are saved.

use vstd::prelude::*;
use crate::ghk::flow::{
    blank,
    fail,
    need,
    said,
    silence,
    succeed,
    Facts,
    FactsView,
    Progress,
    ProgressView,
    Request,
    RequestView,
    Speech,
    Tone,
};
use crate::text::{decimal, to_decimal};

verus! {

/// What stands before a line of the diff, by the mark of the line: green
/// for what was added, red for what was taken away, bold for the headers
/// of files and hunks, yellow for other data, nothing else.
pub open spec fn paint_start(origin: char) -> Seq<char> {
    if origin == '+' {
        "\x1b[32m"@
    } else if origin == '-' {
        "\x1b[31m"@
    } else if origin == 'H' {
        "\x1b[1;36m"@
    } else if origin == 'F' {
        "\x1b[1;35m"@
    } else if origin == 'B' || origin == 'M' {
        "\x1b[33m"@
    } else {
        ""@
    }
}

/// A line of the diff in its color.
pub open spec fn painted(origin: char, text: Seq<char>) -> Seq<char> {
    if paint_start(origin).len() == 0 {
        text
    } else {
        paint_start(origin) + text + "\x1b[0m"@
    }
}

/// A line of the diff in its color.
pub fn paint(origin: char, text: &str) -> (line: String)
    ensures
        line@ == painted(origin, text@),
{
    let start = if origin == '+' {
        "\x1b[32m"
    } else if origin == '-' {
        "\x1b[31m"
    } else if origin == 'H' {
        "\x1b[1;36m"
    } else if origin == 'F' {
        "\x1b[1;35m"
    } else if origin == 'B' || origin == 'M' {
        "\x1b[33m"
    } else {
        ""
    };
    proof {
        reveal_strlit("\x1b[32m");
        reveal_strlit("\x1b[31m");
        reveal_strlit("\x1b[1;36m");
        reveal_strlit("\x1b[1;35m");
        reveal_strlit("\x1b[33m");
        reveal_strlit("");
    }
    if start.unicode_len() == 0 {
        text.to_owned()
    } else {
        start.to_owned().concat(text).concat("\x1b[0m")
    }
}

/// The course of the command.
pub open spec fn plan(facts: FactsView) -> ProgressView {
    match facts.is_repo {
        None => need(silence(), RequestView::IsRepo),
        Some(false) => fail(
            silence().push(said(Tone::Failure, "Not a git repository"@)),
            "Not a git repository"@,
        ),
        Some(true) => match facts.changes {
            None => need(silence(), RequestView::Changes),
            Some(Err(reason)) => fail(silence(), reason),
            Some(Ok(false)) => succeed(silence().push(said(Tone::Success, "No changes"@))),
            Some(Ok(true)) => match facts.done {
                None => need(silence(), RequestView::ShowDiff),
                Some(Err(reason)) => fail(silence(), reason),
                Some(Ok(_)) => match facts.files {
                    None => need(silence().push(blank()), RequestView::Files),
                    Some(Err(reason)) => fail(silence().push(blank()), reason),
                    Some(Ok(files)) => succeed(
                        silence().push(blank()).push(
                            said(Tone::Info, decimal(files.len()) + " file(s) changed"@),
                        ),
                    ),
                },
            },
        },
    }
}

/// Where the command stands, given what is known.
pub fn run(facts: &Facts) -> (progress: Progress)
    ensures
        progress@ == plan(facts@),
{
    let mut speech = Speech::new();
    match facts.is_repo {
        None => { return speech.need(Request::IsRepo); },
        Some(false) => {
            speech.say(Tone::Failure, "Not a git repository".to_owned());
            return speech.fail("Not a git repository".to_owned());
        },
        Some(true) => {},
    }
    match &facts.changes {
        None => { return speech.need(Request::Changes); },
        Some(Err(reason)) => { return speech.fail(reason.clone()); },
        Some(Ok(false)) => {
            speech.say(Tone::Success, "No changes".to_owned());
            return speech.succeed();
        },
        Some(Ok(true)) => {},
    }
    match &facts.done {
        None => { return speech.need(Request::ShowDiff); },
        Some(Err(reason)) => { return speech.fail(reason.clone()); },
        Some(Ok(_)) => {},
    }
    speech.blank();
    match &facts.files {
        None => speech.need(Request::Files),
        Some(Err(reason)) => speech.fail(reason.clone()),
        Some(Ok(files)) => {
            speech.say(
                Tone::Info,
                to_decimal(files.len() as u128).concat(" file(s) changed"),
            );
            speech.succeed()
        },
    }
}

} // verus!
