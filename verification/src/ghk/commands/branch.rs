//! Lists the branches, or switches to one.

use vstd::prelude::*;
use crate::ghk::flow::{
    blank,
    fail,
    need,
    said,
    silence,
    succeed,
    Facts,
    FactsView,
    MessageView,
    Progress,
    ProgressView,
    Request,
    RequestView,
    Speech,
    Tone,
};
use crate::text::{lines, lines_of, trim, trim_start_matches, trimmed, without_prefix};

verus! {

/// The name of the branch that a line of git's list stands for: the line
/// without the white space at its ends and without the mark of the current
/// branch.
pub open spec fn branch_name(line: Seq<char>) -> Seq<char> {
    without_prefix(trimmed(line), "* "@)
}

/// What is shown for a branch: the current one stands out.
pub open spec fn branch_line(name: Seq<char>, current: Seq<char>) -> MessageView {
    if name == current {
        said(Tone::Plain, "  \x1b[32m\u{25b6} "@ + name + "\x1b[0m (current)"@)
    } else {
        said(Tone::Dim, "  "@ + name)
    }
}

/// What is shown for the lines of git's list, after what was said before.
pub open spec fn branch_lines(
    before: Seq<MessageView>,
    lines: Seq<Seq<char>>,
    current: Seq<char>,
) -> Seq<MessageView>
    decreases lines.len(),
{
    if lines.len() == 0 {
        before
    } else {
        branch_lines(before, lines.drop_last(), current).push(
            branch_line(branch_name(lines.last()), current),
        )
    }
}

/// The branch that is checked out: none where it could not be found out.
pub open spec fn current_branch(facts: FactsView) -> Seq<char> {
    match facts.branch {
        Some(Ok(branch)) => branch,
        _ => Seq::empty(),
    }
}

/// What is said before the switch.
pub open spec fn switching(branch: Seq<char>) -> Seq<MessageView> {
    silence().push(said(Tone::Info, "Switching to "@ + branch + "..."@))
}

/// What is said before the branch is made.
pub open spec fn creating(branch: Seq<char>) -> Seq<MessageView> {
    switching(branch).push(said(Tone::Info, "Branch not found, creating it..."@))
}

/// The course of a switch: a branch that cannot be checked out is made.
/// That it cannot be made either is reported, and is no error.
pub open spec fn switch(branch: Seq<char>, facts: FactsView) -> ProgressView {
    match facts.checked_out {
        None => need(switching(branch), RequestView::Checkout(branch)),
        Some(Err(reason)) => fail(switching(branch), reason),
        Some(Ok(true)) => succeed(switching(branch).push(said(Tone::Success, "Now on "@ + branch))),
        Some(Ok(false)) => match facts.created_branch {
            None => need(creating(branch), RequestView::CheckoutNew(branch)),
            Some(Err(reason)) => fail(creating(branch), reason),
            Some(Ok(true)) => succeed(
                creating(branch).push(said(Tone::Success, "Created and switched to "@ + branch)),
            ),
            Some(Ok(false)) => succeed(
                creating(branch).push(said(Tone::Failure, "Could not switch branch"@)),
            ),
        },
    }
}

/// The course of the listing.
pub open spec fn list(facts: FactsView) -> ProgressView {
    match facts.branch {
        None => need(silence(), RequestView::Branch),
        Some(_) => match facts.branch_list {
            None => need(silence(), RequestView::BranchList),
            Some(Err(reason)) => fail(silence(), reason),
            Some(Ok(text)) => succeed(
                branch_lines(
                    silence().push(blank()).push(said(Tone::Info, "Branches:"@)),
                    lines_of(text),
                    current_branch(facts),
                ).push(blank()),
            ),
        },
    }
}

/// The course of the command.
pub open spec fn plan(name: Option<Seq<char>>, facts: FactsView) -> ProgressView {
    match facts.is_repo {
        None => need(silence(), RequestView::IsRepo),
        Some(false) => fail(
            silence().push(said(Tone::Failure, "Not a git repository"@)),
            "Not a git repository"@,
        ),
        Some(true) => match name {
            Some(branch) => switch(branch, facts),
            None => list(facts),
        },
    }
}

/// Adds what is shown for the lines of git's list.
pub fn show_branches(speech: &mut Speech, lines: &Vec<String>, current: &str)
    ensures
        final(speech)@ == branch_lines(old(speech)@, lines.deep_view(), current@),
{
    let ghost all = lines.deep_view();
    let ghost before = speech@;
    let mut i: usize = 0;
    while i < lines.len()
        invariant
            i <= lines.len(),
            all == lines.deep_view(),
            speech@ == branch_lines(before, all.take(i as int), current@),
        decreases lines.len() - i,
    {
        proof {
            assert(all.take(i + 1).drop_last() =~= all.take(i as int));
        }
        let name = trim_start_matches(trim(lines[i].as_str()), "* ");
        if name.eq(current) {
            speech.say(
                Tone::Plain,
                "  \x1b[32m\u{25b6} ".to_owned().concat(name).concat("\x1b[0m (current)"),
            );
        } else {
            speech.say(Tone::Dim, "  ".to_owned().concat(name));
        }
        i += 1;
    }
    assert(all.take(i as int) =~= all);
}

/// Where the command stands, given what is known.
pub fn run(name: &Option<String>, facts: &Facts) -> (progress: Progress)
    ensures
        progress@ == plan(name.deep_view(), facts@),
{
    let mut speech = Speech::new();
    match facts.is_repo {
        None => { return speech.need(Request::IsRepo); },
        Some(false) => {
            speech.say(Tone::Failure, "Not a git repository".to_owned());
            return speech.fail("Not a git repository".to_owned());
        },
        Some(true) => {},
    }
    match name {
        Some(branch) => {
            speech.say(
                Tone::Info,
                "Switching to ".to_owned().concat(branch.as_str()).concat("..."),
            );
            match &facts.checked_out {
                None => { return speech.need(Request::Checkout(branch.clone())); },
                Some(Err(reason)) => { return speech.fail(reason.clone()); },
                Some(Ok(true)) => {
                    speech.say(Tone::Success, "Now on ".to_owned().concat(branch.as_str()));
                    return speech.succeed();
                },
                Some(Ok(false)) => {},
            }
            speech.say(Tone::Info, "Branch not found, creating it...".to_owned());
            match &facts.created_branch {
                None => speech.need(Request::CheckoutNew(branch.clone())),
                Some(Err(reason)) => speech.fail(reason.clone()),
                Some(Ok(true)) => {
                    speech.say(
                        Tone::Success,
                        "Created and switched to ".to_owned().concat(branch.as_str()),
                    );
                    speech.succeed()
                },
                Some(Ok(false)) => {
                    speech.say(Tone::Failure, "Could not switch branch".to_owned());
                    speech.succeed()
                },
            }
        },
        None => {
            let current = match &facts.branch {
                None => { return speech.need(Request::Branch); },
                Some(Ok(branch)) => branch.clone(),
                Some(Err(_)) => String::new(),
            };
            let text = match &facts.branch_list {
                None => { return speech.need(Request::BranchList); },
                Some(Err(reason)) => { return speech.fail(reason.clone()); },
                Some(Ok(text)) => text,
            };
            speech.blank();
            speech.say(Tone::Info, "Branches:".to_owned());
            let all = lines(text.as_str());
            show_branches(&mut speech, &all, current.as_str());
            speech.blank();
            speech.succeed()
        },
    }
}

} // verus!
