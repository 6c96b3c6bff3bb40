//! What the helper asks of git.

use vstd::prelude::*;
use crate::ghk::call::{call, plain, probe, Call, CallView, Failure, FailureView, Probe, ProbeView};
use crate::text::{
    decimal,
    lines,
    lines_of,
    texts1,
    texts2,
    texts3,
    texts4,
    to_decimal,
    trim,
    trimmed,
};

verus! {

/// The program.
pub const GIT: &'static str = "git";

/// Makes the current directory a repository.
pub fn init() -> (made: Call)
    ensures
        made@ == call(GIT@, seq!["init"@], "Failed to run git"@, "git init failed"@),
{
    plain(GIT, texts1("init"), "Failed to run git", "git init failed")
}

/// Finds out whether there is a remote named `origin`: whether the program
/// succeeds.
pub fn hasremote() -> (made: Probe)
    ensures
        made@ == (ProbeView { program: GIT@, args: seq!["remote"@, "get-url"@, "origin"@] }),
{
    probe(GIT, texts3("remote", "get-url", "origin"))
}

/// Asks for the changes that are not committed. There are changes where
/// the program prints anything; that it fails is not looked at.
pub fn haschanges() -> (made: Call)
    ensures
        made@ == call(
            GIT@,
            seq!["status"@, "--porcelain"@],
            "Failed to run git status"@,
            "Failed to run git status"@,
        ),
{
    plain(GIT, texts2("status", "--porcelain"), "Failed to run git status", "Failed to run git status")
}

/// The lines of a text that hold more than white space, each without the
/// white space at its ends.
pub open spec fn filled_lines(printed: Seq<char>) -> Seq<Seq<char>> {
    lines_of(printed).map_values(|line: Seq<char>| trimmed(line)).filter(
        |line: Seq<char>| line.len() > 0,
    )
}

/// The files that have changed, as the program of [`haschanges`] printed
/// them.
pub fn changedfiles(printed: &str) -> (files: Vec<String>)
    ensures
        files.deep_view() == filled_lines(printed@),
{
    let all = lines(printed);
    let ghost listed = all.deep_view();
    let ghost cut = listed.map_values(|line: Seq<char>| trimmed(line));
    let mut files: Vec<String> = Vec::new();
    let mut i: usize = 0;
    proof {
        reveal(Seq::filter);
    }
    while i < all.len()
        invariant
            i <= all.len(),
            listed == all.deep_view(),
            cut == listed.map_values(|line: Seq<char>| trimmed(line)),
            files.deep_view() == cut.take(i as int).filter(|line: Seq<char>| line.len() > 0),
        decreases all.len() - i,
    {
        proof {
            reveal(Seq::filter);
            assert(cut.take(i + 1).drop_last() =~= cut.take(i as int));
        }
        let line = trim(all[i].as_str());
        if line.unicode_len() > 0 {
            files.push(line.to_owned());
        }
        i += 1;
    }
    assert(cut.take(i as int) =~= cut);
    files
}

/// Stages all changes.
pub fn addall() -> (made: Call)
    ensures
        made@ == call(GIT@, seq!["add"@, "-A"@], "Failed to run git add"@, "git add failed"@),
{
    plain(GIT, texts2("add", "-A"), "Failed to run git add", "git add failed")
}

/// Commits what is staged.
pub fn commit(msg: &str) -> (made: Call)
    ensures
        made@ == call(
            GIT@,
            seq!["commit"@, "-m"@, msg@],
            "Failed to run git commit"@,
            "git commit failed"@,
        ),
{
    plain(GIT, texts3("commit", "-m", msg), "Failed to run git commit", "git commit failed")
}

fn by_stderr(
    args: Vec<String>,
    context: &str,
    first: (&str, &str),
    second: Option<(&str, &str)>,
    fallback: &str,
) -> (made: Call)
    ensures
        made@ == (CallView {
            program: GIT@,
            args: args.deep_view(),
            input: None,
            context: context@,
            failure: FailureView::ByStderr(
                match second {
                    Some(second) => seq![(first.0@, first.1@), (second.0@, second.1@)],
                    None => seq![(first.0@, first.1@)],
                },
                fallback@,
            ),
        }),
{
    let mut cases: Vec<(String, String)> = Vec::new();
    cases.push((first.0.to_owned(), first.1.to_owned()));
    match second {
        Some(second) => {
            cases.push((second.0.to_owned(), second.1.to_owned()));
            assert(cases.deep_view() =~= seq![(first.0@, first.1@), (second.0@, second.1@)]);
        },
        None => {
            assert(cases.deep_view() =~= seq![(first.0@, first.1@)]);
        },
    }
    Call {
        program: GIT.to_owned(),
        args,
        input: None,
        context: context.to_owned(),
        failure: Failure::ByStderr(cases, fallback.to_owned()),
    }
}

/// What is reported for a push that the remote rejected.
pub const PUSH_REJECTED: &'static str = "Push rejected - run 'ghk pull' first to sync changes";

/// Pushes to the remote.
pub fn push() -> (made: Call)
    ensures
        made@ == (CallView {
            program: GIT@,
            args: seq!["push"@, "-u"@, "origin"@, "HEAD"@],
            input: None,
            context: "Failed to run git push"@,
            failure: FailureView::ByStderr(
                seq![("rejected"@, PUSH_REJECTED@), ("non-fast-forward"@, PUSH_REJECTED@)],
                "git push failed - check your permissions and try again"@,
            ),
        }),
{
    by_stderr(
        texts4("push", "-u", "origin", "HEAD"),
        "Failed to run git push",
        ("rejected", PUSH_REJECTED),
        Some(("non-fast-forward", PUSH_REJECTED)),
        "git push failed - check your permissions and try again",
    )
}

/// Pulls from the remote.
pub fn pull() -> (made: Call)
    ensures
        made@ == (CallView {
            program: GIT@,
            args: seq!["pull"@, "--rebase"@],
            input: None,
            context: "Failed to run git pull"@,
            failure: FailureView::ByStderr(
                seq![("CONFLICT"@, "Merge conflict detected - please resolve manually"@)],
                "git pull failed"@,
            ),
        }),
{
    by_stderr(
        texts2("pull", "--rebase"),
        "Failed to run git pull",
        ("CONFLICT", "Merge conflict detected - please resolve manually"),
        None,
        "git pull failed",
    )
}

/// Downloads a repository, into a directory where one is given.
pub fn clone(url: &str, dir: Option<&str>) -> (made: Call)
    ensures
        made@ == (CallView {
            program: GIT@,
            args: match dir.deep_view() {
                Some(dir) => seq!["clone"@, "--progress"@, url@, dir],
                None => seq!["clone"@, "--progress"@, url@],
            },
            input: None,
            context: "Failed to run git clone"@,
            failure: FailureView::ByStderr(
                seq![("already exists"@, "Directory already exists"@)],
                "Clone failed - check the URL and try again"@,
            ),
        }),
{
    let args = match dir {
        Some(dir) => texts4("clone", "--progress", url, dir),
        None => texts3("clone", "--progress", url),
    };
    by_stderr(
        args,
        "Failed to run git clone",
        ("already exists", "Directory already exists"),
        None,
        "Clone failed - check the URL and try again",
    )
}

/// Asks for the branch that is checked out. What the program prints is the
/// name, with white space around it.
pub fn currentbranch() -> (made: Call)
    ensures
        made@ == call(
            GIT@,
            seq!["rev-parse"@, "--abbrev-ref"@, "HEAD"@],
            "Failed to get current branch"@,
            "Not on any branch"@,
        ),
{
    plain(
        GIT,
        texts3("rev-parse", "--abbrev-ref", "HEAD"),
        "Failed to get current branch",
        "Not on any branch",
    )
}

/// Asks for the address of the remote. What the program prints is the
/// address, with white space around it.
pub fn remoteurl() -> (made: Call)
    ensures
        made@ == call(
            GIT@,
            seq!["remote"@, "get-url"@, "origin"@],
            "Failed to get remote URL"@,
            "No remote configured"@,
        ),
{
    plain(
        GIT,
        texts3("remote", "get-url", "origin"),
        "Failed to get remote URL",
        "No remote configured",
    )
}

/// Takes the last commit back and keeps its changes.
pub fn undolast() -> (made: Call)
    ensures
        made@ == call(
            GIT@,
            seq!["reset"@, "--soft"@, "HEAD~1"@],
            "Failed to undo"@,
            "Undo failed - may be no commits to undo"@,
        ),
{
    plain(
        GIT,
        texts3("reset", "--soft", "HEAD~1"),
        "Failed to undo",
        "Undo failed - may be no commits to undo",
    )
}

/// Asks for the last commits, at most `count`, one line each. Where the
/// program fails there is no history, which is no error.
pub fn history(count: usize) -> (made: Call)
    ensures
        made@ == call(
            GIT@,
            seq!["log"@, "--oneline"@, "-n"@, decimal(count as nat)],
            "Failed to get history"@,
            ""@,
        ),
{
    plain(
        GIT,
        texts4("log", "--oneline", "-n", to_decimal(count as u128).as_str()),
        "Failed to get history",
        "",
    )
}

/// The commits in what the program of [`history`] printed.
pub fn history_lines(printed: &str) -> (commits: Vec<String>)
    ensures
        commits.deep_view() == lines_of(printed@),
{
    lines(printed)
}

/// Finds out whether there are commits that are not pushed: whether the
/// program prints anything.
pub fn hasunpushed() -> (made: Probe)
    ensures
        made@ == (ProbeView { program: GIT@, args: seq!["log"@, "@{u}.."@, "--oneline"@] }),
{
    probe(GIT, texts3("log", "@{u}..", "--oneline"))
}

/// Finds out whether there are commits that are not pulled: after a quiet
/// fetch, whether the second program prints anything.
pub fn hasunpulled() -> (made: (Probe, Probe))
    ensures
        made.0@ == (ProbeView { program: GIT@, args: seq!["fetch"@, "--quiet"@] }),
        made.1@ == (ProbeView { program: GIT@, args: seq!["log"@, "..@{u}"@, "--oneline"@] }),
{
    (probe(GIT, texts2("fetch", "--quiet")), probe(GIT, texts3("log", "..@{u}", "--oneline")))
}

/// Finds out whether the repository has a commit: whether the program
/// succeeds.
pub fn hasanycommits() -> (made: Probe)
    ensures
        made@ == (ProbeView { program: GIT@, args: seq!["rev-parse"@, "HEAD"@] }),
{
    probe(GIT, texts2("rev-parse", "HEAD"))
}

/// Asks for the branches. What the program prints holds one branch in each
/// line.
pub fn branchlist() -> (made: Probe)
    ensures
        made@ == (ProbeView { program: GIT@, args: seq!["branch"@, "--list"@] }),
{
    probe(GIT, texts2("branch", "--list"))
}

/// Checks a branch out. Whether the program succeeds says whether the
/// branch is checked out now.
pub fn checkout(branch: &str) -> (made: Probe)
    ensures
        made@ == (ProbeView { program: GIT@, args: seq!["checkout"@, branch@] }),
{
    probe(GIT, texts2("checkout", branch))
}

/// Makes a branch and checks it out. Whether the program succeeds says
/// whether the branch is checked out now.
pub fn checkout_new(branch: &str) -> (made: Probe)
    ensures
        made@ == (ProbeView { program: GIT@, args: seq!["checkout"@, "-b"@, branch@] }),
{
    probe(GIT, texts3("checkout", "-b", branch))
}

/// Asks for the version of git. The version is what the program prints,
/// without the white space at its ends.
pub fn version() -> (made: Probe)
    ensures
        made@ == (ProbeView { program: GIT@, args: seq!["--version"@] }),
{
    probe(GIT, texts1("--version"))
}

/// What a program printed, without the white space at its ends.
pub fn printed_text(printed: &str) -> (text: &str)
    ensures
        text@ == trimmed(printed@),
{
    trim(printed)
}

} // verus!
