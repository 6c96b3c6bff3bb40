//! The commands that fold all changes into the last commit.

use vstd::prelude::*;
use crate::text::{decimal, texts2, texts3, texts4, to_decimal};

verus! {

/// The message of the commit that holds the changes before it is folded in.
pub const WIP_MESSAGE: &'static str = "wip \u{1f6a7}: work-in-progress";

/// The files in the root of a repository that say that treefmt is to be
/// run.
pub const TREEFMT_CONFIG: &'static str = "treefmt.toml";

/// The hidden form of the same file.
pub const HIDDEN_TREEFMT_CONFIG: &'static str = ".treefmt.toml";

/// The arguments with which git tells whether anything has changed: it
/// prints nothing where nothing has.
pub fn status_args() -> (args: Vec<String>)
    ensures
        args.deep_view() == seq!["status"@, "-s"@],
{
    texts2("status", "-s")
}

/// The programs that are run.
#[derive(Clone, Copy, Debug, PartialEq, Eq, Structural)]
pub enum Program {
    Git,
    Treefmt,
}

/// What a failure of a command means.
#[derive(Debug, Clone)]
pub enum Check {
    /// Nothing: the next command is run whether this one could be started
    /// or not, and whatever its status.
    Nothing,
    /// The command must start; its status is not looked at.
    Starts,
    /// The command must start and succeed; otherwise the work ends with
    /// this message.
    Succeeds(String),
}

pub enum CheckView {
    Nothing,
    Starts,
    Succeeds(Seq<char>),
}

/// A command for the host to run.
#[derive(Debug, Clone)]
pub struct Step {
    pub program: Program,
    pub args: Vec<String>,
    /// Whether the command is run in the root of the repository rather than
    /// in the current directory.
    pub at_root: bool,
    pub check: Check,
}

pub struct StepView {
    pub program: Program,
    pub args: Seq<Seq<char>>,
    pub at_root: bool,
    pub check: CheckView,
}

impl View for Step {
    type V = StepView;

    open spec fn view(&self) -> StepView {
        StepView {
            program: self.program,
            args: self.args.deep_view(),
            at_root: self.at_root,
            check: match self.check {
                Check::Nothing => CheckView::Nothing,
                Check::Starts => CheckView::Starts,
                Check::Succeeds(message) => CheckView::Succeeds(message@),
            },
        }
    }
}

impl DeepView for Step {
    type V = StepView;

    open spec fn deep_view(&self) -> StepView {
        self@
    }
}

/// What the host found in the working tree.
#[derive(Clone, Copy, Debug, PartialEq, Eq, Structural)]
pub struct WorkTree {
    /// Whether `git status -s` printed anything.
    pub dirty: bool,
    /// Whether the root of the repository holds a configuration for treefmt.
    pub has_treefmt_config: bool,
}

/// A git command that must succeed.
pub open spec fn git(args: Seq<Seq<char>>, message: Seq<char>) -> StepView {
    StepView { program: Program::Git, args, at_root: false, check: CheckView::Succeeds(message) }
}

/// The formatter, run for what it changes; its failures are passed over.
pub open spec fn format_step() -> StepView {
    StepView { program: Program::Treefmt, args: seq![], at_root: true, check: CheckView::Nothing }
}

/// The command that shows the changes.
pub open spec fn diff_step() -> StepView {
    StepView {
        program: Program::Git,
        args: seq!["--no-pager"@, "diff"@],
        at_root: false,
        check: CheckView::Starts,
    }
}

/// The commit that the changes are folded into: so many commits back.
pub open spec fn target(rewind: Option<u32>) -> Seq<char> {
    "HEAD~"@ + decimal(
        match rewind {
            Some(n) => n as nat,
            None => 1,
        },
    )
}

/// The commands that commit, fold and push.
pub open spec fn commit_steps(no_push: bool, rewind: Option<u32>) -> Seq<StepView> {
    let steps = seq![
        git(seq!["add"@, "--all"@], "Failed to stage files"@),
        git(seq!["commit"@, "-am"@, WIP_MESSAGE@], "Unable to create WIP commit"@),
        git(seq!["reset"@, "--soft"@, target(rewind)], "git reset failed"@),
        git(seq!["commit"@, "--all"@, "--amend"@, "--no-edit"@], "git amend failed"@),
    ];
    if no_push {
        steps
    } else {
        steps.push(git(seq!["push"@, "-f"@], "git push failed"@))
    }
}

/// The commands for a working tree, in order: none where nothing has
/// changed; otherwise the formatter where it is configured, the diff unless
/// suppressed, then the commit, the fold and, unless suppressed, the push.
pub open spec fn wip_steps(tree: WorkTree, no_push: bool, no_diff: bool, rewind: Option<u32>) -> Seq<
    StepView,
> {
    if !tree.dirty {
        seq![]
    } else {
        (if tree.has_treefmt_config {
            seq![format_step()]
        } else {
            seq![]
        }) + (if no_diff {
            seq![]
        } else {
            seq![diff_step()]
        }) + commit_steps(no_push, rewind)
    }
}

fn git_step(args: Vec<String>, message: &str) -> (step: Step)
    ensures
        step@ == git(args.deep_view(), message@),
{
    Step { program: Program::Git, args, at_root: false, check: Check::Succeeds(message.to_owned()) }
}

/// Fails with `msg` where a command did not succeed.
pub fn ensure_success(success: bool, msg: &str) -> (result: Result<(), String>)
    ensures
        result is Ok <==> success,
        result matches Err(message) ==> message@ == msg@,
{
    if !success {
        return Err(msg.to_owned());
    }
    Ok(())
}

/// The commands that fold all changes of the working tree into an earlier
/// commit.
pub fn wip(tree: WorkTree, no_push: bool, no_diff: bool, rewind: Option<u32>) -> (steps: Vec<Step>)
    ensures
        steps.deep_view() == wip_steps(tree, no_push, no_diff, rewind),
{
    let mut steps: Vec<Step> = Vec::new();
    if !tree.dirty {
        return steps;
    }
    if tree.has_treefmt_config {
        let step = Step {
            program: Program::Treefmt,
            args: Vec::new(),
            at_root: true,
            check: Check::Nothing,
        };
        assert(step@.args =~= Seq::<Seq<char>>::empty());
        steps.push(step);
    }
    if !no_diff {
        steps.push(
            Step {
                program: Program::Git,
                args: texts2("--no-pager", "diff"),
                at_root: false,
                check: Check::Starts,
            },
        );
    }
    let count = match rewind {
        Some(n) => n as u128,
        None => 1,
    };
    let head = "HEAD~".to_owned().concat(to_decimal(count).as_str());
    steps.push(git_step(texts2("add", "--all"), "Failed to stage files"));
    steps.push(git_step(texts3("commit", "-am", WIP_MESSAGE), "Unable to create WIP commit"));
    steps.push(git_step(texts3("reset", "--soft", head.as_str()), "git reset failed"));
    steps.push(git_step(texts4("commit", "--all", "--amend", "--no-edit"), "git amend failed"));
    if !no_push {
        steps.push(git_step(texts2("push", "-f"), "git push failed"));
    }
    steps
}

} // verus!
