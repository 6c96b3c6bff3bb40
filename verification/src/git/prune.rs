//! Which local branches go when their remote counterpart is gone.
//!
//! The host fetches, surveys the local branches and asks the user; this
//! module judges each branch.

use vstd::prelude::*;

verus! {

/// The remote that branches are held against.
pub const REMOTE_NAME: &'static str = "origin";

/// What is shown before the branches are looked at.
pub const INTRO: &'static str = "Cleaning up stale branches";

/// What is shown after the branches were deleted.
pub const OUTRO: &'static str = "You're all set!";

/// The reference under which a remote's branch is kept locally.
pub fn remote_ref(remote: &str, branch: &str) -> (path: String)
    ensures
        path@ == "refs/remotes/"@ + remote@ + "/"@ + branch@,
{
    "refs/remotes/".to_owned().concat(remote).concat("/").concat(branch)
}

/// What the host knows of a local branch.
#[derive(Debug, Clone)]
pub struct LocalBranch {
    pub name: String,
    /// Whether the branch is checked out.
    pub is_head: bool,
    /// Whether the remote still has a branch of this name.
    pub on_remote: bool,
    /// Whether the branch is set up to track an upstream branch.
    pub has_upstream: bool,
    /// What the user said when asked whether the branch may go; `None`
    /// until the user was asked.
    pub answer: Option<bool>,
}

pub struct LocalBranchView {
    pub name: Seq<char>,
    pub is_head: bool,
    pub on_remote: bool,
    pub has_upstream: bool,
    pub answer: Option<bool>,
}

impl View for LocalBranch {
    type V = LocalBranchView;

    open spec fn view(&self) -> LocalBranchView {
        LocalBranchView {
            name: self.name@,
            is_head: self.is_head,
            on_remote: self.on_remote,
            has_upstream: self.has_upstream,
            answer: self.answer,
        }
    }
}

impl DeepView for LocalBranch {
    type V = LocalBranchView;

    open spec fn deep_view(&self) -> LocalBranchView {
        self@
    }
}

/// What is to become of a branch.
#[derive(Clone, Copy, Debug, PartialEq, Eq, Structural)]
pub enum Verdict {
    /// It stays, and nothing is said.
    Keep,
    /// It goes, because it tracks a remote branch that is gone.
    DeleteTracked,
    /// It goes, because the user agreed, now or for all branches.
    Delete,
    /// The user is to be asked.
    Ask,
    /// It stays, because the user did not agree.
    Skip,
}

/// Whether a branch is never deleted: the one that is checked out, and the
/// main branches.
pub open spec fn is_protected(branch: LocalBranchView) -> bool {
    branch.is_head || branch.name == "main"@ || branch.name == "master"@
}

/// The verdict on a branch. `confirm` says that the user agreed to every
/// deletion beforehand, `interactive` that the user can be asked.
pub open spec fn verdict(branch: LocalBranchView, confirm: bool, interactive: bool) -> Verdict {
    if is_protected(branch) || branch.on_remote {
        Verdict::Keep
    } else if branch.has_upstream {
        Verdict::DeleteTracked
    } else if confirm {
        Verdict::Delete
    } else if interactive {
        match branch.answer {
            None => Verdict::Ask,
            Some(true) => Verdict::Delete,
            Some(false) => Verdict::Skip,
        }
    } else {
        Verdict::Skip
    }
}

/// Judges a branch.
pub fn judge(branch: &LocalBranch, confirm: bool, interactive: bool) -> (judged: Verdict)
    ensures
        judged == verdict(branch@, confirm, interactive),
{
    if branch.is_head || branch.name.as_str().eq("main") || branch.name.as_str().eq("master")
        || branch.on_remote {
        Verdict::Keep
    } else if branch.has_upstream {
        Verdict::DeleteTracked
    } else if confirm {
        Verdict::Delete
    } else if interactive {
        match branch.answer {
            None => Verdict::Ask,
            Some(true) => Verdict::Delete,
            Some(false) => Verdict::Skip,
        }
    } else {
        Verdict::Skip
    }
}

/// The question put to the user about a branch.
pub open spec fn question(name: Seq<char>) -> Seq<char> {
    "Branch '"@ + name + "' has no remote counterpart. Delete locally?"@
}

/// What is said of a branch that goes because its remote branch is gone.
pub open spec fn tracked_notice(name: Seq<char>) -> Seq<char> {
    "  - Branch '"@ + name + "' tracks a deleted remote branch. Deleting..."@
}

/// What is said of a branch that stays because the user did not agree.
pub open spec fn skip_notice(name: Seq<char>) -> Seq<char> {
    "\x1b[90m  - Skipping '"@ + name + "'.\x1b[0m"@
}

/// What is said when a branch is deleted.
pub open spec fn deleting_notice(name: Seq<char>) -> Seq<char> {
    "\x1b[32m\u{2714}\x1b[0m Deleting branch '"@ + name + "'."@
}

/// The line that is said when a branch is deleted.
pub fn deleting(name: &str) -> (line: String)
    ensures
        line@ == deleting_notice(name@),
{
    "\x1b[32m\u{2714}\x1b[0m Deleting branch '".to_owned().concat(name).concat("'.")
}

/// Something that is said of a branch.
#[derive(Debug, Clone, PartialEq, Eq)]
pub struct Notice {
    pub text: String,
    /// Whether the line is shown in the frame of the dialogue with the
    /// user rather than as a line of its own.
    pub framed: bool,
}

pub struct NoticeView {
    pub text: Seq<char>,
    pub framed: bool,
}

impl DeepView for Notice {
    type V = NoticeView;

    open spec fn deep_view(&self) -> NoticeView {
        NoticeView { text: self.text@, framed: self.framed }
    }
}

/// Whether something is said of a branch when it is judged.
pub open spec fn is_noted(branch: LocalBranchView, confirm: bool, interactive: bool) -> bool {
    verdict(branch, confirm, interactive) == Verdict::DeleteTracked || verdict(
        branch,
        confirm,
        interactive,
    ) == Verdict::Skip
}

/// What is said of a branch when it is judged. That a branch stays is
/// said inside the dialogue where there is one.
pub open spec fn notice(branch: LocalBranchView, confirm: bool, interactive: bool) -> NoticeView {
    if verdict(branch, confirm, interactive) == Verdict::DeleteTracked {
        NoticeView { text: tracked_notice(branch.name), framed: false }
    } else {
        NoticeView { text: skip_notice(branch.name), framed: interactive }
    }
}

/// Whether a branch goes.
pub open spec fn is_doomed(branch: LocalBranchView, confirm: bool, interactive: bool) -> bool {
    verdict(branch, confirm, interactive) == Verdict::DeleteTracked || verdict(
        branch,
        confirm,
        interactive,
    ) == Verdict::Delete
}

/// What is said of the branches, in their order.
pub open spec fn notices(branches: Seq<LocalBranchView>, confirm: bool, interactive: bool) -> Seq<
    NoticeView,
> {
    branches.filter(|branch: LocalBranchView| is_noted(branch, confirm, interactive)).map_values(
        |branch: LocalBranchView| notice(branch, confirm, interactive),
    )
}

/// The names of the branches that go, in their order.
pub open spec fn doomed(branches: Seq<LocalBranchView>, confirm: bool, interactive: bool) -> Seq<
    Seq<char>,
> {
    branches.filter(|branch: LocalBranchView| is_doomed(branch, confirm, interactive)).map_values(
        |branch: LocalBranchView| branch.name,
    )
}

/// What the host found when it fetched and looked at the local branches.
#[derive(Debug, Clone)]
pub enum Survey {
    /// The branches could not be surveyed; the reason.
    Failed(String),
    /// The local branches, in the order of the repository.
    Branches(Vec<LocalBranch>),
}

/// How the pruning goes on.
#[derive(Debug)]
pub enum PruneNext {
    /// The user is to be asked about the branch at `index`.
    Ask { index: usize, prompt: String },
    /// These branches are to be deleted, in this order.
    Delete(Vec<String>),
}

/// Where the pruning stands.
#[derive(Debug)]
pub struct Pruning {
    /// What has been said of the branches that were judged.
    pub notices: Vec<Notice>,
    pub next: PruneNext,
}

/// The survey failed.
#[derive(Debug)]
pub struct PruneError {
    pub reason: String,
}

impl PruneError {
    /// The line for the error stream.
    pub fn diagnostic(&self) -> (line: String)
        ensures
            line@ == "Error managing branches: "@ + self.reason@,
    {
        "Error managing branches: ".to_owned().concat(self.reason.as_str())
    }
}

/// Whether `pruning` is where the pruning of `branches` stands: the user is
/// asked about the first branch that needs an answer, after all before it
/// were judged; where none needs one, the branches that go are named.
pub open spec fn is_pruning_of(
    pruning: Pruning,
    branches: Seq<LocalBranchView>,
    confirm: bool,
    interactive: bool,
) -> bool {
    match pruning.next {
        PruneNext::Ask { index, prompt } => {
            &&& index < branches.len()
            &&& verdict(branches[index as int], confirm, interactive) == Verdict::Ask
            &&& forall|j: int|
                0 <= j < index ==> verdict(#[trigger] branches[j], confirm, interactive)
                    != Verdict::Ask
            &&& prompt@ == question(branches[index as int].name)
            &&& pruning.notices.deep_view() == notices(
                branches.take(index as int),
                confirm,
                interactive,
            )
        },
        PruneNext::Delete(names) => {
            &&& forall|j: int|
                0 <= j < branches.len() ==> verdict(#[trigger] branches[j], confirm, interactive)
                    != Verdict::Ask
            &&& names.deep_view() == doomed(branches, confirm, interactive)
            &&& pruning.notices.deep_view() == notices(branches, confirm, interactive)
        },
    }
}

proof fn lemma_judged_step(branches: Seq<LocalBranchView>, i: int, confirm: bool, interactive: bool)
    requires
        0 <= i < branches.len(),
    ensures
        notices(branches.take(i + 1), confirm, interactive) == if is_noted(
            branches[i],
            confirm,
            interactive,
        ) {
            notices(branches.take(i), confirm, interactive).push(
                notice(branches[i], confirm, interactive),
            )
        } else {
            notices(branches.take(i), confirm, interactive)
        },
        doomed(branches.take(i + 1), confirm, interactive) == if is_doomed(
            branches[i],
            confirm,
            interactive,
        ) {
            doomed(branches.take(i), confirm, interactive).push(branches[i].name)
        } else {
            doomed(branches.take(i), confirm, interactive)
        },
{
    assert(branches.take(i + 1).drop_last() =~= branches.take(i));
    reveal(Seq::filter);
}

/// Judges the local branches. Never names the branch that is checked out,
/// `main` or `master` for deletion.
pub fn prune(survey: &Survey, confirm: bool, interactive: bool) -> (result: Result<
    Pruning,
    PruneError,
>)
    ensures
        match *survey {
            Survey::Failed(reason) => result matches Err(error) && error.reason@ == reason@,
            Survey::Branches(branches) => result matches Ok(pruning) && is_pruning_of(
                pruning,
                branches.deep_view(),
                confirm,
                interactive,
            ),
        },
{
    match survey {
        Survey::Failed(reason) => Err(PruneError { reason: reason.clone() }),
        Survey::Branches(branches) => {
            let ghost all = branches.deep_view();
            let mut said: Vec<Notice> = Vec::new();
            let mut names: Vec<String> = Vec::new();
            let mut i: usize = 0;
            proof {
                reveal(Seq::filter);
            }
            while i < branches.len()
                invariant
                    i <= branches.len(),
                    all == branches.deep_view(),
                    *survey matches Survey::Branches(listed) && listed.deep_view() == all,
                    forall|j: int|
                        0 <= j < i ==> verdict(#[trigger] all[j], confirm, interactive)
                            != Verdict::Ask,
                    said.deep_view() == notices(all.take(i as int), confirm, interactive),
                    names.deep_view() == doomed(all.take(i as int), confirm, interactive),
                decreases branches.len() - i,
            {
                let branch = &branches[i];
                proof {
                    lemma_judged_step(all, i as int, confirm, interactive);
                }
                match judge(branch, confirm, interactive) {
                    Verdict::Keep => {},
                    Verdict::DeleteTracked => {
                        let line = "  - Branch '".to_owned().concat(branch.name.as_str()).concat(
                            "' tracks a deleted remote branch. Deleting...",
                        );
                        let noted = Notice { text: line, framed: false };
                        said.push(noted);
                        names.push(branch.name.clone());
                    },
                    Verdict::Delete => {
                        names.push(branch.name.clone());
                    },
                    Verdict::Ask => {
                        let prompt = "Branch '".to_owned().concat(branch.name.as_str()).concat(
                            "' has no remote counterpart. Delete locally?",
                        );
                        let pruning = Pruning {
                            notices: said,
                            next: PruneNext::Ask { index: i, prompt },
                        };
                        return Ok(pruning);
                    },
                    Verdict::Skip => {
                        let line = "\x1b[90m  - Skipping '".to_owned().concat(
                            branch.name.as_str(),
                        ).concat("'.\x1b[0m");
                        let noted = Notice { text: line, framed: interactive };
                        said.push(noted);
                    },
                }
                i += 1;
            }
            assert(all.take(i as int) =~= all);
            Ok(Pruning { notices: said, next: PruneNext::Delete(names) })
        },
    }
}

} // verus!
