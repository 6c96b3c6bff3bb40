//! Merging the pull requests of Dependabot.
//!
//! The host sends the requests; this module says what to send and what an
//! answer means.

pub mod pr;
pub mod release;
pub mod workflow;

use vstd::prelude::*;
use crate::text::{contains, decimal, occurs_in, to_decimal};

verus! {

/// The account under which Dependabot opens its pull requests.
pub const DEPENDABOT_USER: &'static str = "dependabot[bot]";

/// Where GitHub's API is reached.
pub const GITHUB_API_BASE: &'static str = "https://api.github.com";

/// How often a merge is tried.
pub const MAX_MERGE_ATTEMPTS: u8 = 2;

/// How long to wait after a branch was updated, in seconds.
pub const UPDATE_WAIT_SECS: u64 = 5;

/// A GitHub account.
#[derive(Debug)]
pub struct User {
    pub login: String,
}

/// A pull request.
#[derive(Debug)]
pub struct PullRequest {
    pub number: u64,
    pub title: String,
    pub user: User,
}

pub struct PullRequestView {
    pub number: u64,
    pub title: Seq<char>,
    pub login: Seq<char>,
}

impl View for PullRequest {
    type V = PullRequestView;

    open spec fn view(&self) -> PullRequestView {
        PullRequestView { number: self.number, title: self.title@, login: self.user.login@ }
    }
}

impl DeepView for PullRequest {
    type V = PullRequestView;

    open spec fn deep_view(&self) -> PullRequestView {
        self@
    }
}

/// GitHub's answer to a request to merge.
#[derive(Debug)]
pub struct MergeResponse {
    pub message: Option<String>,
    pub sha: Option<String>,
}

/// Whether a pull request was opened by Dependabot.
pub open spec fn is_dependabot(pr: PullRequestView) -> bool {
    pr.login == DEPENDABOT_USER@
}

/// The pull requests of Dependabot among `all`, in their order.
pub open spec fn dependabot_prs(all: Seq<PullRequestView>) -> Seq<PullRequestView> {
    all.filter(|pr: PullRequestView| is_dependabot(pr))
}

/// The address of a repository's pull requests.
pub open spec fn pulls_url(owner: Seq<char>, repo: Seq<char>) -> Seq<char> {
    GITHUB_API_BASE@ + "/repos/"@ + owner + "/"@ + repo + "/pulls"@
}

/// The address of one pull request.
pub open spec fn pull_url(owner: Seq<char>, repo: Seq<char>, number: u64) -> Seq<char> {
    pulls_url(owner, repo) + "/"@ + decimal(number as nat)
}

fn pull_address(owner: &str, repo: &str, number: u64) -> (url: String)
    ensures
        url@ == pull_url(owner@, repo@, number),
{
    GITHUB_API_BASE.to_owned().concat("/repos/").concat(owner).concat("/").concat(repo).concat(
        "/pulls",
    ).concat("/").concat(to_decimal(number as u128).as_str())
}

/// The address that lists the open pull requests of a repository.
pub fn list_url(owner: &str, repo: &str) -> (url: String)
    ensures
        url@ == pulls_url(owner@, repo@) + "?state=open&per_page=100"@,
{
    GITHUB_API_BASE.to_owned().concat("/repos/").concat(owner).concat("/").concat(repo).concat(
        "/pulls",
    ).concat("?state=open&per_page=100")
}

/// What came back for the request that lists the pull requests.
#[derive(Debug)]
pub enum Listed {
    /// The request could not be sent; the reason.
    NotSent(String),
    /// GitHub refused; the status and the body of its answer.
    Refused { status: String, body: String },
    /// The answer is no list of pull requests; the reason.
    Unreadable(String),
    /// The open pull requests.
    Pulls(Vec<PullRequest>),
}

/// Why the pull requests could not be listed.
#[derive(Debug)]
pub enum ListError {
    NotSent(String),
    Refused { status: String, body: String },
    Unreadable(String),
}

pub enum ListErrorView {
    NotSent(Seq<char>),
    Refused { status: Seq<char>, body: Seq<char> },
    Unreadable(Seq<char>),
}

impl View for ListError {
    type V = ListErrorView;

    open spec fn view(&self) -> ListErrorView {
        match *self {
            ListError::NotSent(reason) => ListErrorView::NotSent(reason@),
            ListError::Refused { status, body } => ListErrorView::Refused {
                status: status@,
                body: body@,
            },
            ListError::Unreadable(reason) => ListErrorView::Unreadable(reason@),
        }
    }
}

impl ListErrorView {
    /// The error in words.
    pub open spec fn message(self) -> Seq<char> {
        match self {
            ListErrorView::NotSent(_) => "Failed to send list PRs request"@,
            ListErrorView::Refused { .. } =>
                "Failed to list PRs from GitHub API. Check token scope."@,
            ListErrorView::Unreadable(_) => "Failed to parse list PRs response"@,
        }
    }

    /// The line for the error stream, where GitHub refused.
    pub open spec fn diagnostic(self) -> Option<Seq<char>> {
        match self {
            ListErrorView::Refused { status, body } => Some(
                "GitHub API Error (List PRs): Status "@ + status + ", Body: "@ + body,
            ),
            _ => None,
        }
    }
}

impl ListError {
    /// The error in words.
    pub fn message(&self) -> (text: String)
        ensures
            text@ == self@.message(),
    {
        match self {
            ListError::NotSent(_) => "Failed to send list PRs request".to_owned(),
            ListError::Refused { .. } =>
                "Failed to list PRs from GitHub API. Check token scope.".to_owned(),
            ListError::Unreadable(_) => "Failed to parse list PRs response".to_owned(),
        }
    }

    /// The line for the error stream, where GitHub refused.
    pub fn diagnostic(&self) -> (line: Option<String>)
        ensures
            line.deep_view() == self@.diagnostic(),
    {
        match self {
            ListError::Refused { status, body } => Some(
                "GitHub API Error (List PRs): Status ".to_owned().concat(status.as_str()).concat(
                    ", Body: ",
                ).concat(body.as_str()),
            ),
            _ => None,
        }
    }
}

proof fn lemma_dependabot_step(all: Seq<PullRequestView>, i: int)
    requires
        0 <= i < all.len(),
    ensures
        dependabot_prs(all.take(i + 1)) == if is_dependabot(all[i]) {
            dependabot_prs(all.take(i)).push(all[i])
        } else {
            dependabot_prs(all.take(i))
        },
{
    reveal(Seq::filter);
    assert(all.take(i + 1).drop_last() =~= all.take(i));
}

/// The pull requests of Dependabot among those that GitHub listed.
pub fn list_dependabot_prs(listed: &Listed) -> (result: Result<Vec<PullRequest>, ListError>)
    ensures
        match *listed {
            Listed::NotSent(reason) => result matches Err(error) && error@
                == ListErrorView::NotSent(reason@),
            Listed::Refused { status, body } => result matches Err(error) && error@
                == (ListErrorView::Refused { status: status@, body: body@ }),
            Listed::Unreadable(reason) => result matches Err(error) && error@
                == ListErrorView::Unreadable(reason@),
            Listed::Pulls(all) => result matches Ok(kept) && kept.deep_view() == dependabot_prs(
                all.deep_view(),
            ),
        },
{
    match listed {
        Listed::NotSent(reason) => Err(ListError::NotSent(reason.clone())),
        Listed::Refused { status, body } => Err(
            ListError::Refused { status: status.clone(), body: body.clone() },
        ),
        Listed::Unreadable(reason) => Err(ListError::Unreadable(reason.clone())),
        Listed::Pulls(all) => {
            let ghost views = all.deep_view();
            let mut kept: Vec<PullRequest> = Vec::new();
            let mut i: usize = 0;
            proof {
                reveal(Seq::filter);
            }
            while i < all.len()
                invariant
                    i <= all.len(),
                    views == all.deep_view(),
                    kept.deep_view() == dependabot_prs(views.take(i as int)),
                decreases all.len() - i,
            {
                proof {
                    lemma_dependabot_step(views, i as int);
                }
                let pr = &all[i];
                if pr.user.login.as_str().eq(DEPENDABOT_USER) {
                    let copy = PullRequest {
                        number: pr.number,
                        title: pr.title.clone(),
                        user: User { login: pr.user.login.clone() },
                    };
                    kept.push(copy);
                }
                i += 1;
            }
            assert(views.take(i as int) =~= views);
            Ok(kept)
        },
    }
}

/// A request to merge a pull request.
#[derive(Debug)]
pub struct MergeRequest {
    pub url: String,
    pub commit_title: String,
    pub commit_message: String,
    pub merge_method: String,
}

pub struct MergeRequestView {
    pub url: Seq<char>,
    pub commit_title: Seq<char>,
    pub commit_message: Seq<char>,
    pub merge_method: Seq<char>,
}

impl View for MergeRequest {
    type V = MergeRequestView;

    open spec fn view(&self) -> MergeRequestView {
        MergeRequestView {
            url: self.url@,
            commit_title: self.commit_title@,
            commit_message: self.commit_message@,
            merge_method: self.merge_method@,
        }
    }
}

/// The request that merges a pull request by squashing it.
pub open spec fn merge_request(owner: Seq<char>, repo: Seq<char>, pr: PullRequestView) -> MergeRequestView {
    MergeRequestView {
        url: pull_url(owner, repo, pr.number) + "/merge"@,
        commit_title: "Merge Dependabot PR #"@ + decimal(pr.number as nat) + " ("@ + pr.title + ")"@,
        commit_message: "Automated merge by Rust utility."@,
        merge_method: "squash"@,
    }
}

/// The request that merges a pull request.
pub fn attempt_merge(owner: &str, repo: &str, pr: &PullRequest) -> (request: MergeRequest)
    ensures
        request@ == merge_request(owner@, repo@, pr@),
{
    MergeRequest {
        url: pull_address(owner, repo, pr.number).concat("/merge"),
        commit_title: "Merge Dependabot PR #".to_owned().concat(
            to_decimal(pr.number as u128).as_str(),
        ).concat(" (").concat(pr.title.as_str()).concat(")"),
        commit_message: "Automated merge by Rust utility.".to_owned(),
        merge_method: "squash".to_owned(),
    }
}

/// The address that updates the branch of a pull request from its base.
pub fn update_url(owner: &str, repo: &str, pr: &PullRequest) -> (url: String)
    ensures
        url@ == pull_url(owner@, repo@, pr@.number) + "/update-branch"@,
{
    pull_address(owner, repo, pr.number).concat("/update-branch")
}

/// What came back for a request to merge.
#[derive(Debug)]
pub enum MergeReply {
    /// The request could not be sent; the reason.
    NotSent(String),
    /// GitHub answered: whether it agreed, and what it said, or why that
    /// could not be read.
    Answered { success: bool, body: Result<MergeResponse, String> },
}

pub enum MergeReplyView {
    NotSent(Seq<char>),
    /// The answer could not be read.
    Garbled { success: bool, reason: Seq<char> },
    Answered { success: bool, message: Option<Seq<char>>, sha: Option<Seq<char>> },
}

impl View for MergeReply {
    type V = MergeReplyView;

    open spec fn view(&self) -> MergeReplyView {
        match *self {
            MergeReply::NotSent(reason) => MergeReplyView::NotSent(reason@),
            MergeReply::Answered { success, body: Err(reason) } => MergeReplyView::Garbled {
                success,
                reason: reason@,
            },
            MergeReply::Answered { success, body: Ok(response) } => MergeReplyView::Answered {
                success,
                message: response.message.deep_view(),
                sha: response.sha.deep_view(),
            },
        }
    }
}

/// How the work on a pull request goes on.
#[derive(Debug)]
pub enum MergeNext {
    /// Nothing is left to do: the pull request is merged, or left open.
    Done,
    /// The work has failed; the reason.
    Failed(String),
    /// The branch of the pull request is to be updated.
    UpdateBranch,
    /// The merge is to be tried again, as this attempt.
    Retry(u8),
}

pub enum MergeNextView {
    Done,
    Failed(Seq<char>),
    UpdateBranch,
    Retry(u8),
}

/// What a reply means: what to print, and how to go on.
#[derive(Debug)]
pub struct MergeStep {
    pub lines: Vec<String>,
    pub next: MergeNext,
}

pub struct MergeStepView {
    pub lines: Seq<Seq<char>>,
    pub next: MergeNextView,
}

impl View for MergeStep {
    type V = MergeStepView;

    open spec fn view(&self) -> MergeStepView {
        MergeStepView {
            lines: self.lines.deep_view(),
            next: match self.next {
                MergeNext::Done => MergeNextView::Done,
                MergeNext::Failed(reason) => MergeNextView::Failed(reason@),
                MergeNext::UpdateBranch => MergeNextView::UpdateBranch,
                MergeNext::Retry(attempt) => MergeNextView::Retry(attempt),
            },
        }
    }
}

/// What GitHub gave as the reason for a refusal.
pub open spec fn refusal(reply: MergeReplyView) -> Seq<char> {
    match reply {
        MergeReplyView::Answered { message: Some(message), .. } => message,
        MergeReplyView::Answered { message: None, .. } => "Unknown API Error"@,
        _ => "Failed to parse error response"@,
    }
}

/// Whether a refusal says that the base branch has moved on.
pub open spec fn is_stale(reason: Seq<char>) -> bool {
    occurs_in("Base branch was modified"@, reason)
}

/// What the reply to the merge of `pr`, tried for the `attempt`th time,
/// means. A merge that was refused because the base branch has moved on is
/// followed by an update of the branch, unless it was the last attempt; any
/// other refusal leaves the pull request open.
pub open spec fn merge_step(pr: PullRequestView, attempt: u8, reply: MergeReplyView) -> MergeStepView {
    match reply {
        MergeReplyView::NotSent(reason) => MergeStepView {
            lines: seq![],
            next: MergeNextView::Failed(
                "Failed to send merge request for PR #"@ + decimal(pr.number as nat),
            ),
        },
        MergeReplyView::Garbled { success: true, reason } => MergeStepView {
            lines: seq![],
            next: MergeNextView::Failed(reason),
        },
        MergeReplyView::Answered { success: true, sha, .. } => MergeStepView {
            lines: seq![
                "  \u{2705} Successfully MERGED. Commit SHA: "@ + (match sha {
                    Some(sha) => sha,
                    None => "N/A"@,
                }),
            ],
            next: MergeNextView::Done,
        },
        _ => if is_stale(refusal(reply)) {
            let warning = "  \u{26a0}\u{fe0f} Merge FAILED (Attempt "@ + decimal(attempt as nat)
                + "). Reason: Base branch modified."@;
            if attempt >= MAX_MERGE_ATTEMPTS {
                MergeStepView {
                    lines: seq![
                        warning,
                        "  \u{23ed}\u{fe0f} Final attempt failed. Skipping PR (leaving open)."@,
                    ],
                    next: MergeNextView::Done,
                }
            } else {
                MergeStepView { lines: seq![warning], next: MergeNextView::UpdateBranch }
            }
        } else {
            MergeStepView {
                lines: seq![
                    "  \u{23ed}\u{fe0f} Merge FAILED. Reason: "@ + refusal(reply)
                        + ". Skipping PR (leaving open)."@,
                ],
                next: MergeNextView::Done,
            }
        },
    }
}

fn one_line(line: String) -> (lines: Vec<String>)
    ensures
        lines.deep_view() == seq![line@],
{
    let mut lines: Vec<String> = Vec::new();
    lines.push(line);
    lines
}

fn two_lines(first: String, second: String) -> (lines: Vec<String>)
    ensures
        lines.deep_view() == seq![first@, second@],
{
    let mut lines: Vec<String> = Vec::new();
    lines.push(first);
    lines.push(second);
    lines
}

fn no_lines() -> (lines: Vec<String>)
    ensures
        lines.deep_view() == Seq::<Seq<char>>::empty(),
{
    let lines: Vec<String> = Vec::new();
    lines
}

/// Says what the reply to a merge means.
pub fn process_pr(pr: &PullRequest, attempt: u8, reply: &MergeReply) -> (step: MergeStep)
    ensures
        step@ == merge_step(pr@, attempt, reply@),
{
    let reason = match reply {
        MergeReply::NotSent(_) => {
            return MergeStep {
                lines: no_lines(),
                next: MergeNext::Failed(
                    "Failed to send merge request for PR #".to_owned().concat(
                        to_decimal(pr.number as u128).as_str(),
                    ),
                ),
            };
        },
        MergeReply::Answered { success: true, body: Err(reason) } => {
            return MergeStep { lines: no_lines(), next: MergeNext::Failed(reason.clone()) };
        },
        MergeReply::Answered { success: true, body: Ok(response) } => {
            let sha = match &response.sha {
                Some(sha) => sha.clone(),
                None => "N/A".to_owned(),
            };
            return MergeStep {
                lines: one_line(
                    "  \u{2705} Successfully MERGED. Commit SHA: ".to_owned().concat(sha.as_str()),
                ),
                next: MergeNext::Done,
            };
        },
        MergeReply::Answered { success: false, body: Err(_) } =>
            "Failed to parse error response".to_owned(),
        MergeReply::Answered { success: false, body: Ok(response) } => match &response.message {
            Some(message) => message.clone(),
            None => "Unknown API Error".to_owned(),
        },
    };
    if contains(reason.as_str(), "Base branch was modified") {
        let warning = "  \u{26a0}\u{fe0f} Merge FAILED (Attempt ".to_owned().concat(
            to_decimal(attempt as u128).as_str(),
        ).concat("). Reason: Base branch modified.");
        if attempt >= MAX_MERGE_ATTEMPTS {
            MergeStep {
                lines: two_lines(
                    warning,
                    "  \u{23ed}\u{fe0f} Final attempt failed. Skipping PR (leaving open).".to_owned(),
                ),
                next: MergeNext::Done,
            }
        } else {
            MergeStep { lines: one_line(warning), next: MergeNext::UpdateBranch }
        }
    } else {
        MergeStep {
            lines: one_line(
                "  \u{23ed}\u{fe0f} Merge FAILED. Reason: ".to_owned().concat(reason.as_str()).concat(
                    ". Skipping PR (leaving open).",
                ),
            ),
            next: MergeNext::Done,
        }
    }
}

/// What came back for a request to update a branch.
#[derive(Debug)]
pub enum UpdateReply {
    /// The request could not be sent; the reason.
    NotSent(String),
    /// GitHub answered: the status code, the status in words, and the body
    /// of the answer where it could be read.
    Answered { code: u16, status: String, body: Option<String> },
}

pub enum UpdateReplyView {
    NotSent(Seq<char>),
    Answered { code: u16, status: Seq<char>, body: Option<Seq<char>> },
}

impl View for UpdateReply {
    type V = UpdateReplyView;

    open spec fn view(&self) -> UpdateReplyView {
        match *self {
            UpdateReply::NotSent(reason) => UpdateReplyView::NotSent(reason@),
            UpdateReply::Answered { code, status, body } => UpdateReplyView::Answered {
                code,
                status: status@,
                body: body.deep_view(),
            },
        }
    }
}

/// Whether a status code reports success.
pub open spec fn is_success(code: u16) -> bool {
    200 <= code <= 299
}

/// What the reply to the update of a branch, asked for after the
/// `attempt`th merge, means: after an update that GitHub accepted the merge
/// is tried again; otherwise the pull request is left open.
pub open spec fn update_step(attempt: u8, reply: UpdateReplyView) -> MergeStepView {
    match reply {
        UpdateReplyView::NotSent(_) => MergeStepView {
            lines: seq![],
            next: MergeNextView::Failed("Failed to send branch update request"@),
        },
        UpdateReplyView::Answered { code, status, body } => if is_success(code) && attempt
            < MAX_MERGE_ATTEMPTS {
            MergeStepView {
                lines: seq![
                    "  \u{1f504} Branch update ACCEPTED (queued). Waiting "@ + decimal(
                        UPDATE_WAIT_SECS as nat,
                    ) + " seconds to allow update/CI run..."@,
                ],
                next: MergeNextView::Retry((attempt + 1) as u8),
            }
        } else if is_success(code) {
            MergeStepView { lines: seq![], next: MergeNextView::Done }
        } else {
            MergeStepView {
                lines: seq![
                    "  \u{1f6a8} Branch update FAILED. Status: "@ + status + ". Body: "@ + (match body {
                        Some(body) => body,
                        None => "Failed to get error body"@,
                    }),
                    "  \u{23ed}\u{fe0f} Branch update failed. Skipping PR (leaving open)."@,
                ],
                next: MergeNextView::Done,
            }
        },
    }
}

/// Says what the reply to the update of a branch means.
pub fn update_pr_branch(attempt: u8, reply: &UpdateReply) -> (step: MergeStep)
    ensures
        step@ == update_step(attempt, reply@),
{
    match reply {
        UpdateReply::NotSent(_) => MergeStep {
            lines: no_lines(),
            next: MergeNext::Failed("Failed to send branch update request".to_owned()),
        },
        UpdateReply::Answered { code, status, body } => {
            if *code >= 200 && *code <= 299 {
                if attempt < MAX_MERGE_ATTEMPTS {
                    MergeStep {
                        lines: one_line(
                            "  \u{1f504} Branch update ACCEPTED (queued). Waiting ".to_owned().concat(
                                to_decimal(UPDATE_WAIT_SECS as u128).as_str(),
                            ).concat(" seconds to allow update/CI run..."),
                        ),
                        next: MergeNext::Retry(attempt + 1),
                    }
                } else {
                    MergeStep { lines: no_lines(), next: MergeNext::Done }
                }
            } else {
                let text = match body {
                    Some(body) => body.clone(),
                    None => "Failed to get error body".to_owned(),
                };
                let step = MergeStep {
                    lines: two_lines(
                        "  \u{1f6a8} Branch update FAILED. Status: ".to_owned().concat(
                            status.as_str(),
                        ).concat(". Body: ").concat(text.as_str()),
                        "  \u{23ed}\u{fe0f} Branch update failed. Skipping PR (leaving open).".to_owned(),
                    ),
                    next: MergeNext::Done,
                };
                assert(step@.lines =~= update_step(attempt, reply@).lines);
                step
            }
        },
    }
}

/// However GitHub answers, a merge is tried at most `MAX_MERGE_ATTEMPTS`
/// times: after the last attempt nothing asks for another.
pub proof fn lemma_attempts_are_bounded(
    pr: PullRequestView,
    attempt: u8,
    merged: MergeReplyView,
    updated: UpdateReplyView,
)
    requires
        attempt >= MAX_MERGE_ATTEMPTS,
    ensures
        merge_step(pr, attempt, merged).next != MergeNextView::UpdateBranch,
        !(merge_step(pr, attempt, merged).next is Retry),
        !(update_step(attempt, updated).next is Retry),
        forall|earlier: u8|
            update_step(earlier, updated).next == MergeNextView::Retry(attempt) ==> earlier
                < MAX_MERGE_ATTEMPTS,
{
}

} // verus!
