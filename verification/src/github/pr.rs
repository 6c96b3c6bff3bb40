//! Merging pull requests through the `gh` program.

use vstd::prelude::*;
use crate::github::DEPENDABOT_USER;
use crate::text::{decimal, to_decimal};

verus! {

/// A pull request as `gh` lists it.
#[derive(Debug)]
pub struct PullRequest {
    pub number: u64,
    pub title: String,
    pub user: crate::github::User,
}

/// The arguments with which `gh` lists the open pull requests of Dependabot.
pub open spec fn list_args(repo: Seq<char>) -> Seq<Seq<char>> {
    seq![
        "pr"@,
        "list"@,
        "--repo"@,
        repo,
        "--state"@,
        "open"@,
        "--author"@,
        DEPENDABOT_USER@,
        "--json"@,
        "number,title,author"@,
    ]
}

/// The arguments with which `gh` merges a pull request.
pub open spec fn merge_args(repo: Seq<char>, pr_id: Seq<char>) -> Seq<Seq<char>> {
    seq!["pr"@, "merge"@, pr_id, "--repo"@, repo, "--squash"@, "--delete-branch"@]
}

/// The arguments with which `gh` lists the open pull requests of Dependabot.
pub fn list_dependabot_prs(repo: &str) -> (args: Vec<String>)
    ensures
        args.deep_view() == list_args(repo@),
{
    let mut args: Vec<String> = Vec::new();
    args.push("pr".to_owned());
    args.push("list".to_owned());
    args.push("--repo".to_owned());
    args.push(repo.to_owned());
    args.push("--state".to_owned());
    args.push("open".to_owned());
    args.push("--author".to_owned());
    args.push(DEPENDABOT_USER.to_owned());
    args.push("--json".to_owned());
    args.push("number,title,author".to_owned());
    args
}

/// The arguments with which `gh` merges a pull request, and the line that
/// announces the merge.
pub fn merge_pr(repo: &str, pr_id: &str) -> (plan: (String, Vec<String>))
    ensures
        plan.0@ == "\u{1f680} Merging PR #"@ + pr_id@ + "..."@,
        plan.1.deep_view() == merge_args(repo@, pr_id@),
{
    let mut args: Vec<String> = Vec::new();
    args.push("pr".to_owned());
    args.push("merge".to_owned());
    args.push(pr_id.to_owned());
    args.push("--repo".to_owned());
    args.push(repo.to_owned());
    args.push("--squash".to_owned());
    args.push("--delete-branch".to_owned());
    ("\u{1f680} Merging PR #".to_owned().concat(pr_id).concat("..."), args)
}

/// The line that says what came of a merge.
pub open spec fn merged_line(number: u64, merged: bool) -> Seq<char> {
    if merged {
        "\u{2705} Successfully merged #"@ + decimal(number as nat)
    } else {
        "\u{274c} Failed to merge #"@ + decimal(number as nat)
    }
}

/// Says what came of a merge, and hands the outcome on.
pub fn process_pr(pr: &PullRequest, merged: bool) -> (report: (String, bool))
    ensures
        report.0@ == merged_line(pr.number, merged),
        report.1 == merged,
{
    let pr_id = to_decimal(pr.number as u128);
    if merged {
        ("\u{2705} Successfully merged #".to_owned().concat(pr_id.as_str()), merged)
    } else {
        ("\u{274c} Failed to merge #".to_owned().concat(pr_id.as_str()), merged)
    }
}

} // verus!
