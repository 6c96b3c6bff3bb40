use github_bot_lib::github::pr;
use github_bot_lib::github::release::{
    container_version_path, container_versions_path, create_release, delete_all_releases,
    delete_old_container_versions, delete_tags_args, releases_path, split_repo, tag_cleanup,
    tag_push_outcome, untagged_versions, ContainerCleanup, ContainerMetadata, PackageMetadata,
    PackageVersion, Release, TagStep,
};
use github_bot_lib::github::workflow::{
    delete_failed_workflows, get_repo_from_git, rerun_failed_jobs, rerun_url, rerun_workflows,
    runs_url, WorkflowRun,
};
use github_bot_lib::github::{
    attempt_merge, list_dependabot_prs, list_url, process_pr, update_pr_branch, update_url,
    ListError, Listed, MergeNext, MergeReply, MergeResponse, PullRequest, UpdateReply, User,
    DEPENDABOT_USER, GITHUB_API_BASE, MAX_MERGE_ATTEMPTS,
};

const OWNER: &str = "test_owner";
const REPO: &str = "test_repo";

fn pull(number: u64, title: &str, login: &str) -> PullRequest {
    PullRequest { number, title: title.to_string(), user: User { login: login.to_string() } }
}

fn refused(message: Option<&str>) -> MergeReply {
    MergeReply::Answered {
        success: false,
        body: Ok(MergeResponse { message: message.map(str::to_string), sha: None }),
    }
}

#[test]
fn test_list_dependabot_prs_success() {
    let listed = Listed::Pulls(vec![
        pull(1, "Dependabot PR", DEPENDABOT_USER),
        pull(2, "Manual PR", "some_user"),
        pull(3, "Another Dependabot PR", DEPENDABOT_USER),
    ]);

    let url = list_url(OWNER, REPO);
    assert_eq!(
        url,
        format!("{}/repos/{}/{}/pulls?state=open&per_page=100", GITHUB_API_BASE, OWNER, REPO)
    );

    let dependabot_prs = list_dependabot_prs(&listed).unwrap();

    assert_eq!(dependabot_prs.len(), 2, "Should have filtered out the manual PR.");
    assert!(dependabot_prs.iter().all(|pr| pr.user.login == DEPENDABOT_USER));
    assert_eq!(dependabot_prs[0].number, 1);
    assert_eq!(dependabot_prs[0].title, "Dependabot PR");
    assert_eq!(dependabot_prs[1].number, 3);
}

#[test]
fn list_failures() {
    let error = list_dependabot_prs(&Listed::Refused {
        status: "401 Unauthorized".to_string(),
        body: "{}".to_string(),
    })
    .unwrap_err();
    assert!(matches!(error, ListError::Refused { .. }));
    assert_eq!(error.message(), "Failed to list PRs from GitHub API. Check token scope.");
    assert_eq!(
        error.diagnostic().as_deref(),
        Some("GitHub API Error (List PRs): Status 401 Unauthorized, Body: {}")
    );
    let error = list_dependabot_prs(&Listed::NotSent("dns".to_string())).unwrap_err();
    assert_eq!(error.message(), "Failed to send list PRs request");
    assert_eq!(error.diagnostic(), None);
    let error = list_dependabot_prs(&Listed::Unreadable("eof".to_string())).unwrap_err();
    assert_eq!(error.message(), "Failed to parse list PRs response");
}

#[test]
fn test_attempt_merge_success() {
    let pr_number = 456;
    let pr = pull(pr_number, "Test PR", DEPENDABOT_USER);

    let request = attempt_merge(OWNER, REPO, &pr);
    assert_eq!(
        request.url,
        format!("{}/repos/{}/{}/pulls/{}/merge", GITHUB_API_BASE, OWNER, REPO, pr.number)
    );
    assert_eq!(request.commit_title, format!("Merge Dependabot PR #{} ({})", pr.number, pr.title));
    assert_eq!(request.commit_message, "Automated merge by Rust utility.");
    assert_eq!(request.merge_method, "squash");

    let reply = MergeReply::Answered {
        success: true,
        body: Ok(MergeResponse {
            message: Some("Pull Request successfully merged".to_string()),
            sha: Some("abcdef123456".to_string()),
        }),
    };
    let step = process_pr(&pr, 1, &reply);
    assert!(matches!(step.next, MergeNext::Done));
    assert_eq!(step.lines, vec!["  \u{2705} Successfully MERGED. Commit SHA: abcdef123456"]);
}

#[test]
fn merged_without_a_sha() {
    let reply = MergeReply::Answered {
        success: true,
        body: Ok(MergeResponse { message: None, sha: None }),
    };
    let step = process_pr(&pull(1, "t", DEPENDABOT_USER), 1, &reply);
    assert_eq!(step.lines, vec!["  \u{2705} Successfully MERGED. Commit SHA: N/A"]);
    assert!(matches!(step.next, MergeNext::Done));
}

#[test]
fn stale_base_is_updated_once_then_given_up() {
    let pr = pull(9, "bump", DEPENDABOT_USER);
    let stale = refused(Some("Base branch was modified. Review and try the merge again."));

    let step = process_pr(&pr, 1, &stale);
    assert_eq!(
        step.lines,
        vec!["  \u{26a0}\u{fe0f} Merge FAILED (Attempt 1). Reason: Base branch modified."]
    );
    assert!(matches!(step.next, MergeNext::UpdateBranch));

    let update = update_pr_branch(
        1,
        &UpdateReply::Answered { code: 202, status: "202 Accepted".to_string(), body: None },
    );
    assert_eq!(
        update.lines,
        vec!["  \u{1f504} Branch update ACCEPTED (queued). Waiting 5 seconds to allow update/CI run..."]
    );
    assert!(matches!(update.next, MergeNext::Retry(2)));

    let step = process_pr(&pr, MAX_MERGE_ATTEMPTS, &stale);
    assert_eq!(
        step.lines,
        vec![
            "  \u{26a0}\u{fe0f} Merge FAILED (Attempt 2). Reason: Base branch modified.",
            "  \u{23ed}\u{fe0f} Final attempt failed. Skipping PR (leaving open).",
        ]
    );
    assert!(matches!(step.next, MergeNext::Done));
}

#[test]
fn other_refusals_leave_the_pull_request_open() {
    let pr = pull(9, "bump", DEPENDABOT_USER);
    let step = process_pr(&pr, 1, &refused(Some("Required status check is failing")));
    assert_eq!(
        step.lines,
        vec!["  \u{23ed}\u{fe0f} Merge FAILED. Reason: Required status check is failing. Skipping PR (leaving open)."]
    );
    assert!(matches!(step.next, MergeNext::Done));

    let step = process_pr(&pr, 1, &refused(None));
    assert_eq!(
        step.lines,
        vec!["  \u{23ed}\u{fe0f} Merge FAILED. Reason: Unknown API Error. Skipping PR (leaving open)."]
    );

    let garbled = MergeReply::Answered { success: false, body: Err("eof".to_string()) };
    let step = process_pr(&pr, 1, &garbled);
    assert_eq!(
        step.lines,
        vec!["  \u{23ed}\u{fe0f} Merge FAILED. Reason: Failed to parse error response. Skipping PR (leaving open)."]
    );
}

#[test]
fn merge_errors() {
    let pr = pull(77, "bump", DEPENDABOT_USER);
    let step = process_pr(&pr, 1, &MergeReply::NotSent("timeout".to_string()));
    assert!(step.lines.is_empty());
    assert!(
        matches!(step.next, MergeNext::Failed(reason) if reason == "Failed to send merge request for PR #77")
    );
    let garbled = MergeReply::Answered { success: true, body: Err("eof".to_string()) };
    let step = process_pr(&pr, 1, &garbled);
    assert!(matches!(step.next, MergeNext::Failed(reason) if reason == "eof"));
}

#[test]
fn update_refused_or_not_sent() {
    let pr = pull(12, "t", DEPENDABOT_USER);
    assert_eq!(
        update_url(OWNER, REPO, &pr),
        "https://api.github.com/repos/test_owner/test_repo/pulls/12/update-branch"
    );
    let step = update_pr_branch(
        1,
        &UpdateReply::Answered {
            code: 422,
            status: "422 Unprocessable Entity".to_string(),
            body: Some("no".to_string()),
        },
    );
    assert_eq!(
        step.lines,
        vec![
            "  \u{1f6a8} Branch update FAILED. Status: 422 Unprocessable Entity. Body: no",
            "  \u{23ed}\u{fe0f} Branch update failed. Skipping PR (leaving open).",
        ]
    );
    assert!(matches!(step.next, MergeNext::Done));
    let step = update_pr_branch(
        1,
        &UpdateReply::Answered { code: 500, status: "500".to_string(), body: None },
    );
    assert_eq!(
        step.lines[0],
        "  \u{1f6a8} Branch update FAILED. Status: 500. Body: Failed to get error body"
    );
    let step = update_pr_branch(1, &UpdateReply::NotSent("x".to_string()));
    assert!(
        matches!(step.next, MergeNext::Failed(reason) if reason == "Failed to send branch update request")
    );
    // After the last attempt nothing is tried again.
    let step = update_pr_branch(
        MAX_MERGE_ATTEMPTS,
        &UpdateReply::Answered { code: 200, status: "200 OK".to_string(), body: None },
    );
    assert!(matches!(step.next, MergeNext::Done));
}

#[test]
fn gh_variants() {
    assert_eq!(
        pr::list_dependabot_prs("o/r"),
        vec![
            "pr", "list", "--repo", "o/r", "--state", "open", "--author", "dependabot[bot]",
            "--json", "number,title,author"
        ]
    );
    let (line, args) = pr::merge_pr("o/r", "17");
    assert_eq!(line, "\u{1f680} Merging PR #17...");
    assert_eq!(args, vec!["pr", "merge", "17", "--repo", "o/r", "--squash", "--delete-branch"]);
    let listed = pr::PullRequest {
        number: 17,
        title: "t".to_string(),
        user: User { login: "x".to_string() },
    };
    assert_eq!(pr::process_pr(&listed, true), ("\u{2705} Successfully merged #17".to_string(), true));
    assert_eq!(pr::process_pr(&listed, false), ("\u{274c} Failed to merge #17".to_string(), false));
}

// --- releases and containers ---

fn version(id: u64, tags: Option<Option<Option<Vec<&str>>>>) -> PackageVersion {
    PackageVersion {
        id,
        metadata: tags.map(|container| PackageMetadata {
            container: container.map(|tags| ContainerMetadata {
                tags: tags.map(|tags| tags.into_iter().map(str::to_string).collect()),
            }),
        }),
    }
}

#[test]
fn untagged_versions_are_those_without_any_tag() {
    let versions = vec![
        version(1, None),
        version(2, Some(None)),
        version(3, Some(Some(None))),
        version(4, Some(Some(Some(vec![])))),
        version(5, Some(Some(Some(vec!["latest"])))),
        version(6, Some(Some(Some(vec!["a", "b"])))),
        version(7, None),
    ];
    assert_eq!(untagged_versions(&versions), vec![1, 2, 3, 4, 7]);
    assert_eq!(untagged_versions(&vec![]), Vec::<u64>::new());
}

#[test]
fn container_cleanup() {
    let versions = vec![version(10, None), version(11, Some(Some(Some(vec!["v1"])))), version(12, None)];
    match delete_old_container_versions("acme/tool", &versions) {
        ContainerCleanup::Delete(paths) => assert_eq!(
            paths,
            vec![
                "orgs/acme/packages/container/tool/versions/10",
                "orgs/acme/packages/container/tool/versions/12",
            ]
        ),
        other => panic!("unexpected: {other:?}"),
    }
    assert!(matches!(
        delete_old_container_versions("acme", &versions),
        ContainerCleanup::InvalidRepo
    ));
    assert!(matches!(
        delete_old_container_versions("a/b/c", &versions),
        ContainerCleanup::InvalidRepo
    ));
    assert_eq!(split_repo("acme/tool"), Some(("acme", "tool")));
    assert_eq!(split_repo("/"), Some(("", "")));
    assert_eq!(split_repo(""), None);
    assert_eq!(container_versions_path("o", "p"), "orgs/o/packages/container/p/versions");
    assert_eq!(container_version_path("o", "p", 0), "orgs/o/packages/container/p/versions/0");
}

#[test]
fn tag_cleanup_gives_up_without_a_mirror() {
    match tag_cleanup("o/r", false, "v1\nv2\n") {
        TagStep::GiveUp(abort) => {
            assert_eq!(
                abort.complaint,
                "Error: Unable to clone repo o/r. Ensure it exists and you have permission."
            );
            assert_eq!(abort.error, "Git clone failed");
        }
        other => panic!("unexpected: {other:?}"),
    }
}

#[test]
fn tag_cleanup_pushes_nothing_where_there_is_no_tag() {
    match tag_cleanup("o/r", true, "") {
        TagStep::Nothing { notice } => assert_eq!(notice, "No tags found to delete."),
        other => panic!("unexpected: {other:?}"),
    }
}

#[test]
fn tag_cleanup_deletes_all_tags_with_one_push() {
    match tag_cleanup("o/r", true, "v1\nv2\r\nnightly\n") {
        TagStep::Push { notice, args } => {
            assert_eq!(notice, "Found 3 tags. Deleting...");
            assert_eq!(args, vec!["push", "origin", "--delete", "v1", "v2", "nightly"]);
        }
        other => panic!("unexpected: {other:?}"),
    }
}

#[test]
fn tag_push_outcome_follows_the_status_of_the_push() {
    assert!(tag_push_outcome(true, "warning").is_ok());
    let abort = tag_push_outcome(false, "denied").unwrap_err();
    assert_eq!(abort.complaint, "Error pushing tag deletions: denied");
    assert_eq!(abort.error, "Git push --delete failed");
}

#[test]
fn releases() {
    let releases = vec![
        Release { id: 5, tag_name: "v1".to_string() },
        Release { id: 18446744073709551615, tag_name: "v2".to_string() },
    ];
    assert_eq!(
        delete_all_releases("o/r", &releases),
        vec!["repos/o/r/releases/5", "repos/o/r/releases/18446744073709551615"]
    );
    assert_eq!(releases_path("o/r"), "repos/o/r/releases");
    assert_eq!(
        delete_tags_args(&vec!["v1".to_string(), "v2".to_string()]),
        vec!["push", "origin", "--delete", "v1", "v2"]
    );
    let first = create_release();
    assert_eq!(first.tag_name, "v0.1.0");
    assert_eq!(first.target_commitish, "main");
    assert_eq!(first.name, "v0.1.0");
    assert_eq!(first.body, "First release of github-rs.");
    assert!(!first.draft);
    assert!(!first.prerelease);
    assert!(first.generate_release_notes);
}

// --- workflows ---

fn run(id: u64, conclusion: Option<&str>) -> WorkflowRun {
    WorkflowRun {
        id,
        name: format!("run {id}"),
        status: "completed".to_string(),
        conclusion: conclusion.map(str::to_string),
        html_url: String::new(),
    }
}

#[test]
fn workflow_filters() {
    let runs = vec![
        run(1, Some("success")),
        run(2, Some("failure")),
        run(3, Some("timed_out")),
        run(4, Some("cancelled")),
        run(5, None),
        run(6, Some("failure")),
    ];
    assert_eq!(rerun_workflows(&runs), vec![2, 3, 4, 6]);
    assert_eq!(
        rerun_failed_jobs("o/r", &runs),
        vec![
            "repos/o/r/actions/runs/2/rerun-failed-jobs",
            "repos/o/r/actions/runs/6/rerun-failed-jobs",
        ]
    );
    assert_eq!(
        delete_failed_workflows("o/r", &runs),
        vec![vec![
            "repos/o/r/actions/runs/2",
            "repos/o/r/actions/runs/4",
            "repos/o/r/actions/runs/6",
        ]]
    );
    assert!(runs[1].has_failed() && runs[1].is_deletable() && runs[1].needs_rerun());
    assert!(!runs[2].has_failed() && !runs[2].is_deletable() && runs[2].needs_rerun());
    assert!(!runs[4].needs_rerun());
}

#[test]
fn deletions_come_in_batches_of_ten() {
    let runs: Vec<WorkflowRun> = (0..25).map(|id| run(id, Some("failure"))).collect();
    let plan = delete_failed_workflows("o/r", &runs);
    assert_eq!(plan.iter().map(Vec::len).collect::<Vec<_>>(), vec![10, 10, 5]);
    assert_eq!(plan[2][4], "repos/o/r/actions/runs/24");
    let runs: Vec<WorkflowRun> = (0..20).map(|id| run(id, Some("cancelled"))).collect();
    let plan = delete_failed_workflows("o/r", &runs);
    assert_eq!(plan.iter().map(Vec::len).collect::<Vec<_>>(), vec![10, 10]);
    assert!(delete_failed_workflows("o/r", &vec![]).is_empty());
}

#[test]
fn workflow_addresses() {
    assert_eq!(
        runs_url("o/r", "abc"),
        "https://api.github.com/repos/o/r/actions/runs?head_sha=abc"
    );
    assert_eq!(
        rerun_url("o/r", 42),
        "https://api.github.com/repos/o/r/actions/runs/42/rerun-failed-jobs"
    );
    assert_eq!(get_repo_from_git("https://github.com/octocat/hello.git"), "octocat/hello");
    assert_eq!(get_repo_from_git("https://github.com/octocat/hello"), "octocat/hello");
    assert_eq!(get_repo_from_git("git@github.com:octocat/hello.git"), "git@github.com:octocat/hello");
    assert_eq!(get_repo_from_git("hello.git.git"), "hello");
    assert_eq!(get_repo_from_git("a/b"), "a/b");
    assert_eq!(get_repo_from_git(""), "");
}
