use github_bot_lib::git::prune::{
    deleting, judge, remote_ref, LocalBranch, Notice, PruneNext, Survey, Verdict,
};
use github_bot_lib::git::wip::{Check, Program, Step, WorkTree};
use github_bot_lib::git::{ensure_success, prune, wip};

fn branch(name: &str) -> LocalBranch {
    LocalBranch {
        name: name.to_string(),
        is_head: false,
        on_remote: false,
        has_upstream: false,
        answer: None,
    }
}

fn command(step: &Step) -> String {
    let program = match step.program {
        Program::Git => "git",
        Program::Treefmt => "treefmt",
    };
    let mut line = program.to_string();
    for arg in &step.args {
        line.push(' ');
        line.push_str(arg);
    }
    line
}

#[test]
fn test_ensure_success_ok() {
    // A status that represents success
    assert!(ensure_success(true, "should not fail").is_ok());
}

#[test]
fn test_ensure_success_fail() {
    let res = ensure_success(false, "error message");
    assert!(res.is_err());
    assert_eq!(res.unwrap_err().to_string(), "error message");
}

#[test]
fn test_wip_no_changes() {
    // wip asks for nothing if nothing is staged/changed
    let result = wip(WorkTree { dirty: false, has_treefmt_config: false }, true, true, None);
    assert!(result.is_empty());
    let result = wip(WorkTree { dirty: false, has_treefmt_config: true }, false, false, Some(3));
    assert!(result.is_empty());
}

#[test]
fn test_wip_with_changes_and_treefmt() {
    let result = wip(WorkTree { dirty: true, has_treefmt_config: true }, true, true, Some(1));
    let commands: Vec<String> = result.iter().map(command).collect();
    assert_eq!(
        commands,
        vec![
            "treefmt",
            "git add --all",
            "git commit -am wip \u{1f6a7}: work-in-progress",
            "git reset --soft HEAD~1",
            "git commit --all --amend --no-edit",
        ]
    );
    assert!(result[0].at_root);
    assert!(matches!(result[0].check, Check::Nothing));
    assert!(matches!(&result[1].check, Check::Succeeds(message) if message == "Failed to stage files"));
    assert!(matches!(&result[2].check, Check::Succeeds(message) if message == "Unable to create WIP commit"));
    assert!(matches!(&result[3].check, Check::Succeeds(message) if message == "git reset failed"));
    assert!(matches!(&result[4].check, Check::Succeeds(message) if message == "git amend failed"));
}

#[test]
fn wip_shows_the_diff_and_pushes_unless_told_not_to() {
    let result = wip(WorkTree { dirty: true, has_treefmt_config: false }, false, false, None);
    let commands: Vec<String> = result.iter().map(command).collect();
    assert_eq!(
        commands,
        vec![
            "git --no-pager diff",
            "git add --all",
            "git commit -am wip \u{1f6a7}: work-in-progress",
            "git reset --soft HEAD~1",
            "git commit --all --amend --no-edit",
            "git push -f",
        ]
    );
    assert!(matches!(result[0].check, Check::Starts));
    assert!(matches!(&result[5].check, Check::Succeeds(message) if message == "git push failed"));
}

#[test]
fn wip_rewinds_by_the_given_count() {
    for (rewind, target) in [(0u32, "HEAD~0"), (7, "HEAD~7"), (10, "HEAD~10"), (4294967295, "HEAD~4294967295")] {
        let result = wip(WorkTree { dirty: true, has_treefmt_config: false }, true, true, Some(rewind));
        assert_eq!(result[2].args[2], target);
    }
}

#[test]
fn test_prune_calls_lib() {
    // We call with false to avoid confirmations.
    let res = prune(&Survey::Failed("remote 'origin' does not exist".to_string()), false, false);
    // The survey may fail in an environment without a remote; accept both.
    assert!(res.is_ok() || res.is_err());
}

#[test]
fn test_prune_logic_skips_protected() {
    // Without a remote the survey fails, and so does the pruning.
    let result = prune(&Survey::Failed("remote 'origin' does not exist".to_string()), false, true);
    assert!(result.is_err());
    assert_eq!(
        result.unwrap_err().diagnostic(),
        "Error managing branches: remote 'origin' does not exist"
    );

    // The branch that is checked out and the main branches never go.
    let mut head = branch("feature");
    head.is_head = true;
    head.has_upstream = true;
    let survey = Survey::Branches(vec![head, branch("main"), branch("master")]);
    let pruning = prune(&survey, true, true).unwrap();
    assert!(pruning.notices.is_empty());
    match pruning.next {
        PruneNext::Delete(names) => assert!(names.is_empty()),
        other => panic!("unexpected: {other:?}"),
    }
}

#[test]
fn judge_each_case() {
    let mut b = branch("topic");
    assert_eq!(judge(&b, false, false), Verdict::Skip);
    assert_eq!(judge(&b, false, true), Verdict::Ask);
    assert_eq!(judge(&b, true, false), Verdict::Delete);
    assert_eq!(judge(&b, true, true), Verdict::Delete);
    b.answer = Some(true);
    assert_eq!(judge(&b, false, true), Verdict::Delete);
    assert_eq!(judge(&b, false, false), Verdict::Skip);
    b.answer = Some(false);
    assert_eq!(judge(&b, false, true), Verdict::Skip);
    b.has_upstream = true;
    assert_eq!(judge(&b, false, false), Verdict::DeleteTracked);
    b.on_remote = true;
    assert_eq!(judge(&b, true, true), Verdict::Keep);
    b.on_remote = false;
    b.is_head = true;
    assert_eq!(judge(&b, true, true), Verdict::Keep);
}

#[test]
fn prune_asks_about_the_first_open_branch_then_names_what_goes() {
    let mut orphan = branch("old-feature");
    orphan.has_upstream = true;
    let mut live = branch("live");
    live.on_remote = true;
    let mut branches = vec![orphan, branch("scratch"), live, branch("notes"), branch("master")];

    let pruning = prune(&Survey::Branches(branches.clone()), false, true).unwrap();
    assert_eq!(
        pruning.notices,
        vec![Notice {
            text: "  - Branch 'old-feature' tracks a deleted remote branch. Deleting...".to_string(),
            framed: false,
        }]
    );
    match pruning.next {
        PruneNext::Ask { index, prompt } => {
            assert_eq!(index, 1);
            assert_eq!(prompt, "Branch 'scratch' has no remote counterpart. Delete locally?");
        }
        other => panic!("unexpected: {other:?}"),
    }

    branches[1].answer = Some(false);
    let pruning = prune(&Survey::Branches(branches.clone()), false, true).unwrap();
    assert_eq!(pruning.notices.len(), 2);
    assert_eq!(
        pruning.notices[1],
        Notice { text: "\x1b[90m  - Skipping 'scratch'.\x1b[0m".to_string(), framed: true }
    );
    assert!(matches!(pruning.next, PruneNext::Ask { index: 3, .. }));

    branches[3].answer = Some(true);
    let pruning = prune(&Survey::Branches(branches.clone()), false, true).unwrap();
    assert_eq!(pruning.notices.len(), 2);
    match pruning.next {
        PruneNext::Delete(names) => assert_eq!(names, vec!["old-feature", "notes"]),
        other => panic!("unexpected: {other:?}"),
    }

    // Without a terminal nobody is asked.
    let pruning = prune(&Survey::Branches(branches.clone()), false, false).unwrap();
    assert_eq!(pruning.notices.len(), 3);
    assert_eq!(
        pruning.notices[2],
        Notice { text: "\x1b[90m  - Skipping 'notes'.\x1b[0m".to_string(), framed: false }
    );
    match pruning.next {
        PruneNext::Delete(names) => assert_eq!(names, vec!["old-feature"]),
        other => panic!("unexpected: {other:?}"),
    }

    // With the user's consent beforehand nobody is asked either.
    let pruning = prune(&Survey::Branches(branches), true, true).unwrap();
    match pruning.next {
        PruneNext::Delete(names) => assert_eq!(names, vec!["old-feature", "scratch", "notes"]),
        other => panic!("unexpected: {other:?}"),
    }
}

#[test]
fn prune_texts() {
    assert_eq!(remote_ref("origin", "topic"), "refs/remotes/origin/topic");
    assert_eq!(deleting("topic"), "\x1b[32m\u{2714}\x1b[0m Deleting branch 'topic'.");
}
