use github_bot_lib::cli::{LicenseKind, UserCmd};
use github_bot_lib::ghk::app::{greets, welcome};
use github_bot_lib::ghk::call::{Call, Failure};
use github_bot_lib::ghk::commands::setup::{
    installonfreebsd, installonlinux, join, Ran, SetupFacts, SetupRequest, Stop, Tool, Topic,
};
use github_bot_lib::ghk::commands::{
    branch, clone, config, create, diff, fork, history, ignore, init, license, login, logout,
    open, pull, push, setup, status, undo, user,
};
use github_bot_lib::ghk::config::{isfirstrun, Config};
use github_bot_lib::ghk::error::GhkError;
use github_bot_lib::ghk::flow::{Facts, Message, Next, Progress, Request, Tone};
use github_bot_lib::ghk::gh::{self, copyright, Holder};
use github_bot_lib::ghk::git;
use github_bot_lib::ghk::util::{self, render, stream, Stream, Style};

fn said(messages: &[Message]) -> Vec<String> {
    messages
        .iter()
        .map(|message| {
            let mark = match message.tone {
                Tone::Success => "ok",
                Tone::Warning => "warn",
                Tone::Failure => "err",
                Tone::Info => "info",
                Tone::Dim => "dim",
                Tone::Plain => "plain",
            };
            format!("{mark}: {}", message.text)
        })
        .collect()
}

/// A host that answers every request from a script, and notes what was
/// asked.
fn drive(
    run: impl Fn(&Facts) -> Progress,
    answer: impl Fn(&Request, &mut Facts),
) -> (Vec<String>, Vec<String>, Result<(), String>) {
    let mut facts = Facts::new();
    let mut asked = Vec::new();
    let mut shown = Vec::new();
    for _ in 0..40 {
        let progress = run(&facts);
        let all = said(&progress.messages);
        // What was said before still stands first.
        assert_eq!(&all[..shown.len()], &shown[..]);
        shown = all;
        match progress.next {
            Next::Finish(result) => return (asked, shown, result),
            Next::Need(request) => {
                asked.push(format!("{request:?}"));
                answer(&request, &mut facts);
            }
        }
    }
    panic!("the command does not end");
}

/// A host in a repository with a remote, logged in as octocat and online.
fn all_is_well(request: &Request, facts: &mut Facts) {
    match request {
        Request::IsRepo => facts.is_repo = Some(true),
        Request::HasRemote => facts.has_remote = Some(true),
        Request::LoggedIn => facts.logged_in = Some(true),
        Request::LoggedInAfter => facts.logged_in_after = Some(true),
        Request::Online => facts.online = Some(true),
        Request::HasCommits => facts.has_commits = Some(true),
        Request::FileExists(_) => facts.file_exists = Some(false),
        Request::WhoAmI => facts.user = Some(Ok("octocat".to_string())),
        Request::Changes => facts.changes = Some(Ok(true)),
        Request::Files => {
            facts.files = Some(Ok(vec!["M src/lib.rs".to_string(), "?? notes.txt".to_string()]))
        }
        Request::Branch => facts.branch = Some(Ok("main".to_string())),
        Request::BranchList => facts.branch_list = Some(Ok("  dev\n* main\n".to_string())),
        Request::RemoteUrl => {
            facts.remote_url = Some(Ok("https://github.com/octocat/hello.git".to_string()))
        }
        Request::History(_) => {
            facts.history = Some(Ok(vec!["abc123 first".to_string(), "def456 second".to_string()]))
        }
        Request::DirName => facts.dir_name = Some(Some("hello".to_string())),
        Request::ReadFile(_) => facts.file = Some(None),
        Request::Year => facts.year = Some(2026),
        Request::Confirm { .. } => facts.confirmed = Some(Ok(true)),
        Request::Input { initial, .. } => {
            facts.input = Some(Ok(initial.clone().unwrap_or("typed".to_string())))
        }
        Request::Select { .. } => facts.selected = Some(Ok(2)),
        Request::AddAll => facts.staged = Some(Ok(())),
        Request::Commit(_) => facts.committed = Some(Ok(())),
        Request::Checkout(_) => facts.checked_out = Some(Ok(true)),
        Request::CheckoutNew(_) => facts.created_branch = Some(Ok(true)),
        _ => facts.done = Some(Ok(())),
    }
}

// --- init ---

#[test]
fn init_makes_a_repository_where_there_is_none() {
    let (asked, shown, result) = drive(init::run, |request, facts| match request {
        Request::IsRepo => facts.is_repo = Some(false),
        other => all_is_well(other, facts),
    });
    assert_eq!(asked, vec!["IsRepo", "Init"]);
    assert_eq!(
        shown,
        vec!["ok: Project folder ready", "dim: Created .git folder to track your changes"]
    );
    assert_eq!(result, Ok(()));
}

#[test]
fn init_leaves_a_repository_alone() {
    let (asked, shown, result) = drive(init::run, all_is_well);
    assert_eq!(asked, vec!["IsRepo"]);
    assert_eq!(
        shown,
        vec!["warn: Already a git repository", "dim: Your project folder is already set up"]
    );
    assert_eq!(result, Ok(()));
}

#[test]
fn init_hands_a_failure_on() {
    let (_, shown, result) = drive(init::run, |request, facts| match request {
        Request::IsRepo => facts.is_repo = Some(false),
        _ => facts.done = Some(Err("git init failed".to_string())),
    });
    assert!(shown.is_empty());
    assert_eq!(result, Err("git init failed".to_string()));
}

// --- login, logout ---

#[test]
fn login_when_logged_in_already() {
    let (asked, shown, result) = drive(login::run, all_is_well);
    assert_eq!(asked, vec!["LoggedIn", "WhoAmI"]);
    assert_eq!(
        shown,
        vec![
            "ok: Already logged in as octocat",
            "dim: Run 'ghk logout' first if you want to switch accounts",
        ]
    );
    assert_eq!(result, Ok(()));
}

#[test]
fn login_goes_through_the_login() {
    let (asked, shown, result) = drive(login::run, |request, facts| match request {
        Request::LoggedIn => facts.logged_in = Some(false),
        Request::WhoAmI => facts.user = Some(Err("api".to_string())),
        other => all_is_well(other, facts),
    });
    assert_eq!(asked, vec!["LoggedIn", "Login", "LoggedInAfter", "WhoAmI"]);
    assert_eq!(shown, vec!["info: Opening GitHub login...", "ok: Connected as unknown"]);
    assert_eq!(result, Ok(()));

    let (_, shown, result) = drive(login::run, |request, facts| match request {
        Request::LoggedIn => facts.logged_in = Some(false),
        Request::LoggedInAfter => facts.logged_in_after = Some(false),
        other => all_is_well(other, facts),
    });
    assert_eq!(shown, vec!["info: Opening GitHub login...", "warn: Login was cancelled"]);
    assert_eq!(result, Ok(()));

    let (_, _, result) = drive(login::run, |request, facts| match request {
        Request::LoggedIn => facts.logged_in = Some(false),
        Request::Login => facts.done = Some(Err("Login was cancelled or failed".to_string())),
        other => all_is_well(other, facts),
    });
    assert_eq!(result, Err("Login was cancelled or failed".to_string()));
}

#[test]
fn logout_cases() {
    let (asked, shown, result) = drive(logout::run, all_is_well);
    assert_eq!(asked, vec!["LoggedIn", "WhoAmI", "Logout"]);
    assert_eq!(shown, vec!["info: Logging out from octocat...", "ok: Logged out"]);
    assert_eq!(result, Ok(()));
    let (asked, shown, _) = drive(logout::run, |request, facts| match request {
        Request::LoggedIn => facts.logged_in = Some(false),
        other => all_is_well(other, facts),
    });
    assert_eq!(asked, vec!["LoggedIn"]);
    assert_eq!(shown, vec!["warn: Not logged in", "dim: Nothing to do"]);
}

// --- open, pull ---

#[test]
fn open_needs_a_repository_with_a_remote() {
    let (asked, shown, result) = drive(open::run, all_is_well);
    assert_eq!(asked, vec!["IsRepo", "HasRemote", "OpenRepo"]);
    assert_eq!(shown, vec!["info: Opening in browser...", "ok: Opened"]);
    assert_eq!(result, Ok(()));

    let (asked, shown, result) = drive(open::run, |request, facts| match request {
        Request::IsRepo => facts.is_repo = Some(false),
        other => all_is_well(other, facts),
    });
    assert_eq!(asked, vec!["IsRepo"]);
    assert_eq!(shown, vec!["err: Not a git repository"]);
    assert_eq!(result, Err("Not a git repository".to_string()));

    let (_, shown, result) = drive(open::run, |request, facts| match request {
        Request::HasRemote => facts.has_remote = Some(false),
        other => all_is_well(other, facts),
    });
    assert_eq!(shown, vec!["err: Not connected to GitHub", "dim: Run 'ghk create' first"]);
    assert_eq!(result, Err("No remote configured".to_string()));
}

#[test]
fn pull_checks_in_order_then_syncs() {
    let (asked, shown, result) = drive(pull::run, all_is_well);
    assert_eq!(asked, vec!["IsRepo", "HasRemote", "Online", "Changes", "Pull"]);
    assert_eq!(
        shown,
        vec![
            "warn: You have unsaved changes",
            "dim: Consider running 'ghk push' first",
            "info: Syncing from GitHub...",
            "ok: Synced!",
        ]
    );
    assert_eq!(result, Ok(()));

    let (asked, shown, result) = drive(pull::run, |request, facts| match request {
        Request::Online => facts.online = Some(false),
        other => all_is_well(other, facts),
    });
    assert_eq!(asked, vec!["IsRepo", "HasRemote", "Online"]);
    assert_eq!(shown, vec!["err: Cannot reach GitHub", "dim: Check your internet connection"]);
    assert_eq!(result, Err("Offline".to_string()));

    let (_, shown, result) = drive(pull::run, |request, facts| match request {
        Request::Changes => facts.changes = Some(Ok(false)),
        Request::Pull => {
            facts.done = Some(Err("Merge conflict detected - please resolve manually".to_string()))
        }
        other => all_is_well(other, facts),
    });
    assert_eq!(shown, vec!["info: Syncing from GitHub..."]);
    assert_eq!(result, Err("Merge conflict detected - please resolve manually".to_string()));

    let (asked, _, result) = drive(pull::run, |request, facts| match request {
        Request::Changes => facts.changes = Some(Err("Failed to run git status".to_string())),
        other => all_is_well(other, facts),
    });
    assert_eq!(asked.len(), 4);
    assert_eq!(result, Err("Failed to run git status".to_string()));
}

// --- user ---

#[test]
fn user_list_and_switch() {
    let (asked, shown, _) = drive(|facts| user::run(&UserCmd::List, facts), all_is_well);
    assert_eq!(asked, vec!["LoggedIn", "ListUsers"]);
    assert_eq!(shown, vec!["ok: Your accounts:"]);

    let switch = UserCmd::Switch { name: "hubot".to_string() };
    let (asked, shown, _) = drive(|facts| user::run(&switch, facts), all_is_well);
    assert_eq!(asked, vec!["LoggedIn", "SwitchUser(\"hubot\")"]);
    assert_eq!(shown, vec!["info: Switching to hubot...", "ok: Now using hubot"]);

    let logged_out = |request: &Request, facts: &mut Facts| match request {
        Request::LoggedIn => facts.logged_in = Some(false),
        other => all_is_well(other, facts),
    };
    let (_, shown, result) = drive(|facts| user::run(&switch, facts), logged_out);
    assert_eq!(shown, vec!["warn: Not logged in", "dim: Run 'ghk login' first"]);
    assert_eq!(result, Ok(()));
    let (_, shown, _) = drive(|facts| user::run(&UserCmd::List, facts), logged_out);
    assert_eq!(
        shown,
        vec!["warn: No accounts found", "dim: Run 'ghk login' to connect your GitHub account"]
    );
}

// --- clone ---

#[test]
fn clone_names_the_directory() {
    let repo = Some("octocat/hello".to_string());
    let (asked, shown, result) = drive(|facts| clone::run(&repo, &None, facts), all_is_well);
    assert_eq!(asked, vec!["Online", "CloneRepo { repo: \"octocat/hello\", dir: None }"]);
    assert_eq!(
        shown,
        vec![
            "info: Cloning octocat/hello...",
            "ok: Downloaded to 'hello'",
            "dim: cd hello to start working",
        ]
    );
    assert_eq!(result, Ok(()));

    let dir = Some("work".to_string());
    let (_, shown, _) = drive(|facts| clone::run(&repo, &dir, facts), all_is_well);
    assert_eq!(shown[1], "ok: Downloaded to 'work'");

    let (asked, shown, _) = drive(|facts| clone::run(&None, &None, facts), all_is_well);
    assert_eq!(
        asked[1],
        "Input { prompt: \"Repository (owner/name or URL)\", initial: None }"
    );
    assert_eq!(shown[0], "info: Cloning typed...");
    assert_eq!(shown[1], "ok: Downloaded to 'typed'");
}

// --- history, undo ---

#[test]
fn history_lists_the_commits() {
    let (asked, shown, result) = drive(|facts| history::run(None, facts), all_is_well);
    assert_eq!(asked, vec!["IsRepo", "History(10)"]);
    assert_eq!(
        shown,
        vec![
            "plain: ",
            "info: Recent saves:",
            "dim:   abc123 first",
            "dim:   def456 second",
            "plain: ",
        ]
    );
    assert_eq!(result, Ok(()));

    let (asked, shown, _) = drive(|facts| history::run(Some(2), facts), all_is_well);
    assert_eq!(asked, vec!["IsRepo", "History(2)"]);
    assert_eq!(shown[4], "dim:   ... use 'ghk history 4' to see more");

    let (_, shown, result) = drive(
        |facts| history::run(Some(usize::MAX), facts),
        |request, facts| match request {
            Request::History(_) => facts.history = Some(Ok(vec![])),
            other => all_is_well(other, facts),
        },
    );
    assert_eq!(
        shown,
        vec!["warn: No history yet", "dim: Make some changes and run 'ghk push'"]
    );
    assert_eq!(result, Ok(()));
}

#[test]
fn undo_asks_first() {
    let (asked, shown, result) = drive(undo::run, all_is_well);
    assert_eq!(
        asked,
        vec![
            "IsRepo",
            "History(1)",
            "Confirm { prompt: \"Undo this commit? (changes will be kept)\", default: false }",
            "UndoLast",
        ]
    );
    assert_eq!(
        shown,
        vec![
            "info: Last commit:",
            "dim:   abc123 first",
            "ok: Commit undone",
            "dim: Your changes are still there, just uncommitted",
        ]
    );
    assert_eq!(result, Ok(()));

    let (asked, shown, _) = drive(undo::run, |request, facts| match request {
        Request::Confirm { .. } => facts.confirmed = Some(Ok(false)),
        other => all_is_well(other, facts),
    });
    assert_eq!(asked.len(), 3);
    assert_eq!(shown[2], "dim: Cancelled");

    let (_, shown, _) = drive(undo::run, |request, facts| match request {
        Request::History(_) => facts.history = Some(Ok(vec![])),
        other => all_is_well(other, facts),
    });
    assert_eq!(shown, vec!["warn: No commits to undo"]);
}

// --- status ---

#[test]
fn status_reports_what_it_can_find_out() {
    let (asked, shown, result) = drive(status::run, all_is_well);
    assert_eq!(
        asked,
        vec!["IsRepo", "Branch", "HasRemote", "RemoteUrl", "Changes", "Files", "LoggedIn", "WhoAmI"]
    );
    assert_eq!(
        shown,
        vec![
            "plain: ",
            "ok: Git: Ready",
            "dim: Branch: main",
            "dim: Remote: https://github.com/octocat/hello.git",
            "warn: 2 unsaved changes",
            "dim:   M src/lib.rs",
            "dim:   ?? notes.txt",
            "plain: ",
            "ok: GitHub: Logged in as octocat",
            "plain: ",
        ]
    );
    assert_eq!(result, Ok(()));
}

#[test]
fn status_outside_a_repository_and_logged_out() {
    let (asked, shown, result) = drive(status::run, |request, facts| match request {
        Request::IsRepo => facts.is_repo = Some(false),
        Request::LoggedIn => facts.logged_in = Some(false),
        other => all_is_well(other, facts),
    });
    assert_eq!(asked, vec!["IsRepo", "LoggedIn"]);
    assert_eq!(
        shown,
        vec![
            "plain: ",
            "warn: Git: Not initialized",
            "dim: Run 'ghk init' to set up",
            "plain: ",
            "warn: GitHub: Not logged in",
            "dim: Run 'ghk login' to connect",
            "plain: ",
        ]
    );
    assert_eq!(result, Ok(()));
}

#[test]
fn status_names_five_files_and_counts_the_rest() {
    let (_, shown, _) = drive(status::run, |request, facts| match request {
        Request::Files => {
            facts.files = Some(Ok((1..=8).map(|n| format!("f{n}")).collect()))
        }
        Request::HasRemote => facts.has_remote = Some(false),
        Request::Branch => facts.branch = Some(Err("detached".to_string())),
        other => all_is_well(other, facts),
    });
    assert_eq!(
        shown[..10],
        [
            "plain: ",
            "ok: Git: Ready",
            "dim: Remote: Not connected (run 'ghk create')",
            "warn: 8 unsaved changes",
            "dim:   f1",
            "dim:   f2",
            "dim:   f3",
            "dim:   f4",
            "dim:   f5",
            "dim:   ... and 3 more",
        ]
    );
}

// --- push ---

#[test]
fn push_saves_harmless_changes() {
    let (asked, shown, result) = drive(push::run, all_is_well);
    assert_eq!(
        asked,
        vec![
            "IsRepo",
            "LoggedIn",
            "HasRemote",
            "Changes",
            "Files",
            "Input { prompt: \"What did you change?\", initial: Some(\"Update\") }",
            "AddAll",
            "Commit(\"Update\")",
            "Push",
        ]
    );
    assert_eq!(
        shown,
        vec![
            "info: Changes to save:",
            "dim:   M src/lib.rs",
            "dim:   ?? notes.txt",
            "info: Saving...",
            "ok: Saved to GitHub!",
        ]
    );
    assert_eq!(result, Ok(()));
}

#[test]
fn push_warns_about_files_that_give_pause() {
    let scary = |request: &Request, facts: &mut Facts| match request {
        Request::Files => {
            facts.files = Some(Ok(vec![
                "M src/lib.rs".to_string(),
                "?? .ENV".to_string(),
                "?? Target/debug/x".to_string(),
            ]))
        }
        Request::Confirm { .. } => facts.confirmed = Some(Ok(false)),
        other => all_is_well(other, facts),
    };
    let (asked, shown, result) = drive(push::run, scary);
    assert_eq!(asked[5], "FileExists(\".gitignore\")");
    assert_eq!(
        asked[6],
        "Confirm { prompt: \"Are you sure you want to save these files?\", default: false }"
    );
    assert_eq!(asked.len(), 7);
    assert_eq!(
        shown,
        vec![
            "warn: Wait! Potential sensitive or temporary files detected:",
            "dim:   ?? .ENV",
            "dim:   ?? Target/debug/x",
            "info: Tip: You don't have a .gitignore file.",
            "dim: Run 'ghk ignore' to add a template for your project.",
            "info: Cancelled. Clean up your files or add them to .gitignore.",
        ]
    );
    assert_eq!(result, Ok(()));
}

#[test]
fn scary_files_are_found_by_their_lowercase_names() {
    let files: Vec<String> =
        ["a.rs", "B.LOG", "node_modules/x", "so.txt", "README", "bin", "x.EXE", "Makefile"]
            .iter()
            .map(|file| file.to_string())
            .collect();
    assert_eq!(push::scary_files(&files), vec!["B.LOG", "node_modules/x", "so.txt", "bin", "x.EXE"]);
    assert!(push::matches_pattern("my.env"));
    assert!(push::matches_pattern("also"));
    assert!(!push::matches_pattern("readme"));
    assert!(!push::matches_pattern(""));
}

#[test]
fn push_with_nothing_to_save() {
    let (asked, shown, result) = drive(push::run, |request, facts| match request {
        Request::Changes => facts.changes = Some(Ok(false)),
        other => all_is_well(other, facts),
    });
    assert_eq!(asked, vec!["IsRepo", "LoggedIn", "HasRemote", "Changes"]);
    assert_eq!(shown, vec!["ok: Already up to date", "dim: No changes to save"]);
    assert_eq!(result, Ok(()));
}

// --- create, fork ---

#[test]
fn create_asks_for_a_name_and_publishes() {
    let fresh = |request: &Request, facts: &mut Facts| match request {
        Request::HasRemote => facts.has_remote = Some(false),
        Request::Changes => facts.changes = Some(Ok(false)),
        Request::HasCommits => facts.has_commits = Some(false),
        Request::Confirm { .. } => facts.confirmed = Some(Ok(false)),
        Request::Commit(_) => facts.committed = Some(Err("git commit failed".to_string())),
        other => all_is_well(other, facts),
    };
    let (asked, shown, result) = drive(create::run, fresh);
    assert_eq!(
        asked,
        vec![
            "IsRepo",
            "LoggedIn",
            "HasRemote",
            "DirName",
            "Input { prompt: \"Repository name\", initial: Some(\"hello\") }",
            "Confirm { prompt: \"Make it private?\", default: false }",
            "Changes",
            "HasCommits",
            "AddAll",
            "Commit(\"Initial commit\")",
            "CreateRepo { name: \"hello\", private: false }",
        ]
    );
    assert_eq!(
        shown,
        vec![
            "info: Creating initial save...",
            "info: Creating repository on GitHub...",
            "ok: Repository 'hello' created!",
            "dim: Run 'ghk push' to save your changes",
        ]
    );
    assert_eq!(result, Ok(()));
}

#[test]
fn create_with_a_remote_does_nothing() {
    let (asked, shown, result) = drive(create::run, all_is_well);
    assert_eq!(asked, vec!["IsRepo", "LoggedIn", "HasRemote", "RemoteUrl"]);
    assert_eq!(
        shown,
        vec![
            "warn: Repository already connected to GitHub",
            "dim:   https://github.com/octocat/hello.git",
            "dim: Run 'ghk push' to save your changes",
        ]
    );
    assert_eq!(result, Ok(()));
}

#[test]
fn fork_picks_upstream_and_owner() {
    let cfg = Config::default();
    let (asked, shown, result) = drive(|facts| fork::run(&cfg, &None, facts), all_is_well);
    assert_eq!(
        asked,
        vec![
            "LoggedIn",
            "IsRepo",
            "RemoteUrl",
            "WhoAmI",
            "ForkRepo { upstream: \"https://github.com/octocat/hello.git\", owner: \"octocat\" }",
        ]
    );
    assert_eq!(
        shown,
        vec![
            "ok: Repository forked into 'octocat'!",
            "dim: Security features have been enabled:",
            "ok:   dependency graph",
            "ok:   security updates",
            "dim: Run 'ghk push' to save your changes",
        ]
    );
    assert_eq!(result, Ok(()));

    let mut cfg = Config::default();
    cfg.org = Some("acme".to_string());
    let target = Some("octocat/hello".to_string());
    let (asked, _, _) = drive(|facts| fork::run(&cfg, &target, facts), all_is_well);
    assert_eq!(
        asked,
        vec!["LoggedIn", "ForkRepo { upstream: \"octocat/hello\", owner: \"acme\" }"]
    );

    let (_, _, result) = drive(
        |facts| fork::run(&cfg, &None, facts),
        |request, facts| match request {
            Request::RemoteUrl => facts.remote_url = Some(Err("x".to_string())),
            other => all_is_well(other, facts),
        },
    );
    assert_eq!(result, Err("Could not determine remote URL of current repo".to_string()));
}

// --- branch, diff ---

#[test]
fn branch_lists_and_marks_the_current_one() {
    let (asked, shown, result) = drive(|facts| branch::run(&None, facts), all_is_well);
    assert_eq!(asked, vec!["IsRepo", "Branch", "BranchList"]);
    assert_eq!(
        shown,
        vec![
            "plain: ",
            "info: Branches:",
            "dim:   dev",
            "plain:   \x1b[32m\u{25b6} main\x1b[0m (current)",
            "plain: ",
        ]
    );
    assert_eq!(result, Ok(()));
}

#[test]
fn branch_switches_or_creates() {
    let name = Some("topic".to_string());
    let (asked, shown, _) = drive(|facts| branch::run(&name, facts), all_is_well);
    assert_eq!(asked, vec!["IsRepo", "Checkout(\"topic\")"]);
    assert_eq!(shown, vec!["info: Switching to topic...", "ok: Now on topic"]);

    let (asked, shown, result) = drive(
        |facts| branch::run(&name, facts),
        |request, facts| match request {
            Request::Checkout(_) => facts.checked_out = Some(Ok(false)),
            Request::CheckoutNew(_) => facts.created_branch = Some(Ok(false)),
            other => all_is_well(other, facts),
        },
    );
    assert_eq!(asked, vec!["IsRepo", "Checkout(\"topic\")", "CheckoutNew(\"topic\")"]);
    assert_eq!(
        shown,
        vec![
            "info: Switching to topic...",
            "info: Branch not found, creating it...",
            "err: Could not switch branch",
        ]
    );
    assert_eq!(result, Ok(()));
}

#[test]
fn diff_shows_and_counts() {
    let (asked, shown, result) = drive(diff::run, all_is_well);
    assert_eq!(asked, vec!["IsRepo", "Changes", "ShowDiff", "Files"]);
    assert_eq!(shown, vec!["plain: ", "info: 2 file(s) changed"]);
    assert_eq!(result, Ok(()));
    assert_eq!(diff::paint('+', "a\n"), "\x1b[32ma\n\x1b[0m");
    assert_eq!(diff::paint('-', "a"), "\x1b[31ma\x1b[0m");
    assert_eq!(diff::paint(' ', "a"), "a");
    assert_eq!(diff::paint('H', "a"), "\x1b[1;36ma\x1b[0m");
    assert_eq!(diff::paint('F', "a"), "\x1b[1;35ma\x1b[0m");
    assert_eq!(diff::paint('B', "a"), "\x1b[33ma\x1b[0m");
    assert_eq!(diff::paint('M', "a"), "\x1b[33ma\x1b[0m");
    assert_eq!(diff::paint('?', "a"), "a");
}

// --- config ---

#[test]
fn config_shows_and_sets() {
    let mut cfg = Config::default();
    cfg.editor = Some("vim".to_string());
    let show = |key: Option<&str>, value: Option<&str>| {
        let key = key.map(str::to_string);
        let value = value.map(str::to_string);
        drive(|facts| config::run(&cfg, "/c/config.toml", &key, &value, facts), all_is_well)
    };
    let (_, shown, _) = show(None, None);
    assert_eq!(
        shown,
        vec![
            "plain: ",
            "info: Current settings:",
            "dim:   quiet   = false",
            "dim:   nocolor = false",
            "dim:   editor  = vim",
            "dim:   org  = ",
            "plain: ",
            "dim: Config file: /c/config.toml",
            "plain: ",
        ]
    );
    assert_eq!(show(Some("editor"), None).1, vec!["plain: vim"]);
    assert_eq!(show(Some("quiet"), None).1, vec!["plain: false"]);
    assert_eq!(show(Some("colour"), None).1, vec!["warn: Unknown setting: colour"]);
    // A setting without a value is reported like a key that names none.
    assert_eq!(show(Some("lastuser"), None).1, vec!["warn: Unknown setting: lastuser"]);
    let (asked, shown, result) = show(Some("quiet"), Some("1"));
    assert_eq!(asked.len(), 1);
    assert!(asked[0].starts_with("SaveConfig(Config {"));
    assert!(asked[0].contains("quiet: true"));
    assert_eq!(shown, vec!["ok: quiet = 1"]);
    assert_eq!(result, Ok(()));
    let (asked, _, result) = show(Some("lastuser"), Some("x"));
    assert!(asked.is_empty());
    assert_eq!(result, Err("Unknown setting: lastuser".to_string()));
    assert_eq!(show(None, Some("x")).2, Ok(()));
}

#[test]
fn config_get_and_set() {
    let mut cfg = Config::default();
    assert_eq!(cfg.get("quiet").as_deref(), Some("false"));
    assert_eq!(cfg.get("nocolor").as_deref(), Some("false"));
    assert_eq!(cfg.get("editor"), None);
    assert_eq!(cfg.get("lastuser"), None);
    assert_eq!(cfg.get("org"), None);
    assert!(cfg.set("quiet", "true").is_ok());
    assert!(cfg.quiet);
    assert!(cfg.set("quiet", "yes").is_ok());
    assert!(!cfg.quiet);
    assert!(cfg.set("nocolor", "1").is_ok());
    assert!(cfg.nocolor);
    assert!(cfg.set("editor", "vim").is_ok());
    assert_eq!(cfg.get("editor").as_deref(), Some("vim"));
    let error = cfg.set("lastuser", "x").unwrap_err();
    assert_eq!(error.message(), "Unknown setting: lastuser");
    assert_eq!(cfg.lastuser, None);
    cfg.lastuser = Some("octocat".to_string());
    assert_eq!(cfg.get("lastuser").as_deref(), Some("octocat"));
    let copy = cfg.duplicate();
    assert_eq!(copy.editor.as_deref(), Some("vim"));
    assert!(copy.nocolor && !copy.quiet);
    assert!(isfirstrun(false));
    assert!(!isfirstrun(true));
}

// --- ignore, license ---

#[test]
fn ignore_adds_a_template_once() {
    let named = Some("rust".to_string());
    let (asked, shown, result) = drive(|facts| ignore::run(&named, facts), all_is_well);
    assert_eq!(
        asked,
        vec![
            "IsRepo",
            "ReadFile(\".gitignore\")",
            "WriteFile(FileToWrite { path: \".gitignore\", content: \"# rust\\ntarget/\\nCargo.lock\\n\\n# base: core-dumps\\n*.core/\\n\" })",
        ]
    );
    assert_eq!(shown, vec!["ok: Added rust template (with base templates) to .gitignore"]);
    assert_eq!(result, Ok(()));

    let (asked, shown, _) = drive(
        |facts| ignore::run(&named, facts),
        |request, facts| match request {
            Request::ReadFile(_) => facts.file = Some(Some("# mine\n/target/\n".to_string())),
            other => all_is_well(other, facts),
        },
    );
    assert_eq!(asked.len(), 2);
    assert_eq!(shown, vec!["warn: Already has this template"]);

    assert_eq!(
        ignore::merge("  \n*.bak\n\n", "go", "bin/\n"),
        "*.bak\n# go\nbin/\n\n# base: core-dumps\n*.core/\n"
    );
    assert_eq!(ignore::merge(" \n", "go", "bin/\n"), "# go\nbin/\n\n# base: core-dumps\n*.core/\n");
}

#[test]
fn ignore_choice_and_unknown_template() {
    let (asked, shown, _) = drive(|facts| ignore::run(&None, facts), all_is_well);
    assert_eq!(
        asked[1],
        "Select { prompt: \"Choose template\", items: [\"node\", \"python\", \"rust\", \"go\", \"java\", \"web\", \"macos\", \"windows\", \"linux\", \"ide\"] }"
    );
    assert_eq!(shown, vec!["ok: Added rust template (with base templates) to .gitignore"]);
    let named = Some("cobol".to_string());
    let (asked, shown, result) = drive(|facts| ignore::run(&named, facts), all_is_well);
    assert_eq!(asked, vec!["IsRepo"]);
    assert_eq!(
        shown,
        vec![
            "err: Unknown template: cobol",
            "dim: Available: node, python, rust, go, java, web, macos, windows, linux, ide",
        ]
    );
    assert_eq!(result, Ok(()));
    for name in ignore::names() {
        assert!(ignore::find_template(&name).is_some());
    }
}

#[test]
fn license_writes_the_chosen_text() {
    let (asked, shown, result) =
        drive(|facts| license::run(Some(LicenseKind::Mit), facts), all_is_well);
    assert_eq!(asked[..4], ["IsRepo", "FileExists(\"LICENSE\")", "Year", "WhoAmI"]);
    assert!(asked[4].starts_with(
        "WriteFile(FileToWrite { path: \"LICENSE\", content: \"MIT License\\n\\nCopyright (c) 2026 octocat\\n\\nPermission is hereby granted"
    ));
    assert_eq!(shown, vec!["ok: Created LICENSE file"]);
    assert_eq!(result, Ok(()));

    let (asked, _, _) = drive(|facts| license::run(None, facts), all_is_well);
    assert_eq!(
        asked[2],
        "Select { prompt: \"Choose license\", items: [\"MIT\", \"Apache 2.0\", \"GPL 3.0\", \"Unlicense\"] }"
    );
    assert!(asked[5].contains("content: \"Copyright (C) 2026 octocat\\n\\nThis program is free software"));

    let (asked, shown, _) = drive(
        |facts| license::run(None, facts),
        |request, facts| match request {
            Request::FileExists(_) => facts.file_exists = Some(true),
            other => all_is_well(other, facts),
        },
    );
    assert_eq!(asked.len(), 2);
    assert_eq!(shown, vec!["warn: LICENSE file already exists"]);
}

#[test]
fn license_texts() {
    let apache = license::text(LicenseKind::Apache, 1999, "Acme");
    assert!(apache.starts_with(
        "Copyright 1999 Acme\n\nLicensed under the Apache License, Version 2.0 (the \"License\");\n"
    ));
    assert!(apache.contains("at\n\nhttp://www.apache.org/licenses/LICENSE-2.0\n\nUnless"));
    assert!(apache.ends_with("limitations under the License.\n"));
    let mit = license::text(LicenseKind::Mit, 2026, "A B");
    assert!(mit.ends_with("OUT OF OR IN CONNECTION WITH THE SOFTWARE OR THE USE OR OTHER DEALINGS IN THE\nSOFTWARE.\n"));
    let unlicense = license::text(LicenseKind::Unlicense, 2026, "A B");
    assert!(unlicense.starts_with("This is free and unencumbered software"));
    assert!(!unlicense.contains("2026"));
    assert!(license::text(LicenseKind::Gpl, -5, "x").starts_with("Copyright (C) -5 x\n"));
}

// --- setup ---

fn drive_setup(
    os: &str,
    answer: impl Fn(&SetupRequest, &mut SetupFacts),
) -> (Vec<String>, Vec<String>, Option<String>) {
    let mut facts = SetupFacts::new(os.to_string());
    let mut asked = Vec::new();
    let mut shown: Vec<String> = Vec::new();
    for _ in 0..60 {
        let progress = setup::run(&facts);
        let all = said(&progress.messages);
        assert_eq!(&all[..shown.len()], &shown[..]);
        shown = all;
        match progress.stop {
            None => return (asked, shown, None),
            Some(Stop::Fail(reason)) => return (asked, shown, Some(reason)),
            Some(Stop::Need(request)) => {
                asked.push(format!("{request:?}"));
                answer(&request, &mut facts);
            }
        }
    }
    panic!("the setup does not end");
}

fn ready_machine(request: &SetupRequest, facts: &mut SetupFacts) {
    match request {
        SetupRequest::Which(program) => facts.programs.push((program.clone(), true)),
        SetupRequest::Version(Tool::Git) => {
            facts.git_version = Some(Some("git version 2.50.0".to_string()))
        }
        SetupRequest::Version(Tool::Gh) => facts.gh_version = Some(None),
        SetupRequest::Confirm { topic: Topic::Install(Tool::Git), .. } => {
            facts.install_git.agreed = Some(Ok(true))
        }
        SetupRequest::Confirm { topic: Topic::Install(Tool::Gh), .. } => {
            facts.install_gh.agreed = Some(Ok(true))
        }
        SetupRequest::Confirm { topic: Topic::Login, .. } => facts.login_now = Some(Ok(true)),
        SetupRequest::IsRoot => facts.is_root = Some(false),
        SetupRequest::Run { tool: Tool::Git, .. } => facts.install_git.ran = Some(Ran::Succeeded),
        SetupRequest::Run { tool: Tool::Gh, .. } => facts.install_gh.ran = Some(Ran::Failed),
        SetupRequest::LoggedIn => facts.logged_in = Some(true),
        SetupRequest::WhoAmI => facts.user = Some(Ok("octocat".to_string())),
        SetupRequest::Login => facts.login = Some(Ok(())),
        SetupRequest::LoggedInAfter => facts.logged_in_after = Some(true),
        SetupRequest::LoggedInForKeys => facts.logged_in_for_keys = Some(true),
        SetupRequest::HasSshKey => facts.has_ssh_key = Some(true),
        SetupRequest::Online => facts.online = Some(true),
    }
}

#[test]
fn setup_on_a_machine_that_has_everything() {
    let (asked, shown, failed) = drive_setup("linux", ready_machine);
    assert_eq!(
        asked,
        vec![
            "Which(\"git\")",
            "Version(Git)",
            "Which(\"gh\")",
            "Version(Gh)",
            "LoggedIn",
            "WhoAmI",
            "LoggedInForKeys",
            "HasSshKey",
            "Online",
        ]
    );
    assert_eq!(
        shown,
        vec![
            "plain: ",
            "info: Checking your setup...",
            "plain: ",
            "ok: Git installed",
            "dim:   git version 2.50.0",
            "ok: GitHub CLI installed",
            "ok: Logged in as octocat",
            "ok: SSH key configured",
            "ok: Can reach GitHub",
            "plain: ",
            "ok: All set!",
            "dim: Run 'ghk --help' to see available commands",
            "plain: ",
        ]
    );
    assert_eq!(failed, None);
}

#[test]
fn setup_installs_on_linux_with_the_first_manager_found() {
    let bare = |request: &SetupRequest, facts: &mut SetupFacts| match request {
        SetupRequest::Which(program) => {
            let there = program == "dnf" || program == "sudo";
            facts.programs.push((program.clone(), there))
        }
        SetupRequest::LoggedIn => facts.logged_in = Some(false),
        SetupRequest::Confirm { topic: Topic::Login, .. } => facts.login_now = Some(Ok(false)),
        SetupRequest::LoggedInForKeys => facts.logged_in_for_keys = Some(false),
        SetupRequest::Online => facts.online = Some(false),
        other => ready_machine(other, facts),
    };
    let (asked, shown, failed) = drive_setup("linux", bare);
    assert_eq!(
        asked,
        vec![
            "Which(\"git\")",
            "Confirm { topic: Install(Git), prompt: \"Install git now?\", default: true }",
            "Which(\"apt\")",
            "Which(\"dnf\")",
            "Which(\"sudo\")",
            "IsRoot",
            "Run { tool: Git, program: \"sudo\", args: [\"dnf\", \"install\", \"-y\", \"git\"] }",
            "Which(\"gh\")",
            "Confirm { topic: Install(Gh), prompt: \"Install gh now?\", default: true }",
            "Run { tool: Gh, program: \"sudo\", args: [\"dnf\", \"install\", \"-y\", \"gh\"] }",
            "LoggedIn",
            "Confirm { topic: Login, prompt: \"Login now?\", default: true }",
            "LoggedInForKeys",
            "Online",
        ]
    );
    assert_eq!(
        shown,
        vec![
            "plain: ",
            "info: Checking your setup...",
            "plain: ",
            "warn: Git not found",
            "dim: This requires admin access...",
            "ok: git installed",
            "warn: GitHub CLI not found",
            "dim: This requires admin access...",
            "warn: Install failed - try running manually",
            "warn: Not logged in to GitHub",
            "dim: Skipped - run 'ghk login' later",
            "warn: Cannot reach GitHub",
            "dim: Check your internet connection",
            "plain: ",
            "ok: All set!",
            "dim: Run 'ghk --help' to see available commands",
            "plain: ",
        ]
    );
    assert_eq!(failed, None);
}

#[test]
fn setup_on_other_systems() {
    let nothing_there = |request: &SetupRequest, facts: &mut SetupFacts| match request {
        SetupRequest::Which(program) => facts.programs.push((program.clone(), false)),
        other => ready_machine(other, facts),
    };
    let (asked, shown, _) = drive_setup("macos", nothing_there);
    assert_eq!(asked[2], "Which(\"brew\")");
    assert_eq!(
        shown[3..6],
        ["warn: Git not found", "warn: brew not found", "dim: Install Homebrew from https://brew.sh"]
    );
    let (_, shown, _) = drive_setup("windows", nothing_there);
    assert_eq!(
        shown[4..6],
        ["warn: winget not found", "dim: winget should be pre-installed on Windows 10+"]
    );
    let (_, shown, _) = drive_setup("freebsd", nothing_there);
    assert_eq!(
        shown[4..7],
        [
            "warn: sudo not found",
            "dim: Please run as root or install sudo",
            "dim:   pkg install -y git",
        ]
    );
    let (_, shown, _) = drive_setup("plan9", nothing_there);
    assert_eq!(shown[4], "warn: Please install git manually");
    let (_, shown, _) = drive_setup("linux", nothing_there);
    assert_eq!(
        shown[4..9],
        [
            "warn: Could not detect package manager",
            "dim: Please install manually:",
            "dim:   sudo apt install git",
            "dim:   sudo dnf install git",
            "dim:   sudo pacman -S git",
        ]
    );

    let winget = |request: &SetupRequest, facts: &mut SetupFacts| match request {
        SetupRequest::Which(program) => facts.programs.push((program.clone(), program == "winget")),
        SetupRequest::Run { tool: Tool::Git, .. } => {
            facts.install_git.ran = Some(Ran::NotStarted("denied".to_string()))
        }
        other => ready_machine(other, facts),
    };
    let (asked, shown, _) = drive_setup("windows", winget);
    assert_eq!(
        asked[3],
        "Run { tool: Git, program: \"winget\", args: [\"install\", \"--id\", \"Git.Git\", \"-e\"] }"
    );
    assert!(asked.contains(
        &"Run { tool: Gh, program: \"winget\", args: [\"install\", \"--id\", \"GitHub.cli\", \"-e\"] }"
            .to_string()
    ));
    assert_eq!(shown[4], "warn: Error: denied");

    let root = |request: &SetupRequest, facts: &mut SetupFacts| match request {
        SetupRequest::Which(program) => {
            facts.programs.push((program.clone(), program == "sudo" || program == "gh"))
        }
        SetupRequest::IsRoot => facts.is_root = Some(true),
        other => ready_machine(other, facts),
    };
    let (asked, shown, _) = drive_setup("freebsd", root);
    assert_eq!(asked[4], "Run { tool: Git, program: \"pkg\", args: [\"install\", \"-y\", \"git\"] }");
    assert_eq!(shown[4], "ok: git installed");
}

#[test]
fn setup_fails_only_where_a_question_or_the_login_fails() {
    let (_, _, failed) = drive_setup("linux", |request, facts| match request {
        SetupRequest::Which(program) => facts.programs.push((program.clone(), false)),
        SetupRequest::Confirm { .. } => facts.install_git.agreed = Some(Err("no tty".to_string())),
        other => ready_machine(other, facts),
    });
    assert_eq!(failed.as_deref(), Some("no tty"));
    let (_, _, failed) = drive_setup("linux", |request, facts| match request {
        SetupRequest::LoggedIn => facts.logged_in = Some(false),
        SetupRequest::Login => facts.login = Some(Err("Login was cancelled or failed".to_string())),
        other => ready_machine(other, facts),
    });
    assert_eq!(failed.as_deref(), Some("Login was cancelled or failed"));
}

#[test]
fn installers() {
    assert_eq!(installonlinux("apt", Tool::Git), Some(vec!["apt", "install", "-y", "git"].into_iter().map(String::from).collect()));
    assert_eq!(installonlinux("pacman", Tool::Gh), Some(vec!["pacman", "-S", "--noconfirm", "gh"].into_iter().map(String::from).collect()));
    assert_eq!(installonlinux("zypper", Tool::Gh), Some(vec!["zypper", "install", "-y", "gh"].into_iter().map(String::from).collect()));
    assert_eq!(installonlinux("apk", Tool::Git), None);
    assert_eq!(installonfreebsd(Tool::Gh), vec!["pkg", "install", "-y", "gh"]);
    assert_eq!(join(&vec![]), "");
    assert_eq!(join(&vec!["a".to_string()]), "a");
    assert_eq!(join(&vec!["a".to_string(), "b".to_string(), "c".to_string()]), "a b c");
}

// --- util, error, app ---

#[test]
fn messages_are_rendered_by_tone_and_style() {
    let plain = Style { quiet: false, nocolor: true };
    let color = Style { quiet: false, nocolor: false };
    let quiet = Style { quiet: true, nocolor: false };
    assert_eq!(util::ok("m", plain).as_deref(), Some("+ m"));
    assert_eq!(util::ok("m", color).as_deref(), Some("\x1b[32m\u{2714}\x1b[0m m"));
    assert_eq!(util::ok("m", quiet), None);
    assert_eq!(util::warn("m", plain).as_deref(), Some("! m"));
    assert_eq!(util::warn("m", color).as_deref(), Some("\x1b[33m\u{26a0}\x1b[0m m"));
    assert_eq!(util::warn("m", quiet), None);
    assert_eq!(util::err("m", plain), "X m");
    assert_eq!(util::err("m", color), "\x1b[31m\u{2717}\x1b[0m m");
    assert_eq!(util::err("m", quiet), "\x1b[31m\u{2717}\x1b[0m m");
    assert_eq!(util::info("m", color).as_deref(), Some("  m"));
    assert_eq!(util::info("m", quiet), None);
    assert_eq!(util::dim("m", plain).as_deref(), Some("  m"));
    assert_eq!(util::dim("m", color).as_deref(), Some("\x1b[90m  m\x1b[0m"));
    assert_eq!(util::dim("m", quiet), None);
    assert_eq!(render(Tone::Plain, "m", quiet).as_deref(), Some("m"));
    assert_eq!(stream(Tone::Failure), Stream::Error);
    assert_eq!(stream(Tone::Success), Stream::Output);
}

#[test]
fn errors_in_words() {
    assert_eq!(GhkError::GitNotInstalled.message(), "Git is not installed. Run 'ghk setup' first");
    assert_eq!(
        GhkError::GhNotInstalled.message(),
        "GitHub CLI (gh) is not installed. Run 'ghk setup' first"
    );
    assert_eq!(GhkError::NotLoggedIn.message(), "Not logged in to GitHub. Run 'ghk login' first");
    assert_eq!(GhkError::NotARepo.message(), "Not a git repository. Run 'ghk init' first");
    assert_eq!(GhkError::AlreadyARepo.message(), "Already a git repository");
    assert_eq!(GhkError::NothingToCommit.message(), "No changes to save");
    assert_eq!(GhkError::NoRemote.message(), "No remote configured. Run 'ghk create' first");
    assert_eq!(
        GhkError::CommandFailed { cmd: "git".to_string(), reason: "boom".to_string() }.message(),
        "git failed: boom"
    );
    assert_eq!(GhkError::Cancelled.message(), "Cancelled by user");
}

#[test]
fn first_run() {
    assert!(greets(false, false));
    assert!(!greets(true, false));
    assert!(!greets(false, true));
    let lines = welcome();
    assert_eq!(lines.len(), 8);
    assert_eq!(lines[0], "\n  Welcome to ghk!");
    assert_eq!(lines[7], "\n  Run ghk --help for all commands\n");
}

#[test]
fn copyright_holder() {
    let mut cfg = Config::default();
    assert!(matches!(copyright(&cfg), Holder::CurrentUser));
    cfg.org = Some("acme".to_string());
    assert!(matches!(copyright(&cfg), Holder::Organization(org) if org == "acme"));
}

// --- calls ---

fn line(call: &Call) -> String {
    format!("{} {}", call.program, call.args.join(" "))
}

#[test]
fn gh_calls() {
    assert_eq!(line(&gh::login()), "gh auth login");
    assert_eq!(gh::login().context, "Failed to run gh - is it installed?");
    assert!(matches!(gh::login().failure, Failure::Message(m) if m == "Login was cancelled or failed"));
    assert_eq!(line(&gh::logout()), "gh auth logout");
    assert_eq!(gh::loggedin().args, vec!["auth", "status"]);
    assert_eq!(line(&gh::whoami()), "gh api user -q .login");
    assert_eq!(gh::account_name(" octocat\n"), "octocat");
    assert_eq!(line(&gh::listusers()), "gh auth status");
    assert_eq!(line(&gh::switchuser("hubot")), "gh auth switch -u hubot");
    assert_eq!(
        gh::switchuser("hubot").failure.explain(""),
        "Account 'hubot' not found locally. Please log in:"
    );
    assert_eq!(line(&gh::createrepo("hello", true)), "gh repo create hello --source=. --push --private");
    assert_eq!(line(&gh::createrepo("hello", false)), "gh repo create hello --source=. --push --public");
    assert_eq!(line(&gh::openrepo()), "gh repo view --web");
    assert_eq!(gh::version().args, vec!["--version"]);
    assert_eq!(gh::version_line("gh version 2.0\nhttps://x\n"), "gh version 2.0");
    assert_eq!(gh::version_line(""), "");
    assert_eq!(gh::hassshkey().args, vec!["ssh-key", "list"]);
    assert_eq!(gh::isonline().args, vec!["api", "rate_limit"]);
    assert_eq!(line(&gh::clonerepo("o/r", None)), "gh repo clone o/r");
    assert_eq!(line(&gh::clonerepo("o/r", Some("d"))), "gh repo clone o/r d");
    let failure = gh::clonerepo("o/r", None).failure;
    assert_eq!(failure.explain("fatal: destination path 'r' already exists"), "Directory already exists");
    assert_eq!(failure.explain("Could not resolve to a Repository"), "Repository not found - check the name");
    assert_eq!(failure.explain("Could not resolve; already exists"), "Directory already exists");
    assert_eq!(failure.explain("boom"), "Clone failed");
}

#[test]
fn gh_repository_features() {
    let rules = gh::createruleset("octocat/hello");
    assert_eq!(
        line(&rules),
        "gh api -X POST repos/octocat/hello/rulesets --input - -H Accept: application/vnd.github+json -H X-GitHub-Api-Version: 2022-11-28"
    );
    let body = rules.input.unwrap();
    assert!(body.starts_with("\n{\n  \"name\": \"default\",\n  \"target\": \"branch\","));
    assert!(body.contains("\"allowed_merge_methods\": [\n          \"squash\",\n          \"rebase\"\n        ]"));
    assert!(body.ends_with("{ \"type\": \"deletion\", \"parameters\": {} }\n  ]\n}\n"));
    assert_eq!(rules.failure.explain(" denied \n"), "gh api failed: denied");

    let graph = gh::enable_dep_graph("octocat/hello").unwrap();
    assert_eq!(
        line(&graph),
        "gh api -X PUT repos/octocat/hello/vulnerability-alerts -H Accept: application/vnd.github+json -H X-GitHub-Api-Version: 2022-11-28"
    );
    assert_eq!(graph.context, "Failed to enable dependency graph via gh api");
    assert_eq!(graph.failure.explain("x\n"), "Failed to enable dependency graph: x");
    let updates = gh::enable_security_updates("octocat/hello/more").unwrap();
    assert_eq!(updates.args[3], "repos/octocat/hello/more/automated-security-fixes");
    assert_eq!(updates.failure.explain("x"), "Failed to enable security updates: x");
    let calls = gh::secure("octocat/hello");
    assert_eq!(calls.len(), 3);
    assert_eq!(calls[0].args[3], "repos/octocat/hello/rulesets");
    assert_eq!(calls[1].args[3], "repos/octocat/hello/vulnerability-alerts");
    assert_eq!(calls[2].args[3], "repos/octocat/hello/automated-security-fixes");
    assert_eq!(
        gh::enable_dep_graph("hello").unwrap_err(),
        "Repository name must be in the format 'owner/repo'"
    );
    assert_eq!(
        gh::enable_security_updates("").unwrap_err(),
        "Repository name must be in the format 'owner/repo'"
    );
}

#[test]
fn gh_fork() {
    assert_eq!(
        line(&gh::forkrepo("octocat/hello", "acme", "me")),
        "gh repo fork octocat/hello --default-branch-only --clone=false --org acme"
    );
    assert_eq!(
        line(&gh::forkrepo("octocat/hello", "me", "me")),
        "gh repo fork octocat/hello --default-branch-only --clone=false"
    );
    assert_eq!(
        gh::forkrepo("a", "b", "c").failure.explain(" no \n"),
        "Failed to fork repository: no"
    );
    assert_eq!(gh::fork_target("https://github.com/octocat/hello/", "acme", "\n"), "acme/hello");
    assert_eq!(gh::fork_target("hello", "acme", ""), "acme/hello");
    assert_eq!(
        gh::fork_target("octocat/hello", "acme", "\n\u{2713} Created fork https://github.com/acme/hello-1/\n"),
        "acme/hello-1"
    );
    assert_eq!(
        gh::fork_target("octocat/hello", "acme", "octocat/hello already exists as acme/hello"),
        "acme/hello"
    );
}

#[test]
fn git_calls() {
    assert_eq!(line(&git::init()), "git init");
    assert_eq!(git::hasremote().args, vec!["remote", "get-url", "origin"]);
    assert_eq!(line(&git::haschanges()), "git status --porcelain");
    assert_eq!(line(&git::addall()), "git add -A");
    assert_eq!(line(&git::commit("my work")), "git commit -m my work");
    assert_eq!(line(&git::push()), "git push -u origin HEAD");
    assert_eq!(line(&git::pull()), "git pull --rebase");
    assert_eq!(line(&git::clone("u", None)), "git clone --progress u");
    assert_eq!(line(&git::clone("u", Some("d"))), "git clone --progress u d");
    assert_eq!(line(&git::currentbranch()), "git rev-parse --abbrev-ref HEAD");
    assert_eq!(line(&git::remoteurl()), "git remote get-url origin");
    assert_eq!(line(&git::undolast()), "git reset --soft HEAD~1");
    assert_eq!(line(&git::history(25)), "git log --oneline -n 25");
    assert_eq!(git::hasunpushed().args, vec!["log", "@{u}..", "--oneline"]);
    let (fetch, log) = git::hasunpulled();
    assert_eq!(fetch.args, vec!["fetch", "--quiet"]);
    assert_eq!(log.args, vec!["log", "..@{u}", "--oneline"]);
    assert_eq!(git::version().args, vec!["--version"]);
    assert_eq!(git::printed_text(" git version 2 \n"), "git version 2");

    let rejected = "Push rejected - run 'ghk pull' first to sync changes";
    assert_eq!(git::push().failure.explain("! [rejected] main -> main"), rejected);
    assert_eq!(git::push().failure.explain("hint: non-fast-forward"), rejected);
    assert_eq!(
        git::push().failure.explain("denied"),
        "git push failed - check your permissions and try again"
    );
    assert_eq!(
        git::pull().failure.explain("CONFLICT (content)"),
        "Merge conflict detected - please resolve manually"
    );
    assert_eq!(git::pull().failure.explain("conflict"), "git pull failed");
    assert_eq!(git::clone("u", None).failure.explain("already exists"), "Directory already exists");
    assert_eq!(
        git::clone("u", None).failure.explain("x"),
        "Clone failed - check the URL and try again"
    );
    assert_eq!(git::undolast().failure.explain("x"), "Undo failed - may be no commits to undo");
    assert_eq!(git::init().context, "Failed to run git");
}

#[test]
fn git_output() {
    assert_eq!(
        git::changedfiles(" M src/lib.rs\n?? notes.txt\n\n   \n"),
        vec!["M src/lib.rs", "?? notes.txt"]
    );
    assert!(git::changedfiles("").is_empty());
    assert_eq!(git::history_lines("abc one\r\ndef two\n"), vec!["abc one", "def two"]);
    assert!(git::history_lines("").is_empty());
}
