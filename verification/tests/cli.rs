use github_bot_lib::cli::{Args, LicenseKind, UserCmd, DEFAULT_REPO};
use github_bot_lib::text::{
    contains, find, find_char, head_line, last_two, lines, split_once, tail_after, to_chars,
    to_decimal, to_signed_decimal, trim_end_matches, trim_start_matches,
};
use github_bot_lib::utils::{get_repo, RepoSource};

#[test]
fn resolve_repo_prefers_what_was_given() {
    let given = Some("a/b".to_string());
    let found = Some("c/d".to_string());
    assert_eq!(Args::resolve_repo(&given, &found), "a/b");
    assert_eq!(Args::resolve_repo(&None, &found), "c/d");
    assert_eq!(Args::resolve_repo(&None, &None), "yonasBSD/github-rs");
    assert_eq!(DEFAULT_REPO, "yonasBSD/github-rs");
}

#[test]
fn detect_git_repo_reads_github_addresses() {
    assert_eq!(
        Args::detect_git_repo("https://github.com/octocat/hello-world.git").as_deref(),
        Some("octocat/hello-world")
    );
    assert_eq!(
        Args::detect_git_repo("git@github.com:octocat/hello-world.git").as_deref(),
        Some("octocat/hello-world")
    );
    assert_eq!(
        Args::detect_git_repo("https://github.com/octocat/hello-world").as_deref(),
        Some("octocat/hello-world")
    );
    assert_eq!(Args::detect_git_repo("https://gitlab.com/octocat/hello-world.git"), None);
    assert_eq!(Args::detect_git_repo("github.com"), None);
    assert_eq!(Args::detect_git_repo("github.com/x").as_deref(), Some("github.com/x"));
}

#[test]
fn cli_enums() {
    assert_eq!(LicenseKind::Mit.name(), "mit");
    assert_eq!(LicenseKind::Apache.name(), "apache");
    assert_eq!(LicenseKind::Gpl.name(), "gpl");
    assert_eq!(LicenseKind::Unlicense.name(), "unlicense");
    let cmd = UserCmd::Switch { name: "x".to_string() };
    assert!(matches!(cmd, UserCmd::Switch { .. }));
}

#[test]
fn get_repo_sources() {
    assert!(
        matches!(get_repo(&Some("a/b".to_string()), true), RepoSource::Given(repo) if repo == "a/b")
    );
    assert!(matches!(get_repo(&None, true), RepoSource::Remote));
    assert!(matches!(get_repo(&None, false), RepoSource::Prompt));
}

#[test]
fn text_search() {
    assert!(contains("abc", ""));
    assert!(contains("", ""));
    assert!(!contains("", "a"));
    assert!(contains("needle in hay", "needle"));
    assert!(contains("hay needle", "needle"));
    assert!(!contains("needl", "needle"));
    assert!(contains("gr\u{fc}\u{df}e", "\u{df}e"));
    assert_eq!(find("aXbXc", "X"), Some(1));
    assert_eq!(find("\u{e9}\u{e9}b", "b"), Some(2));
    assert_eq!(find("abc", "abcd"), None);
    assert_eq!(find_char("a/b/c", '/'), Some(1));
    assert_eq!(find_char("abc", '/'), None);
    assert_eq!(to_chars("h\u{e9}"), vec!['h', '\u{e9}']);
}

#[test]
fn text_cutting() {
    assert_eq!(tail_after("a/b/c", '/'), "c");
    assert_eq!(tail_after("abc", '/'), "abc");
    assert_eq!(tail_after("abc/", '/'), "");
    assert_eq!(tail_after("", '/'), "");
    assert_eq!(split_once("a/b/c", '/'), Some(("a", "b/c")));
    assert_eq!(split_once("/x", '/'), Some(("", "x")));
    assert_eq!(split_once("abc", '/'), None);
    assert_eq!(trim_end_matches("repo.git.git", ".git"), "repo");
    assert_eq!(trim_end_matches("repo.gi", ".git"), "repo.gi");
    assert_eq!(trim_end_matches(".git", ".git"), "");
    assert_eq!(trim_end_matches("abc", ""), "abc");
    assert_eq!(trim_end_matches("a///", "/"), "a");
    assert_eq!(trim_start_matches("* * main", "* "), "main");
    assert_eq!(trim_start_matches("main", "* "), "main");
    assert_eq!(trim_start_matches("*", "* "), "*");
    assert_eq!(head_line("a\nb\nc"), "a");
    assert_eq!(head_line("abc"), "abc");
    assert_eq!(head_line("\nabc"), "");
    assert_eq!(last_two("a/b:c", '/', ':'), Some(("b", "c")));
    assert_eq!(last_two("b/c", '/', '/'), Some(("b", "c")));
    assert_eq!(last_two("/c", '/', '/'), Some(("", "c")));
    assert_eq!(last_two("c", '/', '/'), None);
    assert_eq!(last_two("a//", '/', '/'), Some(("", "")));
}

#[test]
fn text_numbers() {
    assert_eq!(to_decimal(0), "0");
    assert_eq!(to_decimal(7), "7");
    assert_eq!(to_decimal(10), "10");
    assert_eq!(to_decimal(1234567890), "1234567890");
    assert_eq!(to_decimal(u128::MAX), u128::MAX.to_string());
    assert_eq!(to_signed_decimal(0), "0");
    assert_eq!(to_signed_decimal(2026), "2026");
    assert_eq!(to_signed_decimal(-44), "-44");
    assert_eq!(to_signed_decimal(i64::MIN), i64::MIN.to_string());
}

#[test]
fn lines_are_cut_at_line_feeds() {
    assert_eq!(lines(""), Vec::<String>::new());
    assert_eq!(lines("abc"), vec!["abc"]);
    assert_eq!(lines("abc\n"), vec!["abc"]);
    assert_eq!(lines("a\nb\r\nc"), vec!["a", "b", "c"]);
    assert_eq!(lines("\n"), vec![""]);
    assert_eq!(lines("\n\n"), vec!["", ""]);
    assert_eq!(lines("a\n\nb\n"), vec!["a", "", "b"]);
    assert_eq!(lines("a\r"), vec!["a\r"]);
    assert_eq!(lines("a\rb\n"), vec!["a\rb"]);
    assert_eq!(lines("a\r\r\nb"), vec!["a\r", "b"]);
    assert_eq!(lines("\r\n"), vec![""]);
}

#[test]
fn lines_are_those_of_the_standard_library() {
    let texts = [
        "",
        "one",
        "one\ntwo",
        "one\r\ntwo\r\n",
        "\r",
        "\r\r\n\r",
        "\n\r\n\n",
        "tab\there\n caf\u{e9} \u{1f6a7}\r\nlast\r",
    ];
    for text in texts {
        let expected: Vec<String> = text.lines().map(str::to_string).collect();
        assert_eq!(lines(text), expected, "{text:?}");
    }
}
