//! What the helper asks of the GitHub CLI.

use vstd::prelude::*;
use crate::ghk::call::{call, plain, probe, Call, CallView, Failure, FailureView, Probe, ProbeView};
use crate::ghk::config::Config;
use crate::text::{
    after_last,
    find,
    head_line,
    first_line,
    occurs_in,
    split_at_first,
    split_once,
    tail_after,
    texts1,
    texts2,
    texts3,
    texts4,
    trim,
    trim_end_matches,
    trimmed,
    with_text,
    without_suffix,
    words,
    words_of,
};

verus! {

/// The program of the GitHub CLI.
pub const GH: &'static str = "gh";

/// How long to wait for GitHub to set a fork up, in seconds.
pub const FORK_WAIT_SECS: u64 = 3;

/// The rules that a new repository is given: on the default branch,
/// signed commits, pull requests that are squashed or rebased, no forced
/// pushes and no deletion.
pub const RULESET: &'static str =
    "\n{\n  \"name\": \"default\",\n  \"target\": \"branch\",\n  \"enforcement\": \"active\",\n  \"conditions\": {\n    \"ref_name\": {\n      \"include\": [\"~DEFAULT_BRANCH\"],\n      \"exclude\": []\n    }\n  },\n  \"bypass_actors\": [\n    {\n      \"actor_type\": \"OrganizationAdmin\",\n      \"bypass_mode\": \"always\"\n    }\n  ],\n  \"rules\": [\n    { \"type\": \"required_signatures\", \"parameters\": {} },\n    { \"type\": \"pull_request\", \"parameters\": {\n        \"dismiss_stale_reviews_on_push\": false,\n        \"require_code_owner_review\": false,\n        \"require_last_push_approval\": false,\n        \"required_approving_review_count\": 0,\n        \"required_review_thread_resolution\": false,\n        \"allowed_merge_methods\": [\n          \"squash\",\n          \"rebase\"\n        ]\n      }\n    },\n    { \"type\": \"non_fast_forward\", \"parameters\": {} },\n    { \"type\": \"deletion\", \"parameters\": {} }\n  ]\n}\n";

/// Who holds the copyright of what the helper creates.
#[derive(Debug)]
pub enum Holder {
    /// The organization that the settings name.
    Organization(String),
    /// The account that is logged in; the host is to ask GitHub for it.
    CurrentUser,
}

pub enum HolderView {
    Organization(Seq<char>),
    CurrentUser,
}

impl View for Holder {
    type V = HolderView;

    open spec fn view(&self) -> HolderView {
        match *self {
            Holder::Organization(name) => HolderView::Organization(name@),
            Holder::CurrentUser => HolderView::CurrentUser,
        }
    }
}

/// The copyright holder: the organization of the settings where there is
/// one, otherwise the account that is logged in.
pub fn copyright(cfg: &Config) -> (holder: Holder)
    ensures
        holder@ == match cfg@.org {
            Some(org) => HolderView::Organization(org),
            None => HolderView::CurrentUser,
        },
{
    match &cfg.org {
        Some(org) => Holder::Organization(org.clone()),
        None => Holder::CurrentUser,
    }
}

/// Logs in.
pub fn login() -> (made: Call)
    ensures
        made@ == call(
            GH@,
            seq!["auth"@, "login"@],
            "Failed to run gh - is it installed?"@,
            "Login was cancelled or failed"@,
        ),
{
    plain(
        GH,
        texts2("auth", "login"),
        "Failed to run gh - is it installed?",
        "Login was cancelled or failed",
    )
}

/// Logs out.
pub fn logout() -> (made: Call)
    ensures
        made@ == call(GH@, seq!["auth"@, "logout"@], "Failed to run gh"@, "Logout failed"@),
{
    plain(GH, texts2("auth", "logout"), "Failed to run gh", "Logout failed")
}

/// Finds out whether the user is logged in: whether the program succeeds.
pub fn loggedin() -> (made: Probe)
    ensures
        made@ == (ProbeView { program: GH@, args: seq!["auth"@, "status"@] }),
{
    probe(GH, texts2("auth", "status"))
}

/// Asks for the account that is logged in. What the program prints is the
/// name, with white space around it.
pub fn whoami() -> (made: Call)
    ensures
        made@ == call(
            GH@,
            seq!["api"@, "user"@, "-q"@, ".login"@],
            "Failed to get current user"@,
            "Not logged in"@,
        ),
{
    plain(GH, texts4("api", "user", "-q", ".login"), "Failed to get current user", "Not logged in")
}

/// Shows the accounts.
pub fn listusers() -> (made: Call)
    ensures
        made@ == call(GH@, seq!["auth"@, "status"@], "Failed to run gh"@, "No accounts found"@),
{
    plain(GH, texts2("auth", "status"), "Failed to run gh", "No accounts found")
}

/// Switches to an account. Where the program fails, the account is not
/// known here: the host shows the failure and goes on with a login.
pub fn switchuser(name: &str) -> (made: Call)
    ensures
        made@ == call(
            GH@,
            seq!["auth"@, "switch"@, "-u"@, name@],
            "Failed to switch user"@,
            "Account '"@ + name@ + "' not found locally. Please log in:"@,
        ),
{
    let failure = "Account '".to_owned().concat(name).concat("' not found locally. Please log in:");
    plain(GH, texts4("auth", "switch", "-u", name), "Failed to switch user", failure.as_str())
}

/// The arguments that create a repository from the current one.
pub open spec fn create_args(name: Seq<char>, private: bool) -> Seq<Seq<char>> {
    seq![
        "repo"@,
        "create"@,
        name,
        "--source=."@,
        "--push"@,
        if private {
            "--private"@
        } else {
            "--public"@
        },
    ]
}

/// What follows in the name of a repository after its owner, where the
/// name holds a slash.
pub open spec fn has_owner(name: Seq<char>) -> bool {
    split_at_first(name, '/') is Some
}

/// Where something of a repository is reached in the API.
pub open spec fn api_path(name: Seq<char>, what: Seq<char>) -> Seq<char> {
    "repos/"@ + split_at_first(name, '/')->Some_0.0 + "/"@ + split_at_first(name, '/')->Some_0.1
        + "/"@ + what
}

fn path_in_repo(owner: &str, repo: &str, what: &str) -> (path: String)
    ensures
        path@ == "repos/"@ + owner@ + "/"@ + repo@ + "/"@ + what@,
{
    "repos/".to_owned().concat(owner).concat("/").concat(repo).concat("/").concat(what)
}

/// The call that gives a repository its rules.
pub open spec fn ruleset_call(name: Seq<char>) -> CallView {
    CallView {
        program: GH@,
        args: seq![
            "api"@,
            "-X"@,
            "POST"@,
            api_path(name, "rulesets"@),
            "--input"@,
            "-"@,
            "-H"@,
            "Accept: application/vnd.github+json"@,
            "-H"@,
            "X-GitHub-Api-Version: 2022-11-28"@,
        ],
        input: Some(RULESET@),
        context: "Failed to run gh api"@,
        failure: FailureView::WithStderr("gh api failed: "@),
    }
}

/// Gives a repository its rules. The repository is named as `owner/repo`.
pub fn createruleset(name: &str) -> (made: Call)
    requires
        has_owner(name@),
    ensures
        made@ == ruleset_call(name@),
{
    let (owner, repo) = match split_once(name, '/') {
        Some(parts) => parts,
        None => ("", ""),
    };
    let mut args = texts4("api", "-X", "POST", path_in_repo(owner, repo, "rulesets").as_str());
    args = with_text(args, "--input");
    args = with_text(args, "-");
    args = with_text(args, "-H");
    args = with_text(args, "Accept: application/vnd.github+json");
    args = with_text(args, "-H");
    args = with_text(args, "X-GitHub-Api-Version: 2022-11-28");
    assert(args.deep_view() =~= ruleset_call(name@).args);
    Call {
        program: GH.to_owned(),
        args,
        input: Some(RULESET.to_owned()),
        context: "Failed to run gh api".to_owned(),
        failure: Failure::WithStderr("gh api failed: ".to_owned()),
    }
}

/// A call that switches a feature of a repository on.
pub open spec fn enable_call(
    name: Seq<char>,
    feature: Seq<char>,
    context: Seq<char>,
    failure: Seq<char>,
) -> CallView {
    CallView {
        program: GH@,
        args: seq![
            "api"@,
            "-X"@,
            "PUT"@,
            api_path(name, feature),
            "-H"@,
            "Accept: application/vnd.github+json"@,
            "-H"@,
            "X-GitHub-Api-Version: 2022-11-28"@,
        ],
        input: None,
        context,
        failure: FailureView::WithStderr(failure),
    }
}

/// What is reported for a name that is not of the form `owner/repo`.
pub const BAD_REPO_NAME: &'static str = "Repository name must be in the format 'owner/repo'";

fn enable(name: &str, feature: &str, context: &str, failure: &str) -> (made: Result<Call, String>)
    ensures
        match made {
            Ok(made) => has_owner(name@) && made@ == enable_call(
                name@,
                feature@,
                context@,
                failure@,
            ),
            Err(reason) => !has_owner(name@) && reason@ == BAD_REPO_NAME@,
        },
{
    match split_once(name, '/') {
        None => Err(BAD_REPO_NAME.to_owned()),
        Some((owner, repo)) => {
            let mut args = texts4("api", "-X", "PUT", path_in_repo(owner, repo, feature).as_str());
            args = with_text(args, "-H");
            args = with_text(args, "Accept: application/vnd.github+json");
            args = with_text(args, "-H");
            args = with_text(args, "X-GitHub-Api-Version: 2022-11-28");
            assert(args.deep_view() =~= enable_call(name@, feature@, context@, failure@).args);
            Ok(
                Call {
                    program: GH.to_owned(),
                    args,
                    input: None,
                    context: context.to_owned(),
                    failure: Failure::WithStderr(failure.to_owned()),
                },
            )
        },
    }
}

/// Switches the dependency graph and its alerts on.
pub fn enable_dep_graph(name: &str) -> (made: Result<Call, String>)
    ensures
        match made {
            Ok(made) => has_owner(name@) && made@ == enable_call(
                name@,
                "vulnerability-alerts"@,
                "Failed to enable dependency graph via gh api"@,
                "Failed to enable dependency graph: "@,
            ),
            Err(reason) => !has_owner(name@) && reason@ == BAD_REPO_NAME@,
        },
{
    enable(
        name,
        "vulnerability-alerts",
        "Failed to enable dependency graph via gh api",
        "Failed to enable dependency graph: ",
    )
}

/// Switches the security updates of Dependabot on.
pub fn enable_security_updates(name: &str) -> (made: Result<Call, String>)
    ensures
        match made {
            Ok(made) => has_owner(name@) && made@ == enable_call(
                name@,
                "automated-security-fixes"@,
                "Failed to enable Dependabot security updates"@,
                "Failed to enable security updates: "@,
            ),
            Err(reason) => !has_owner(name@) && reason@ == BAD_REPO_NAME@,
        },
{
    enable(
        name,
        "automated-security-fixes",
        "Failed to enable Dependabot security updates",
        "Failed to enable security updates: ",
    )
}

/// What is done about a repository once it exists: it is given its rules,
/// and its dependency graph and its security updates are switched on, in
/// this order. The repository is named as `owner/repo`.
pub fn secure(name: &str) -> (calls: Vec<Call>)
    requires
        has_owner(name@),
    ensures
        calls.deep_view() == seq![
            ruleset_call(name@),
            enable_call(
                name@,
                "vulnerability-alerts"@,
                "Failed to enable dependency graph via gh api"@,
                "Failed to enable dependency graph: "@,
            ),
            enable_call(
                name@,
                "automated-security-fixes"@,
                "Failed to enable Dependabot security updates"@,
                "Failed to enable security updates: "@,
            ),
        ],
{
    let mut calls: Vec<Call> = Vec::new();
    calls.push(createruleset(name));
    match enable_dep_graph(name) {
        Ok(call) => calls.push(call),
        Err(_) => {},
    }
    match enable_security_updates(name) {
        Ok(call) => calls.push(call),
        Err(_) => {},
    }
    assert(calls.deep_view() =~= seq![calls[0]@, calls[1]@, calls[2]@]);
    calls
}

/// Creates a repository on GitHub from the current one. The host then does
/// about it what [`secure`] says.
pub fn createrepo(name: &str, private: bool) -> (made: Call)
    ensures
        made@ == call(
            GH@,
            create_args(name@, private),
            "Failed to create repository"@,
            "Failed to create repository"@,
        ),
{
    let mut args = texts4("repo", "create", name, "--source=.");
    args = with_text(args, "--push");
    args = with_text(
        args,
        if private {
            "--private"
        } else {
            "--public"
        },
    );
    assert(args.deep_view() =~= create_args(name@, private));
    plain(GH, args, "Failed to create repository", "Failed to create repository")
}

/// The name of a repository in an address: what follows its last slash,
/// slashes at the end apart.
pub open spec fn repo_name(repo: Seq<char>) -> Seq<char> {
    after_last(without_suffix(repo, "/"@), '/')
}

/// The arguments that fork a repository: into an organization where the
/// owner is not the user.
pub open spec fn fork_args(repo: Seq<char>, owner: Seq<char>, me: Seq<char>) -> Seq<Seq<char>> {
    let args = seq!["repo"@, "fork"@, repo, "--default-branch-only"@, "--clone=false"@];
    if owner != me {
        args + seq!["--org"@, owner]
    } else {
        args
    }
}

/// Forks a repository. `me` is the account that is logged in, or empty
/// where it could not be found out.
pub fn forkrepo(repo: &str, owner: &str, me: &str) -> (made: Call)
    ensures
        made@ == (CallView {
            program: GH@,
            args: fork_args(repo@, owner@, me@),
            input: None,
            context: "Failed to fork repository"@,
            failure: FailureView::WithStderr("Failed to fork repository: "@),
        }),
{
    let mut args = texts4("repo", "fork", repo, "--default-branch-only");
    args = with_text(args, "--clone=false");
    if !owner.eq(me) {
        args = with_text(args, "--org");
        args = with_text(args, owner);
    }
    assert(args.deep_view() =~= fork_args(repo@, owner@, me@));
    Call {
        program: GH.to_owned(),
        args,
        input: None,
        context: "Failed to fork repository".to_owned(),
        failure: Failure::WithStderr("Failed to fork repository: ".to_owned()),
    }
}

/// The first of the words that names something of the owner.
pub open spec fn owned_word(words: Seq<Seq<char>>, owner: Seq<char>) -> Option<Seq<char>>
    decreases words.len(),
{
    if words.len() == 0 {
        None
    } else if occurs_in(owner + "/"@, words[0]) {
        Some(words[0])
    } else {
        owned_word(words.drop_first(), owner)
    }
}

/// Whether `at` is where `part` first stands in `text`.
pub open spec fn is_first_at(part: Seq<char>, text: Seq<char>, at: int) -> bool {
    crate::text::occurs_at(part, text, at) && forall|j: int|
        0 <= j < at ==> !crate::text::occurs_at(part, text, j)
}

/// Where `part` first stands in `text`, where it stands in it.
pub open spec fn first_place(part: Seq<char>, text: Seq<char>) -> int {
    choose|at: int| is_first_at(part, text, at)
}

/// The fork as GitHub named it: what the program printed of the owner's,
/// from the owner on and slashes at the end apart, where it printed such a
/// thing; otherwise the name of the repository under the owner.
pub open spec fn fork_name(repo: Seq<char>, owner: Seq<char>, printed: Seq<char>) -> Seq<char> {
    match owned_word(words_of(printed), owner) {
        None => owner + "/"@ + repo_name(repo),
        Some(word) => without_suffix(word.skip(first_place(owner + "/"@, word)), "/"@),
    }
}

/// The fork as GitHub named it. `printed` is what the program wrote to its
/// output, a line feed, and what it wrote to its error stream.
pub fn fork_target(repo: &str, owner: &str, printed: &str) -> (target: String)
    ensures
        target@ == fork_name(repo@, owner@, printed@),
{
    let prefix = owner.to_owned().concat("/");
    let all = words(printed);
    let ghost listed = all.deep_view();
    let mut i: usize = 0;
    assert(listed.skip(0) =~= listed);
    while i < all.len()
        invariant
            i <= all.len(),
            listed == all.deep_view(),
            listed == words_of(printed@),
            prefix@ == owner@ + "/"@,
            owned_word(listed, owner@) == owned_word(listed.skip(i as int), owner@),
        decreases all.len() - i,
    {
        assert(listed.skip(i as int).drop_first() =~= listed.skip(i + 1));
        match find(all[i].as_str(), prefix.as_str()) {
            Some(at) => {
                let length = all[i].as_str().unicode_len();
                let tail = all[i].as_str().substring_char(at, length);
                let target = trim_end_matches(tail, "/").to_owned();
                proof {
                    let word = listed[i as int];
                    assert(is_first_at(owner@ + "/"@, word, at as int));
                    let chosen = first_place(owner@ + "/"@, word);
                }
                return target;
            },
            None => {},
        }
        i += 1;
    }
    let name = tail_after(trim_end_matches(repo, "/"), '/');
    owner.to_owned().concat("/").concat(name)
}

/// The arguments that download a repository.
pub open spec fn clone_args(repo: Seq<char>, dir: Option<Seq<char>>) -> Seq<Seq<char>> {
    match dir {
        Some(dir) => seq!["repo"@, "clone"@, repo, dir],
        None => seq!["repo"@, "clone"@, repo],
    }
}

/// Downloads a repository, into a directory where one is given.
pub fn clonerepo(repo: &str, dir: Option<&str>) -> (made: Call)
    ensures
        made@ == (CallView {
            program: GH@,
            args: clone_args(repo@, dir.deep_view()),
            input: None,
            context: "Failed to clone repository"@,
            failure: FailureView::ByStderr(
                seq![
                    ("already exists"@, "Directory already exists"@),
                    ("Could not resolve"@, "Repository not found - check the name"@),
                ],
                "Clone failed"@,
            ),
        }),
{
    let args = match dir {
        Some(dir) => texts4("repo", "clone", repo, dir),
        None => texts3("repo", "clone", repo),
    };
    let mut cases: Vec<(String, String)> = Vec::new();
    cases.push(("already exists".to_owned(), "Directory already exists".to_owned()));
    cases.push(
        ("Could not resolve".to_owned(), "Repository not found - check the name".to_owned()),
    );
    assert(cases.deep_view() =~= seq![
        ("already exists"@, "Directory already exists"@),
        ("Could not resolve"@, "Repository not found - check the name"@),
    ]);
    Call {
        program: GH.to_owned(),
        args,
        input: None,
        context: "Failed to clone repository".to_owned(),
        failure: Failure::ByStderr(cases, "Clone failed".to_owned()),
    }
}

/// Opens the repository in the browser.
pub fn openrepo() -> (made: Call)
    ensures
        made@ == call(
            GH@,
            seq!["repo"@, "view"@, "--web"@],
            "Failed to open browser"@,
            "Could not open in browser"@,
        ),
{
    plain(GH, texts3("repo", "view", "--web"), "Failed to open browser", "Could not open in browser")
}

/// Asks for the version of the GitHub CLI. The version is the first line
/// of what the program prints.
pub fn version() -> (made: Probe)
    ensures
        made@ == (ProbeView { program: GH@, args: seq!["--version"@] }),
{
    probe(GH, texts1("--version"))
}

/// The version in what the GitHub CLI printed.
pub fn version_line(printed: &str) -> (line: &str)
    ensures
        line@ == first_line(printed@),
{
    head_line(printed)
}

/// Finds out whether the account has an SSH key: whether the program
/// succeeds and prints anything.
pub fn hassshkey() -> (made: Probe)
    ensures
        made@ == (ProbeView { program: GH@, args: seq!["ssh-key"@, "list"@] }),
{
    probe(GH, texts2("ssh-key", "list"))
}

/// Finds out whether GitHub can be reached: whether the program succeeds.
pub fn isonline() -> (made: Probe)
    ensures
        made@ == (ProbeView { program: GH@, args: seq!["api"@, "rate_limit"@] }),
{
    probe(GH, texts2("api", "rate_limit"))
}

/// The name in what `whoami` printed.
pub fn account_name(printed: &str) -> (name: &str)
    ensures
        name@ == trimmed(printed@),
{
    trim(printed)
}

} // verus!
