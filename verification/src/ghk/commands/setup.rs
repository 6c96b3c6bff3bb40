//! Checks what the helper needs, and offers to install what is missing.

use vstd::prelude::*;
use crate::ghk::flow::{blank, said, silence, Message, MessageView, Speech, Tone};
use crate::text::texts4;

verus! {

/// The tools that the helper needs.
#[derive(Clone, Copy, Debug, PartialEq, Eq, Structural)]
pub enum Tool {
    Git,
    Gh,
}

impl Tool {
    pub open spec fn spec_program(self) -> Seq<char> {
        match self {
            Tool::Git => "git"@,
            Tool::Gh => "gh"@,
        }
    }

    /// The program of the tool.
    pub fn program(self) -> (name: &'static str)
        ensures
            name@ == self.spec_program(),
    {
        match self {
            Tool::Git => "git",
            Tool::Gh => "gh",
        }
    }

    pub open spec fn spec_winget_id(self) -> Seq<char> {
        match self {
            Tool::Git => "Git.Git"@,
            Tool::Gh => "GitHub.cli"@,
        }
    }

    /// The name of the tool for winget.
    pub fn winget_id(self) -> (id: &'static str)
        ensures
            id@ == self.spec_winget_id(),
    {
        match self {
            Tool::Git => "Git.Git",
            Tool::Gh => "GitHub.cli",
        }
    }

    pub open spec fn spec_title(self) -> Seq<char> {
        match self {
            Tool::Git => "Git"@,
            Tool::Gh => "GitHub CLI"@,
        }
    }

    /// The name of the tool for the user.
    pub fn title(self) -> (title: &'static str)
        ensures
            title@ == self.spec_title(),
    {
        match self {
            Tool::Git => "Git",
            Tool::Gh => "GitHub CLI",
        }
    }
}

/// What a question to the user is about.
#[derive(Clone, Copy, Debug, PartialEq, Eq, Structural)]
pub enum Topic {
    /// Whether to install a tool.
    Install(Tool),
    /// Whether to log in.
    Login,
}

/// What came of running an installer.
#[derive(Debug, Clone)]
pub enum Ran {
    Succeeded,
    Failed,
    /// The installer could not be started; the reason.
    NotStarted(String),
}

pub enum RanView {
    Succeeded,
    Failed,
    NotStarted(Seq<char>),
}

impl View for Ran {
    type V = RanView;

    open spec fn view(&self) -> RanView {
        match *self {
            Ran::Succeeded => RanView::Succeeded,
            Ran::Failed => RanView::Failed,
            Ran::NotStarted(reason) => RanView::NotStarted(reason@),
        }
    }
}

/// What is known of the installation of one tool.
#[derive(Debug)]
pub struct InstallFacts {
    /// Whether the user agreed to the installation.
    pub agreed: Option<Result<bool, String>>,
    /// What came of the installer.
    pub ran: Option<Ran>,
}

pub struct InstallFactsView {
    pub agreed: Option<Result<bool, Seq<char>>>,
    pub ran: Option<RanView>,
}

impl View for InstallFacts {
    type V = InstallFactsView;

    open spec fn view(&self) -> InstallFactsView {
        InstallFactsView {
            agreed: match self.agreed {
                None => None,
                Some(Ok(yes)) => Some(Ok(yes)),
                Some(Err(reason)) => Some(Err(reason@)),
            },
            ran: match self.ran {
                None => None,
                Some(ran) => Some(ran@),
            },
        }
    }
}

/// What the host has found out and done so far.
#[derive(Debug)]
pub struct SetupFacts {
    /// The operating system, as the standard library names it.
    pub os: String,
    /// The programs that were looked for, and whether they were found.
    pub programs: Vec<(String, bool)>,
    pub git_version: Option<Option<String>>,
    pub gh_version: Option<Option<String>>,
    pub install_git: InstallFacts,
    pub install_gh: InstallFacts,
    /// Whether the helper runs as the superuser.
    pub is_root: Option<bool>,
    pub logged_in: Option<bool>,
    pub user: Option<Result<String, String>>,
    /// Whether the user wants to log in now.
    pub login_now: Option<Result<bool, String>>,
    pub login: Option<Result<(), String>>,
    pub logged_in_after: Option<bool>,
    /// Whether the user is logged in when the keys are looked at.
    pub logged_in_for_keys: Option<bool>,
    pub has_ssh_key: Option<bool>,
    pub online: Option<bool>,
}

pub struct SetupFactsView {
    pub os: Seq<char>,
    pub programs: Seq<(Seq<char>, bool)>,
    pub git_version: Option<Option<Seq<char>>>,
    pub gh_version: Option<Option<Seq<char>>>,
    pub install_git: InstallFactsView,
    pub install_gh: InstallFactsView,
    pub is_root: Option<bool>,
    pub logged_in: Option<bool>,
    pub user: Option<Result<Seq<char>, Seq<char>>>,
    pub login_now: Option<Result<bool, Seq<char>>>,
    pub login: Option<Result<(), Seq<char>>>,
    pub logged_in_after: Option<bool>,
    pub logged_in_for_keys: Option<bool>,
    pub has_ssh_key: Option<bool>,
    pub online: Option<bool>,
}

impl View for SetupFacts {
    type V = SetupFactsView;

    open spec fn view(&self) -> SetupFactsView {
        SetupFactsView {
            os: self.os@,
            programs: self.programs.deep_view(),
            git_version: self.git_version.deep_view(),
            gh_version: self.gh_version.deep_view(),
            install_git: self.install_git@,
            install_gh: self.install_gh@,
            is_root: self.is_root,
            logged_in: self.logged_in,
            user: crate::ghk::flow::text_view(self.user),
            login_now: crate::ghk::flow::answer_view(self.login_now),
            login: crate::ghk::flow::answer_view(self.login),
            logged_in_after: self.logged_in_after,
            logged_in_for_keys: self.logged_in_for_keys,
            has_ssh_key: self.has_ssh_key,
            online: self.online,
        }
    }
}

/// Whether a program was found: `None` until it was looked for.
pub open spec fn found(programs: Seq<(Seq<char>, bool)>, name: Seq<char>) -> Option<bool>
    decreases programs.len(),
{
    if programs.len() == 0 {
        None
    } else if programs[0].0 == name {
        Some(programs[0].1)
    } else {
        found(programs.drop_first(), name)
    }
}

impl SetupFactsView {
    /// What is known of the installation of a tool.
    pub open spec fn install(self, tool: Tool) -> InstallFactsView {
        match tool {
            Tool::Git => self.install_git,
            Tool::Gh => self.install_gh,
        }
    }

    /// What is known of the version of a tool.
    pub open spec fn version(self, tool: Tool) -> Option<Option<Seq<char>>> {
        match tool {
            Tool::Git => self.git_version,
            Tool::Gh => self.gh_version,
        }
    }

    /// The name of the account, or `unknown` where it could not be found out.
    pub open spec fn user_name(self) -> Seq<char> {
        match self.user {
            Some(Ok(name)) => name,
            _ => "unknown"@,
        }
    }
}

impl SetupFacts {
    /// Nothing is known yet but the operating system.
    pub fn new(os: String) -> (facts: SetupFacts)
        ensures
            facts.os@ == os@,
            facts.programs@.len() == 0,
            facts.git_version is None,
            facts.gh_version is None,
            facts.install_git.agreed is None,
            facts.install_git.ran is None,
            facts.install_gh.agreed is None,
            facts.install_gh.ran is None,
            facts.is_root is None,
            facts.logged_in is None,
            facts.user is None,
            facts.login_now is None,
            facts.login is None,
            facts.logged_in_after is None,
            facts.logged_in_for_keys is None,
            facts.has_ssh_key is None,
            facts.online is None,
    {
        SetupFacts {
            os,
            programs: Vec::new(),
            git_version: None,
            gh_version: None,
            install_git: InstallFacts { agreed: None, ran: None },
            install_gh: InstallFacts { agreed: None, ran: None },
            is_root: None,
            logged_in: None,
            user: None,
            login_now: None,
            login: None,
            logged_in_after: None,
            logged_in_for_keys: None,
            has_ssh_key: None,
            online: None,
        }
    }

    /// Whether a program was found.
    pub fn is_found(&self, name: &str) -> (known: Option<bool>)
        ensures
            known == found(self@.programs, name@),
    {
        let ghost all = self.programs.deep_view();
        let mut i: usize = 0;
        assert(all.skip(0) =~= all);
        while i < self.programs.len()
            invariant
                i <= self.programs.len(),
                all == self.programs.deep_view(),
                found(all, name@) == found(all.skip(i as int), name@),
            decreases self.programs.len() - i,
        {
            assert(all.skip(i as int).drop_first() =~= all.skip(i + 1));
            if self.programs[i].0.as_str().eq(name) {
                return Some(self.programs[i].1);
            }
            i += 1;
        }
        None
    }

    fn install(&self, tool: Tool) -> (facts: &InstallFacts)
        ensures
            facts@ == self@.install(tool),
    {
        match tool {
            Tool::Git => &self.install_git,
            Tool::Gh => &self.install_gh,
        }
    }
}

/// What the setup can ask the host to find out or to do.
#[derive(Debug)]
pub enum SetupRequest {
    /// Is this program on the path?
    Which(String),
    /// Which version of the tool is installed?
    Version(Tool),
    /// Ask the user to agree.
    Confirm { topic: Topic, prompt: String, default: bool },
    /// Does the helper run as the superuser?
    IsRoot,
    /// Run an installer for a tool.
    Run { tool: Tool, program: String, args: Vec<String> },
    /// Is the user logged in to GitHub?
    LoggedIn,
    /// Which account is logged in?
    WhoAmI,
    /// Log in to GitHub.
    Login,
    /// Is the user logged in to GitHub, now that a login was tried?
    LoggedInAfter,
    /// Is the user logged in to GitHub, now that the keys are looked at?
    LoggedInForKeys,
    /// Does the account have an SSH key?
    HasSshKey,
    /// Can GitHub be reached?
    Online,
}

pub enum SetupRequestView {
    Which(Seq<char>),
    Version(Tool),
    Confirm { topic: Topic, prompt: Seq<char>, default: bool },
    IsRoot,
    Run { tool: Tool, program: Seq<char>, args: Seq<Seq<char>> },
    LoggedIn,
    WhoAmI,
    Login,
    LoggedInAfter,
    LoggedInForKeys,
    HasSshKey,
    Online,
}

impl View for SetupRequest {
    type V = SetupRequestView;

    open spec fn view(&self) -> SetupRequestView {
        match *self {
            SetupRequest::Which(program) => SetupRequestView::Which(program@),
            SetupRequest::Version(tool) => SetupRequestView::Version(tool),
            SetupRequest::Confirm { topic, prompt, default } => SetupRequestView::Confirm {
                topic,
                prompt: prompt@,
                default,
            },
            SetupRequest::IsRoot => SetupRequestView::IsRoot,
            SetupRequest::Run { tool, program, args } => SetupRequestView::Run {
                tool,
                program: program@,
                args: args.deep_view(),
            },
            SetupRequest::LoggedIn => SetupRequestView::LoggedIn,
            SetupRequest::WhoAmI => SetupRequestView::WhoAmI,
            SetupRequest::Login => SetupRequestView::Login,
            SetupRequest::LoggedInAfter => SetupRequestView::LoggedInAfter,
            SetupRequest::LoggedInForKeys => SetupRequestView::LoggedInForKeys,
            SetupRequest::HasSshKey => SetupRequestView::HasSshKey,
            SetupRequest::Online => SetupRequestView::Online,
        }
    }
}

/// Why a part of the setup does not go on to the next.
#[derive(Debug)]
pub enum Stop {
    /// The host is to answer this, and to ask again.
    Need(SetupRequest),
    /// The setup has failed; the reason.
    Fail(String),
}

pub enum StopView {
    Need(SetupRequestView),
    Fail(Seq<char>),
}

impl View for Stop {
    type V = StopView;

    open spec fn view(&self) -> StopView {
        match *self {
            Stop::Need(request) => StopView::Need(request@),
            Stop::Fail(reason) => StopView::Fail(reason@),
        }
    }
}

/// The view of what a part of the setup hands back.
pub open spec fn stop_view(stop: Option<Stop>) -> Option<StopView> {
    match stop {
        None => None,
        Some(stop) => Some(stop@),
    }
}

/// Where a part of the setup stands: what has been said up to now, and
/// why it does not go on, where it does not.
pub struct Part {
    pub messages: Seq<MessageView>,
    pub stop: Option<StopView>,
}

/// The part goes on.
pub open spec fn on(messages: Seq<MessageView>) -> Part {
    Part { messages, stop: None }
}

/// The part waits for an answer.
pub open spec fn wait(messages: Seq<MessageView>, request: SetupRequestView) -> Part {
    Part { messages, stop: Some(StopView::Need(request)) }
}

/// The part has failed.
pub open spec fn failed(messages: Seq<MessageView>, reason: Seq<char>) -> Part {
    Part { messages, stop: Some(StopView::Fail(reason)) }
}

/// The arguments of a command in one line.
pub open spec fn joined(args: Seq<Seq<char>>) -> Seq<char>
    decreases args.len(),
{
    if args.len() == 0 {
        Seq::empty()
    } else if args.len() == 1 {
        args[0]
    } else {
        joined(args.drop_last()) + " "@ + args.last()
    }
}

/// The arguments of a command in one line.
pub fn join(args: &Vec<String>) -> (line: String)
    ensures
        line@ == joined(args.deep_view()),
{
    let ghost all = args.deep_view();
    let mut line = String::new();
    if args.len() == 0 {
        return line;
    }
    line = args[0].clone();
    let mut i: usize = 1;
    while i < args.len()
        invariant
            1 <= i <= args.len(),
            all == args.deep_view(),
            line@ == joined(all.take(i as int)),
        decreases args.len() - i,
    {
        proof {
            assert(all.take(i + 1).drop_last() =~= all.take(i as int));
        }
        line = line.concat(" ").concat(args[i].as_str());
        i += 1;
    }
    assert(all.take(i as int) =~= all);
    line
}

/// The installer for a tool under a package manager of Linux, where the
/// helper knows one for it.
pub open spec fn linux_installer(manager: Seq<char>, tool: Tool) -> Option<Seq<Seq<char>>> {
    if manager == "apt"@ {
        Some(seq!["apt"@, "install"@, "-y"@, tool.spec_program()])
    } else if manager == "dnf"@ {
        Some(seq!["dnf"@, "install"@, "-y"@, tool.spec_program()])
    } else if manager == "pacman"@ {
        Some(seq!["pacman"@, "-S"@, "--noconfirm"@, tool.spec_program()])
    } else if manager == "zypper"@ {
        Some(seq!["zypper"@, "install"@, "-y"@, tool.spec_program()])
    } else {
        None
    }
}

/// The installer for a tool on FreeBSD.
pub open spec fn freebsd_installer(tool: Tool) -> Seq<Seq<char>> {
    seq!["pkg"@, "install"@, "-y"@, tool.spec_program()]
}

/// The installer for a tool under a package manager of Linux.
pub fn installonlinux(manager: &str, tool: Tool) -> (args: Option<Vec<String>>)
    ensures
        args.deep_view() == linux_installer(manager@, tool),
{
    if manager.eq("apt") {
        Some(texts4("apt", "install", "-y", tool.program()))
    } else if manager.eq("dnf") {
        Some(texts4("dnf", "install", "-y", tool.program()))
    } else if manager.eq("pacman") {
        Some(texts4("pacman", "-S", "--noconfirm", tool.program()))
    } else if manager.eq("zypper") {
        Some(texts4("zypper", "install", "-y", tool.program()))
    } else {
        None
    }
}

/// The installer for a tool on FreeBSD.
pub fn installonfreebsd(tool: Tool) -> (args: Vec<String>)
    ensures
        args.deep_view() == freebsd_installer(tool),
{
    texts4("pkg", "install", "-y", tool.program())
}

/// The package managers of Linux, in the order in which they are looked
/// for.
pub open spec fn managers() -> Seq<Seq<char>> {
    seq!["apt"@, "dnf"@, "pacman"@, "zypper"@, "apk"@]
}

/// What is known of the package manager among the first `count` of the
/// list: the first that was found, or the first that was not yet looked
/// for, or that there is none.
pub enum Detected {
    /// This one is installed.
    Manager(Seq<char>),
    /// This one is to be looked for.
    Unknown(Seq<char>),
    /// None is installed.
    Nothing,
}

/// What is known of the package manager.
pub open spec fn detected(programs: Seq<(Seq<char>, bool)>, from: int) -> Detected
    decreases managers().len() - from,
{
    if from < 0 || from >= managers().len() {
        Detected::Nothing
    } else {
        match found(programs, managers()[from]) {
            None => Detected::Unknown(managers()[from]),
            Some(true) => Detected::Manager(managers()[from]),
            Some(false) => detected(programs, from + 1),
        }
    }
}

/// What is said where a tool has to be installed by hand.
pub open spec fn by_hand(before: Seq<MessageView>, tool: Tool) -> Seq<MessageView> {
    before.push(said(Tone::Warning, "Could not detect package manager"@)).push(
        said(Tone::Dim, "Please install manually:"@),
    ).push(said(Tone::Dim, "  sudo apt install "@ + tool.spec_program())).push(
        said(Tone::Dim, "  sudo dnf install "@ + tool.spec_program()),
    ).push(said(Tone::Dim, "  sudo pacman -S "@ + tool.spec_program()))
}

/// The part that runs an installer as the superuser.
pub open spec fn sudo_part(
    before: Seq<MessageView>,
    tool: Tool,
    args: Seq<Seq<char>>,
    facts: SetupFactsView,
) -> Part {
    match found(facts.programs, "sudo"@) {
        None => wait(before, SetupRequestView::Which("sudo"@)),
        Some(false) => on(
            before.push(said(Tone::Warning, "sudo not found"@)).push(
                said(Tone::Dim, "Please run as root or install sudo"@),
            ).push(said(Tone::Dim, "  "@ + joined(args))),
        ),
        Some(true) => match facts.is_root {
            None => wait(before, SetupRequestView::IsRoot),
            Some(root) => {
                let asked = if root {
                    before
                } else {
                    before.push(said(Tone::Dim, "This requires admin access..."@))
                };
                match facts.install(tool).ran {
                    None => wait(
                        asked,
                        if root {
                            SetupRequestView::Run { tool, program: args[0], args: args.skip(1) }
                        } else {
                            SetupRequestView::Run { tool, program: "sudo"@, args }
                        },
                    ),
                    Some(RanView::Succeeded) => on(
                        asked.push(said(Tone::Success, args.last() + " installed"@)),
                    ),
                    Some(RanView::Failed) => on(
                        asked.push(said(Tone::Warning, "Install failed - try running manually"@)),
                    ),
                    Some(RanView::NotStarted(reason)) => on(
                        asked.push(said(Tone::Warning, "Could not run command: "@ + reason)),
                    ),
                }
            },
        },
    }
}

/// What is said where a package manager is missing.
pub open spec fn missing(before: Seq<MessageView>, manager: Seq<char>) -> Seq<MessageView> {
    let warned = before.push(said(Tone::Warning, manager + " not found"@));
    if manager == "brew"@ {
        warned.push(said(Tone::Dim, "Install Homebrew from https://brew.sh"@))
    } else if manager == "winget"@ {
        warned.push(said(Tone::Dim, "winget should be pre-installed on Windows 10+"@))
    } else {
        warned
    }
}

/// The part that runs an installer through a package manager.
pub open spec fn pkg_part(
    before: Seq<MessageView>,
    tool: Tool,
    manager: Seq<char>,
    args: Seq<Seq<char>>,
    facts: SetupFactsView,
) -> Part {
    match found(facts.programs, manager) {
        None => wait(before, SetupRequestView::Which(manager)),
        Some(false) => on(missing(before, manager)),
        Some(true) => match facts.install(tool).ran {
            None => wait(before, SetupRequestView::Run { tool, program: manager, args }),
            Some(RanView::Succeeded) => on(before.push(said(Tone::Success, "Installed"@))),
            Some(RanView::Failed) => on(before.push(said(Tone::Warning, "Install failed"@))),
            Some(RanView::NotStarted(reason)) => on(
                before.push(said(Tone::Warning, "Error: "@ + reason)),
            ),
        },
    }
}

/// The part that installs a tool on Linux.
pub open spec fn linux_part(before: Seq<MessageView>, tool: Tool, facts: SetupFactsView) -> Part {
    match detected(facts.programs, 0) {
        Detected::Unknown(manager) => wait(before, SetupRequestView::Which(manager)),
        Detected::Nothing => on(by_hand(before, tool)),
        Detected::Manager(manager) => match linux_installer(manager, tool) {
            Some(args) => sudo_part(before, tool, args, facts),
            None => on(by_hand(before, tool)),
        },
    }
}

/// The question whether to install a tool.
pub open spec fn install_question(tool: Tool) -> SetupRequestView {
    SetupRequestView::Confirm {
        topic: Topic::Install(tool),
        prompt: "Install "@ + tool.spec_program() + " now?"@,
        default: true,
    }
}

/// The part that installs a tool, if the user agrees: with the package
/// manager of the operating system.
pub open spec fn install_part(before: Seq<MessageView>, tool: Tool, facts: SetupFactsView) -> Part {
    match facts.install(tool).agreed {
        None => wait(before, install_question(tool)),
        Some(Err(reason)) => failed(before, reason),
        Some(Ok(false)) => on(before.push(said(Tone::Dim, "Skipped"@))),
        Some(Ok(true)) => if facts.os == "linux"@ {
            linux_part(before, tool, facts)
        } else if facts.os == "freebsd"@ {
            sudo_part(before, tool, freebsd_installer(tool), facts)
        } else if facts.os == "macos"@ {
            pkg_part(before, tool, "brew"@, seq!["install"@, tool.spec_program()], facts)
        } else if facts.os == "windows"@ {
            pkg_part(
                before,
                tool,
                "winget"@,
                seq!["install"@, "--id"@, tool.spec_winget_id(), "-e"@],
                facts,
            )
        } else {
            on(
                before.push(
                    said(Tone::Warning, "Please install "@ + tool.spec_program() + " manually"@),
                ),
            )
        },
    }
}

/// The part that checks a tool: its version is shown where it is
/// installed; otherwise its installation is offered.
pub open spec fn tool_part(before: Seq<MessageView>, tool: Tool, facts: SetupFactsView) -> Part {
    match found(facts.programs, tool.spec_program()) {
        None => wait(before, SetupRequestView::Which(tool.spec_program())),
        Some(true) => {
            let installed = before.push(said(Tone::Success, tool.spec_title() + " installed"@));
            match facts.version(tool) {
                None => wait(installed, SetupRequestView::Version(tool)),
                Some(None) => on(installed),
                Some(Some(version)) => on(installed.push(said(Tone::Dim, "  "@ + version))),
            }
        },
        Some(false) => install_part(
            before.push(said(Tone::Warning, tool.spec_title() + " not found"@)),
            tool,
            facts,
        ),
    }
}

/// The question whether to log in.
pub open spec fn login_question() -> SetupRequestView {
    SetupRequestView::Confirm { topic: Topic::Login, prompt: "Login now?"@, default: true }
}

/// The part that checks the login, and offers one.
pub open spec fn login_part(before: Seq<MessageView>, facts: SetupFactsView) -> Part {
    match facts.logged_in {
        None => wait(before, SetupRequestView::LoggedIn),
        Some(true) => match facts.user {
            None => wait(before, SetupRequestView::WhoAmI),
            Some(_) => on(before.push(said(Tone::Success, "Logged in as "@ + facts.user_name()))),
        },
        Some(false) => {
            let warned = before.push(said(Tone::Warning, "Not logged in to GitHub"@));
            match facts.login_now {
                None => wait(warned, login_question()),
                Some(Err(reason)) => failed(warned, reason),
                Some(Ok(false)) => on(
                    warned.push(said(Tone::Dim, "Skipped - run 'ghk login' later"@)),
                ),
                Some(Ok(true)) => match facts.login {
                    None => wait(warned, SetupRequestView::Login),
                    Some(Err(reason)) => failed(warned, reason),
                    Some(Ok(_)) => match facts.logged_in_after {
                        None => wait(warned, SetupRequestView::LoggedInAfter),
                        Some(true) => on(warned.push(said(Tone::Success, "Connected!"@))),
                        Some(false) => on(warned),
                    },
                },
            }
        },
    }
}

/// The part that checks the SSH key of an account that is logged in.
pub open spec fn key_part(before: Seq<MessageView>, facts: SetupFactsView) -> Part {
    match facts.logged_in_for_keys {
        None => wait(before, SetupRequestView::LoggedInForKeys),
        Some(false) => on(before),
        Some(true) => match facts.has_ssh_key {
            None => wait(before, SetupRequestView::HasSshKey),
            Some(true) => on(before.push(said(Tone::Success, "SSH key configured"@))),
            Some(false) => on(
                before.push(said(Tone::Warning, "No SSH key found"@)).push(
                    said(Tone::Dim, "You can still use HTTPS, but SSH is recommended"@),
                ).push(said(Tone::Dim, "Run 'gh ssh-key add' to add your SSH key"@)),
            ),
        },
    }
}

/// The part that checks the connection, and ends the setup.
pub open spec fn online_part(before: Seq<MessageView>, facts: SetupFactsView) -> Part {
    match facts.online {
        None => wait(before, SetupRequestView::Online),
        Some(reachable) => on(
            (if reachable {
                before.push(said(Tone::Success, "Can reach GitHub"@))
            } else {
                before.push(said(Tone::Warning, "Cannot reach GitHub"@)).push(
                    said(Tone::Dim, "Check your internet connection"@),
                )
            }).push(blank()).push(said(Tone::Success, "All set!"@)).push(
                said(Tone::Dim, "Run 'ghk --help' to see available commands"@),
            ).push(blank()),
        ),
    }
}

/// What is said first.
pub open spec fn greeting() -> Seq<MessageView> {
    silence().push(blank()).push(said(Tone::Info, "Checking your setup..."@)).push(blank())
}

/// The course of the setup: git, the GitHub CLI, the login, the SSH key
/// and the connection are checked in this order. Only a question that
/// could not be put and a login that failed are errors.
pub open spec fn plan(facts: SetupFactsView) -> Part {
    let git = tool_part(greeting(), Tool::Git, facts);
    if git.stop is Some {
        git
    } else {
        let gh = tool_part(git.messages, Tool::Gh, facts);
        if gh.stop is Some {
            gh
        } else {
            let login = login_part(gh.messages, facts);
            if login.stop is Some {
                login
            } else {
                let key = key_part(login.messages, facts);
                if key.stop is Some {
                    key
                } else {
                    online_part(key.messages, facts)
                }
            }
        }
    }
}

/// Where the setup stands.
#[derive(Debug)]
pub struct SetupProgress {
    /// All that was said since the setup began.
    pub messages: Vec<Message>,
    /// Why the setup does not go on; `None` where it has ended well.
    pub stop: Option<Stop>,
}

impl View for SetupProgress {
    type V = Part;

    open spec fn view(&self) -> Part {
        Part { messages: self.messages.deep_view(), stop: stop_view(self.stop) }
    }
}

fn detectpm(facts: &SetupFacts) -> (result: Result<Option<&'static str>, &'static str>)
    ensures
        match result {
            Ok(Some(manager)) => detected(facts@.programs, 0) == Detected::Manager(manager@),
            Ok(None) => detected(facts@.programs, 0) == Detected::Nothing,
            Err(manager) => detected(facts@.programs, 0) == Detected::Unknown(manager@),
        },
{
    let all = vec!["apt", "dnf", "pacman", "zypper", "apk"];
    let mut i: usize = 0;
    while i < all.len()
        invariant
            i <= all.len(),
            all@.len() == managers().len(),
            forall|k: int| 0 <= k < all@.len() ==> (#[trigger] all@[k])@ == managers()[k],
            detected(facts@.programs, 0) == detected(facts@.programs, i as int),
        decreases all.len() - i,
    {
        match facts.is_found(all[i]) {
            None => { return Err(all[i]); },
            Some(true) => { return Ok(Some(all[i])); },
            Some(false) => {},
        }
        i += 1;
    }
    Ok(None)
}

fn say_by_hand(speech: &mut Speech, tool: Tool)
    ensures
        final(speech)@ == by_hand(old(speech)@, tool),
{
    speech.say(Tone::Warning, "Could not detect package manager".to_owned());
    speech.say(Tone::Dim, "Please install manually:".to_owned());
    speech.say(Tone::Dim, "  sudo apt install ".to_owned().concat(tool.program()));
    speech.say(Tone::Dim, "  sudo dnf install ".to_owned().concat(tool.program()));
    speech.say(Tone::Dim, "  sudo pacman -S ".to_owned().concat(tool.program()));
}

fn rest(args: &Vec<String>) -> (tail: Vec<String>)
    requires
        args.len() > 0,
    ensures
        tail.deep_view() == args.deep_view().skip(1),
{
    let mut tail: Vec<String> = Vec::new();
    let mut i: usize = 1;
    while i < args.len()
        invariant
            1 <= i <= args.len(),
            tail.deep_view() == args.deep_view().skip(1).take(i - 1),
        decreases args.len() - i,
    {
        let ghost before = tail.deep_view();
        tail.push(args[i].clone());
        assert(tail.deep_view() =~= before.push(args[i as int]@));
        i += 1;
    }
    tail
}

fn copy_all(args: &Vec<String>) -> (same: Vec<String>)
    ensures
        same.deep_view() == args.deep_view(),
{
    let mut same: Vec<String> = Vec::new();
    let mut i: usize = 0;
    while i < args.len()
        invariant
            i <= args.len(),
            same.deep_view() == args.deep_view().take(i as int),
        decreases args.len() - i,
    {
        let ghost before = same.deep_view();
        same.push(args[i].clone());
        assert(same.deep_view() =~= before.push(args[i as int]@));
        i += 1;
    }
    same
}

/// Runs an installer as the superuser, as far as is known.
pub fn runsudo(speech: &mut Speech, tool: Tool, args: &Vec<String>, facts: &SetupFacts) -> (stop:
    Option<Stop>)
    requires
        args.len() > 0,
    ensures
        (Part { messages: final(speech)@, stop: stop_view(stop) }) == sudo_part(
            old(speech)@,
            tool,
            args.deep_view(),
            facts@,
        ),
{
    match facts.is_found("sudo") {
        None => { return Some(Stop::Need(SetupRequest::Which("sudo".to_owned()))); },
        Some(false) => {
            speech.say(Tone::Warning, "sudo not found".to_owned());
            speech.say(Tone::Dim, "Please run as root or install sudo".to_owned());
            speech.say(Tone::Dim, "  ".to_owned().concat(join(args).as_str()));
            return None;
        },
        Some(true) => {},
    }
    let root = match facts.is_root {
        None => { return Some(Stop::Need(SetupRequest::IsRoot)); },
        Some(root) => root,
    };
    if !root {
        speech.say(Tone::Dim, "This requires admin access...".to_owned());
    }
    match &facts.install(tool).ran {
        None => {
            let request = if root {
                SetupRequest::Run { tool, program: args[0].clone(), args: rest(args) }
            } else {
                SetupRequest::Run { tool, program: "sudo".to_owned(), args: copy_all(args) }
            };
            Some(Stop::Need(request))
        },
        Some(Ran::Succeeded) => {
            let last = &args[args.len() - 1];
            speech.say(Tone::Success, last.clone().concat(" installed"));
            None
        },
        Some(Ran::Failed) => {
            speech.say(Tone::Warning, "Install failed - try running manually".to_owned());
            None
        },
        Some(Ran::NotStarted(reason)) => {
            speech.say(
                Tone::Warning,
                "Could not run command: ".to_owned().concat(reason.as_str()),
            );
            None
        },
    }
}

/// Runs an installer through a package manager, as far as is known.
pub fn runpkg(
    speech: &mut Speech,
    tool: Tool,
    manager: &str,
    args: Vec<String>,
    facts: &SetupFacts,
) -> (stop: Option<Stop>)
    ensures
        (Part { messages: final(speech)@, stop: stop_view(stop) }) == pkg_part(
            old(speech)@,
            tool,
            manager@,
            args.deep_view(),
            facts@,
        ),
{
    match facts.is_found(manager) {
        None => { return Some(Stop::Need(SetupRequest::Which(manager.to_owned()))); },
        Some(false) => {
            speech.say(Tone::Warning, manager.to_owned().concat(" not found"));
            if manager.eq("brew") {
                speech.say(Tone::Dim, "Install Homebrew from https://brew.sh".to_owned());
            } else if manager.eq("winget") {
                speech.say(
                    Tone::Dim,
                    "winget should be pre-installed on Windows 10+".to_owned(),
                );
            }
            return None;
        },
        Some(true) => {},
    }
    match &facts.install(tool).ran {
        None => Some(Stop::Need(SetupRequest::Run { tool, program: manager.to_owned(), args })),
        Some(Ran::Succeeded) => {
            speech.say(Tone::Success, "Installed".to_owned());
            None
        },
        Some(Ran::Failed) => {
            speech.say(Tone::Warning, "Install failed".to_owned());
            None
        },
        Some(Ran::NotStarted(reason)) => {
            speech.say(Tone::Warning, "Error: ".to_owned().concat(reason.as_str()));
            None
        },
    }
}

/// Installs a tool, if the user agrees, as far as is known.
pub fn installtool(speech: &mut Speech, tool: Tool, facts: &SetupFacts) -> (stop: Option<Stop>)
    ensures
        (Part { messages: final(speech)@, stop: stop_view(stop) }) == install_part(
            old(speech)@,
            tool,
            facts@,
        ),
{
    match &facts.install(tool).agreed {
        None => {
            return Some(
                Stop::Need(
                    SetupRequest::Confirm {
                        topic: Topic::Install(tool),
                        prompt: "Install ".to_owned().concat(tool.program()).concat(" now?"),
                        default: true,
                    },
                ),
            );
        },
        Some(Err(reason)) => { return Some(Stop::Fail(reason.clone())); },
        Some(Ok(false)) => {
            speech.say(Tone::Dim, "Skipped".to_owned());
            return None;
        },
        Some(Ok(true)) => {},
    }
    let os = facts.os.as_str();
    if os.eq("linux") {
        match detectpm(facts) {
            Err(manager) => Some(Stop::Need(SetupRequest::Which(manager.to_owned()))),
            Ok(None) => {
                say_by_hand(speech, tool);
                None
            },
            Ok(Some(manager)) => match installonlinux(manager, tool) {
                Some(args) => runsudo(speech, tool, &args, facts),
                None => {
                    say_by_hand(speech, tool);
                    None
                },
            },
        }
    } else if os.eq("freebsd") {
        let args = installonfreebsd(tool);
        runsudo(speech, tool, &args, facts)
    } else if os.eq("macos") {
        let mut args: Vec<String> = Vec::new();
        args.push("install".to_owned());
        args.push(tool.program().to_owned());
        assert(args.deep_view() =~= seq!["install"@, tool.spec_program()]);
        runpkg(speech, tool, "brew", args, facts)
    } else if os.eq("windows") {
        let args = texts4("install", "--id", tool.winget_id(), "-e");
        runpkg(speech, tool, "winget", args, facts)
    } else {
        speech.say(
            Tone::Warning,
            "Please install ".to_owned().concat(tool.program()).concat(" manually"),
        );
        None
    }
}

fn check_tool(speech: &mut Speech, tool: Tool, facts: &SetupFacts) -> (stop: Option<Stop>)
    ensures
        (Part { messages: final(speech)@, stop: stop_view(stop) }) == tool_part(
            old(speech)@,
            tool,
            facts@,
        ),
{
    match facts.is_found(tool.program()) {
        None => Some(Stop::Need(SetupRequest::Which(tool.program().to_owned()))),
        Some(true) => {
            speech.say(Tone::Success, tool.title().to_owned().concat(" installed"));
            let version = match tool {
                Tool::Git => &facts.git_version,
                Tool::Gh => &facts.gh_version,
            };
            match version {
                None => Some(Stop::Need(SetupRequest::Version(tool))),
                Some(None) => None,
                Some(Some(version)) => {
                    speech.say(Tone::Dim, "  ".to_owned().concat(version.as_str()));
                    None
                },
            }
        },
        Some(false) => {
            speech.say(Tone::Warning, tool.title().to_owned().concat(" not found"));
            installtool(speech, tool, facts)
        },
    }
}

fn check_login(speech: &mut Speech, facts: &SetupFacts) -> (stop: Option<Stop>)
    ensures
        (Part { messages: final(speech)@, stop: stop_view(stop) }) == login_part(
            old(speech)@,
            facts@,
        ),
{
    match facts.logged_in {
        None => Some(Stop::Need(SetupRequest::LoggedIn)),
        Some(true) => {
            let name = match &facts.user {
                None => { return Some(Stop::Need(SetupRequest::WhoAmI)); },
                Some(Ok(name)) => name.clone(),
                Some(Err(_)) => "unknown".to_owned(),
            };
            speech.say(Tone::Success, "Logged in as ".to_owned().concat(name.as_str()));
            None
        },
        Some(false) => {
            speech.say(Tone::Warning, "Not logged in to GitHub".to_owned());
            match &facts.login_now {
                None => Some(
                    Stop::Need(
                        SetupRequest::Confirm {
                            topic: Topic::Login,
                            prompt: "Login now?".to_owned(),
                            default: true,
                        },
                    ),
                ),
                Some(Err(reason)) => Some(Stop::Fail(reason.clone())),
                Some(Ok(false)) => {
                    speech.say(Tone::Dim, "Skipped - run 'ghk login' later".to_owned());
                    None
                },
                Some(Ok(true)) => match &facts.login {
                    None => Some(Stop::Need(SetupRequest::Login)),
                    Some(Err(reason)) => Some(Stop::Fail(reason.clone())),
                    Some(Ok(_)) => match facts.logged_in_after {
                        None => Some(Stop::Need(SetupRequest::LoggedInAfter)),
                        Some(true) => {
                            speech.say(Tone::Success, "Connected!".to_owned());
                            None
                        },
                        Some(false) => None,
                    },
                },
            }
        },
    }
}

fn check_key(speech: &mut Speech, facts: &SetupFacts) -> (stop: Option<Stop>)
    ensures
        (Part { messages: final(speech)@, stop: stop_view(stop) }) == key_part(old(speech)@, facts@),
{
    match facts.logged_in_for_keys {
        None => Some(Stop::Need(SetupRequest::LoggedInForKeys)),
        Some(false) => None,
        Some(true) => match facts.has_ssh_key {
            None => Some(Stop::Need(SetupRequest::HasSshKey)),
            Some(true) => {
                speech.say(Tone::Success, "SSH key configured".to_owned());
                None
            },
            Some(false) => {
                speech.say(Tone::Warning, "No SSH key found".to_owned());
                speech.say(
                    Tone::Dim,
                    "You can still use HTTPS, but SSH is recommended".to_owned(),
                );
                speech.say(Tone::Dim, "Run 'gh ssh-key add' to add your SSH key".to_owned());
                None
            },
        },
    }
}

fn check_online(speech: &mut Speech, facts: &SetupFacts) -> (stop: Option<Stop>)
    ensures
        (Part { messages: final(speech)@, stop: stop_view(stop) }) == online_part(
            old(speech)@,
            facts@,
        ),
{
    match facts.online {
        None => Some(Stop::Need(SetupRequest::Online)),
        Some(reachable) => {
            if reachable {
                speech.say(Tone::Success, "Can reach GitHub".to_owned());
            } else {
                speech.say(Tone::Warning, "Cannot reach GitHub".to_owned());
                speech.say(Tone::Dim, "Check your internet connection".to_owned());
            }
            speech.blank();
            speech.say(Tone::Success, "All set!".to_owned());
            speech.say(Tone::Dim, "Run 'ghk --help' to see available commands".to_owned());
            speech.blank();
            None
        },
    }
}

/// Where the setup stands, given what is known.
pub fn run(facts: &SetupFacts) -> (progress: SetupProgress)
    ensures
        progress@ == plan(facts@),
{
    let mut speech = Speech::new();
    speech.blank();
    speech.say(Tone::Info, "Checking your setup...".to_owned());
    speech.blank();
    let mut stop = check_tool(&mut speech, Tool::Git, facts);
    if stop.is_none() {
        stop = check_tool(&mut speech, Tool::Gh, facts);
    }
    if stop.is_none() {
        stop = check_login(&mut speech, facts);
    }
    if stop.is_none() {
        stop = check_key(&mut speech, facts);
    }
    if stop.is_none() {
        stop = check_online(&mut speech, facts);
    }
    SetupProgress { messages: speech.messages, stop }
}

} // verus!
