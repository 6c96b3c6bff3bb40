//! What a command knows, what it asks for and what it says.

use vstd::prelude::*;
use crate::ghk::config::{Config, ConfigView};
use crate::text::{decimal, to_decimal};

verus! {

/// The manner in which a message is shown.
#[derive(Clone, Copy, Debug, PartialEq, Eq, Structural)]
pub enum Tone {
    /// Something was done.
    Success,
    /// Something needs attention.
    Warning,
    /// Something went wrong. Shown even when output is suppressed.
    Failure,
    /// Plain information.
    Info,
    /// A muted remark.
    Dim,
    /// A line that is shown as it is, even when output is suppressed.
    Plain,
}

/// A message for the user.
#[derive(Debug, Clone)]
pub struct Message {
    pub tone: Tone,
    pub text: String,
}

pub struct MessageView {
    pub tone: Tone,
    pub text: Seq<char>,
}

impl View for Message {
    type V = MessageView;

    open spec fn view(&self) -> MessageView {
        MessageView { tone: self.tone, text: self.text@ }
    }
}

impl DeepView for Message {
    type V = MessageView;

    open spec fn deep_view(&self) -> MessageView {
        self@
    }
}

/// A file that a command writes in the current directory.
#[derive(Debug)]
pub struct FileToWrite {
    pub path: String,
    pub content: String,
}

/// What a command can ask the host to find out or to do.
#[derive(Debug)]
pub enum Request {
    /// Is the current directory inside a git repository?
    IsRepo,
    /// Is there a remote named `origin`?
    HasRemote,
    /// Is the user logged in to GitHub?
    LoggedIn,
    /// Is the user logged in to GitHub, now that a login was tried?
    LoggedInAfter,
    /// Can GitHub be reached?
    Online,
    /// Does the repository have a commit?
    HasCommits,
    /// Is there a file of this name in the current directory?
    FileExists(String),
    /// Which account is logged in?
    WhoAmI,
    /// Are there changes that are not committed?
    Changes,
    /// Which files have changed?
    Files,
    /// Which branch is checked out?
    Branch,
    /// What `git branch --list` prints.
    BranchList,
    /// What is the address of the remote?
    RemoteUrl,
    /// The last commits, at most so many, one line each.
    History(usize),
    /// The name of the current directory.
    DirName,
    /// What this file in the current directory holds.
    ReadFile(String),
    /// The current year.
    Year,
    /// Ask the user to agree.
    Confirm { prompt: String, default: bool },
    /// Ask the user for a text.
    Input { prompt: String, initial: Option<String> },
    /// Ask the user to choose among items.
    Select { prompt: String, items: Vec<String> },
    /// Make the current directory a git repository.
    Init,
    /// Log in to GitHub.
    Login,
    /// Log out from GitHub.
    Logout,
    /// Open the repository in the browser.
    OpenRepo,
    /// Pull from the remote.
    Pull,
    /// Show the accounts.
    ListUsers,
    /// Switch to an account.
    SwitchUser(String),
    /// Download a repository, into a directory where one is given.
    CloneRepo { repo: String, dir: Option<String> },
    /// Fork a repository into the account of an owner.
    ForkRepo { upstream: String, owner: String },
    /// Create a repository on GitHub from the current one.
    CreateRepo { name: String, private: bool },
    /// Stage all changes.
    AddAll,
    /// Commit what is staged.
    Commit(String),
    /// Push to the remote.
    Push,
    /// Take the last commit back and keep its changes.
    UndoLast,
    /// Check a branch out. The answer says whether git did.
    Checkout(String),
    /// Make a branch and check it out. The answer says whether git did.
    CheckoutNew(String),
    /// Show the changes of the working tree.
    ShowDiff,
    /// Write a file in the current directory.
    WriteFile(FileToWrite),
    /// Write the settings out.
    SaveConfig(Config),
}

pub enum RequestView {
    IsRepo,
    HasRemote,
    LoggedIn,
    LoggedInAfter,
    Online,
    HasCommits,
    FileExists(Seq<char>),
    WhoAmI,
    Changes,
    Files,
    Branch,
    BranchList,
    RemoteUrl,
    History(usize),
    DirName,
    ReadFile(Seq<char>),
    Year,
    Confirm { prompt: Seq<char>, default: bool },
    Input { prompt: Seq<char>, initial: Option<Seq<char>> },
    Select { prompt: Seq<char>, items: Seq<Seq<char>> },
    Init,
    Login,
    Logout,
    OpenRepo,
    Pull,
    ListUsers,
    SwitchUser(Seq<char>),
    CloneRepo { repo: Seq<char>, dir: Option<Seq<char>> },
    ForkRepo { upstream: Seq<char>, owner: Seq<char> },
    CreateRepo { name: Seq<char>, private: bool },
    AddAll,
    Commit(Seq<char>),
    Push,
    UndoLast,
    Checkout(Seq<char>),
    CheckoutNew(Seq<char>),
    ShowDiff,
    WriteFile { path: Seq<char>, content: Seq<char> },
    SaveConfig(ConfigView),
}

impl View for Request {
    type V = RequestView;

    open spec fn view(&self) -> RequestView {
        match *self {
            Request::IsRepo => RequestView::IsRepo,
            Request::HasRemote => RequestView::HasRemote,
            Request::LoggedIn => RequestView::LoggedIn,
            Request::LoggedInAfter => RequestView::LoggedInAfter,
            Request::Online => RequestView::Online,
            Request::HasCommits => RequestView::HasCommits,
            Request::FileExists(path) => RequestView::FileExists(path@),
            Request::WhoAmI => RequestView::WhoAmI,
            Request::Changes => RequestView::Changes,
            Request::Files => RequestView::Files,
            Request::Branch => RequestView::Branch,
            Request::BranchList => RequestView::BranchList,
            Request::RemoteUrl => RequestView::RemoteUrl,
            Request::History(count) => RequestView::History(count),
            Request::DirName => RequestView::DirName,
            Request::ReadFile(path) => RequestView::ReadFile(path@),
            Request::Year => RequestView::Year,
            Request::Confirm { prompt, default } => RequestView::Confirm {
                prompt: prompt@,
                default,
            },
            Request::Input { prompt, initial } => RequestView::Input {
                prompt: prompt@,
                initial: initial.deep_view(),
            },
            Request::Select { prompt, items } => RequestView::Select {
                prompt: prompt@,
                items: items.deep_view(),
            },
            Request::Init => RequestView::Init,
            Request::Login => RequestView::Login,
            Request::Logout => RequestView::Logout,
            Request::OpenRepo => RequestView::OpenRepo,
            Request::Pull => RequestView::Pull,
            Request::ListUsers => RequestView::ListUsers,
            Request::SwitchUser(name) => RequestView::SwitchUser(name@),
            Request::CloneRepo { repo, dir } => RequestView::CloneRepo {
                repo: repo@,
                dir: dir.deep_view(),
            },
            Request::ForkRepo { upstream, owner } => RequestView::ForkRepo {
                upstream: upstream@,
                owner: owner@,
            },
            Request::CreateRepo { name, private } => RequestView::CreateRepo {
                name: name@,
                private,
            },
            Request::AddAll => RequestView::AddAll,
            Request::Commit(message) => RequestView::Commit(message@),
            Request::Push => RequestView::Push,
            Request::UndoLast => RequestView::UndoLast,
            Request::Checkout(branch) => RequestView::Checkout(branch@),
            Request::CheckoutNew(branch) => RequestView::CheckoutNew(branch@),
            Request::ShowDiff => RequestView::ShowDiff,
            Request::WriteFile(file) => RequestView::WriteFile {
                path: file.path@,
                content: file.content@,
            },
            Request::SaveConfig(config) => RequestView::SaveConfig(config@),
        }
    }
}

/// What the host has found out and done so far. A field is `None` until the
/// command has asked for it. A failure holds the reason.
#[derive(Debug)]
pub struct Facts {
    pub is_repo: Option<bool>,
    pub has_remote: Option<bool>,
    pub logged_in: Option<bool>,
    pub logged_in_after: Option<bool>,
    pub online: Option<bool>,
    pub has_commits: Option<bool>,
    pub file_exists: Option<bool>,
    pub user: Option<Result<String, String>>,
    pub changes: Option<Result<bool, String>>,
    pub files: Option<Result<Vec<String>, String>>,
    pub branch: Option<Result<String, String>>,
    pub branch_list: Option<Result<String, String>>,
    pub remote_url: Option<Result<String, String>>,
    pub history: Option<Result<Vec<String>, String>>,
    pub dir_name: Option<Option<String>>,
    pub file: Option<Option<String>>,
    pub year: Option<i32>,
    pub confirmed: Option<Result<bool, String>>,
    pub input: Option<Result<String, String>>,
    pub selected: Option<Result<usize, String>>,
    pub staged: Option<Result<(), String>>,
    pub committed: Option<Result<(), String>>,
    pub checked_out: Option<Result<bool, String>>,
    pub created_branch: Option<Result<bool, String>>,
    /// What came of the last thing that the command asked to be done.
    pub done: Option<Result<(), String>>,
}

/// What is known of a text that the host was asked for.
pub open spec fn text_view(known: Option<Result<String, String>>) -> Option<
    Result<Seq<char>, Seq<char>>,
> {
    match known {
        None => None,
        Some(Ok(text)) => Some(Ok(text@)),
        Some(Err(reason)) => Some(Err(reason@)),
    }
}

/// What is known of a list of texts that the host was asked for.
pub open spec fn texts_view(known: Option<Result<Vec<String>, String>>) -> Option<
    Result<Seq<Seq<char>>, Seq<char>>,
> {
    match known {
        None => None,
        Some(Ok(texts)) => Some(Ok(texts.deep_view())),
        Some(Err(reason)) => Some(Err(reason@)),
    }
}

/// What is known of a question that the host was asked.
pub open spec fn answer_view<T>(known: Option<Result<T, String>>) -> Option<Result<T, Seq<char>>> {
    match known {
        None => None,
        Some(Ok(answer)) => Some(Ok(answer)),
        Some(Err(reason)) => Some(Err(reason@)),
    }
}

pub struct FactsView {
    pub is_repo: Option<bool>,
    pub has_remote: Option<bool>,
    pub logged_in: Option<bool>,
    pub logged_in_after: Option<bool>,
    pub online: Option<bool>,
    pub has_commits: Option<bool>,
    pub file_exists: Option<bool>,
    pub user: Option<Result<Seq<char>, Seq<char>>>,
    pub changes: Option<Result<bool, Seq<char>>>,
    pub files: Option<Result<Seq<Seq<char>>, Seq<char>>>,
    pub branch: Option<Result<Seq<char>, Seq<char>>>,
    pub branch_list: Option<Result<Seq<char>, Seq<char>>>,
    pub remote_url: Option<Result<Seq<char>, Seq<char>>>,
    pub history: Option<Result<Seq<Seq<char>>, Seq<char>>>,
    pub dir_name: Option<Option<Seq<char>>>,
    pub file: Option<Option<Seq<char>>>,
    pub year: Option<i32>,
    pub confirmed: Option<Result<bool, Seq<char>>>,
    pub input: Option<Result<Seq<char>, Seq<char>>>,
    pub selected: Option<Result<usize, Seq<char>>>,
    pub staged: Option<Result<(), Seq<char>>>,
    pub committed: Option<Result<(), Seq<char>>>,
    pub checked_out: Option<Result<bool, Seq<char>>>,
    pub created_branch: Option<Result<bool, Seq<char>>>,
    pub done: Option<Result<(), Seq<char>>>,
}

impl View for Facts {
    type V = FactsView;

    open spec fn view(&self) -> FactsView {
        FactsView {
            is_repo: self.is_repo,
            has_remote: self.has_remote,
            logged_in: self.logged_in,
            logged_in_after: self.logged_in_after,
            online: self.online,
            has_commits: self.has_commits,
            file_exists: self.file_exists,
            user: text_view(self.user),
            changes: answer_view(self.changes),
            files: texts_view(self.files),
            branch: text_view(self.branch),
            branch_list: text_view(self.branch_list),
            remote_url: text_view(self.remote_url),
            history: texts_view(self.history),
            dir_name: self.dir_name.deep_view(),
            file: self.file.deep_view(),
            year: self.year,
            confirmed: answer_view(self.confirmed),
            input: text_view(self.input),
            selected: answer_view(self.selected),
            staged: answer_view(self.staged),
            committed: answer_view(self.committed),
            checked_out: answer_view(self.checked_out),
            created_branch: answer_view(self.created_branch),
            done: answer_view(self.done),
        }
    }
}

impl FactsView {
    /// Nothing is known yet.
    pub open spec fn nothing() -> FactsView {
        FactsView {
            is_repo: None,
            has_remote: None,
            logged_in: None,
            logged_in_after: None,
            online: None,
            has_commits: None,
            file_exists: None,
            user: None,
            changes: None,
            files: None,
            branch: None,
            branch_list: None,
            remote_url: None,
            history: None,
            dir_name: None,
            file: None,
            year: None,
            confirmed: None,
            input: None,
            selected: None,
            staged: None,
            committed: None,
            checked_out: None,
            created_branch: None,
            done: None,
        }
    }

    /// The name of the account, or `unknown` where it could not be found out.
    pub open spec fn user_name(self) -> Seq<char> {
        match self.user {
            Some(Ok(name)) => name,
            _ => "unknown"@,
        }
    }

    /// Whether the answer to a request is known.
    pub open spec fn knows(self, request: RequestView) -> bool {
        match request {
            RequestView::IsRepo => self.is_repo is Some,
            RequestView::HasRemote => self.has_remote is Some,
            RequestView::LoggedIn => self.logged_in is Some,
            RequestView::LoggedInAfter => self.logged_in_after is Some,
            RequestView::Online => self.online is Some,
            RequestView::HasCommits => self.has_commits is Some,
            RequestView::FileExists(_) => self.file_exists is Some,
            RequestView::WhoAmI => self.user is Some,
            RequestView::Changes => self.changes is Some,
            RequestView::Files => self.files is Some,
            RequestView::Branch => self.branch is Some,
            RequestView::BranchList => self.branch_list is Some,
            RequestView::RemoteUrl => self.remote_url is Some,
            RequestView::History(_) => self.history is Some,
            RequestView::DirName => self.dir_name is Some,
            RequestView::ReadFile(_) => self.file is Some,
            RequestView::Year => self.year is Some,
            RequestView::Confirm { .. } => self.confirmed is Some,
            RequestView::Input { .. } => self.input is Some,
            RequestView::Select { .. } => self.selected is Some,
            RequestView::AddAll => self.staged is Some,
            RequestView::Commit(_) => self.committed is Some,
            RequestView::Checkout(_) => self.checked_out is Some,
            RequestView::CheckoutNew(_) => self.created_branch is Some,
            _ => self.done is Some,
        }
    }

    /// Whether `later` is what is known once the host has answered
    /// `request`: the answer, and all that was known before, unchanged.
    pub open spec fn answered(self, request: RequestView, later: FactsView) -> bool {
        &&& !self.knows(request)
        &&& later.knows(request)
        &&& self.is_repo is Some ==> later.is_repo == self.is_repo
        &&& self.has_remote is Some ==> later.has_remote == self.has_remote
        &&& self.logged_in is Some ==> later.logged_in == self.logged_in
        &&& self.logged_in_after is Some ==> later.logged_in_after == self.logged_in_after
        &&& self.online is Some ==> later.online == self.online
        &&& self.has_commits is Some ==> later.has_commits == self.has_commits
        &&& self.file_exists is Some ==> later.file_exists == self.file_exists
        &&& self.user is Some ==> later.user == self.user
        &&& self.changes is Some ==> later.changes == self.changes
        &&& self.files is Some ==> later.files == self.files
        &&& self.branch is Some ==> later.branch == self.branch
        &&& self.branch_list is Some ==> later.branch_list == self.branch_list
        &&& self.remote_url is Some ==> later.remote_url == self.remote_url
        &&& self.history is Some ==> later.history == self.history
        &&& self.dir_name is Some ==> later.dir_name == self.dir_name
        &&& self.file is Some ==> later.file == self.file
        &&& self.year is Some ==> later.year == self.year
        &&& self.confirmed is Some ==> later.confirmed == self.confirmed
        &&& self.input is Some ==> later.input == self.input
        &&& self.selected is Some ==> later.selected == self.selected
        &&& self.staged is Some ==> later.staged == self.staged
        &&& self.committed is Some ==> later.committed == self.committed
        &&& self.checked_out is Some ==> later.checked_out == self.checked_out
        &&& self.created_branch is Some ==> later.created_branch == self.created_branch
        &&& self.done is Some ==> later.done == self.done
    }
}

impl Facts {
    /// Nothing is known yet.
    pub fn new() -> (facts: Facts)
        ensures
            facts@ == FactsView::nothing(),
    {
        Facts {
            is_repo: None,
            has_remote: None,
            logged_in: None,
            logged_in_after: None,
            online: None,
            has_commits: None,
            file_exists: None,
            user: None,
            changes: None,
            files: None,
            branch: None,
            branch_list: None,
            remote_url: None,
            history: None,
            dir_name: None,
            file: None,
            year: None,
            confirmed: None,
            input: None,
            selected: None,
            staged: None,
            committed: None,
            checked_out: None,
            created_branch: None,
            done: None,
        }
    }

    /// The name of the account, or `unknown` where it could not be found out.
    pub fn user_name(&self) -> (name: String)
        ensures
            name@ == self@.user_name(),
    {
        match &self.user {
            Some(Ok(name)) => name.clone(),
            _ => "unknown".to_owned(),
        }
    }
}

/// How a command goes on.
#[derive(Debug)]
pub enum Next {
    /// The host is to answer this, and to ask the command again.
    Need(Request),
    /// The command has ended, well or with an error.
    Finish(Result<(), String>),
}

pub enum NextView {
    Need(RequestView),
    Finish(Result<(), Seq<char>>),
}

impl View for Next {
    type V = NextView;

    open spec fn view(&self) -> NextView {
        match *self {
            Next::Need(request) => NextView::Need(request@),
            Next::Finish(Ok(_)) => NextView::Finish(Ok(())),
            Next::Finish(Err(reason)) => NextView::Finish(Err(reason@)),
        }
    }
}

/// Where a command stands: all that it has said since it began, and how it
/// goes on.
#[derive(Debug)]
pub struct Progress {
    pub messages: Vec<Message>,
    pub next: Next,
}

pub struct ProgressView {
    pub messages: Seq<MessageView>,
    pub next: NextView,
}

impl View for Progress {
    type V = ProgressView;

    open spec fn view(&self) -> ProgressView {
        ProgressView { messages: self.messages.deep_view(), next: self.next@ }
    }
}

/// Nothing has been said.
pub open spec fn silence() -> Seq<MessageView> {
    Seq::empty()
}

/// A message in a tone.
pub open spec fn said(tone: Tone, text: Seq<char>) -> MessageView {
    MessageView { tone, text }
}

/// An empty line.
pub open spec fn blank() -> MessageView {
    MessageView { tone: Tone::Plain, text: ""@ }
}

/// The items of a list, one muted message each, after what was said
/// before.
pub open spec fn listed(before: Seq<MessageView>, items: Seq<Seq<char>>) -> Seq<MessageView>
    decreases items.len(),
{
    if items.len() == 0 {
        before
    } else {
        listed(before, items.drop_last()).push(said(Tone::Dim, "  "@ + items.last()))
    }
}

/// The first `limit` items of a list, and how many there are besides.
pub open spec fn summarized(before: Seq<MessageView>, items: Seq<Seq<char>>, limit: usize) -> Seq<
    MessageView,
> {
    if items.len() > limit {
        listed(before, items.take(limit as int)).push(
            said(Tone::Dim, "  ... and "@ + decimal((items.len() - limit) as nat) + " more"@),
        )
    } else {
        listed(before, items)
    }
}

/// The command needs an answer.
pub open spec fn need(messages: Seq<MessageView>, request: RequestView) -> ProgressView {
    ProgressView { messages, next: NextView::Need(request) }
}

/// The command has ended well.
pub open spec fn succeed(messages: Seq<MessageView>) -> ProgressView {
    ProgressView { messages, next: NextView::Finish(Ok(())) }
}

/// The command has ended with an error.
pub open spec fn fail(messages: Seq<MessageView>, reason: Seq<char>) -> ProgressView {
    ProgressView { messages, next: NextView::Finish(Err(reason)) }
}

/// Whether a command that stood at `before` can stand at `after` once its
/// request was answered: it asked for something that was not known, and
/// what it had said still stands first.
pub open spec fn goes_on(facts: FactsView, before: ProgressView, after: ProgressView) -> bool {
    before.next matches NextView::Need(request) ==> !facts.knows(request)
        && before.messages.is_prefix_of(after.messages)
}

/// What has been said so far, to be added to.
pub struct Speech {
    pub messages: Vec<Message>,
}

impl View for Speech {
    type V = Seq<MessageView>;

    open spec fn view(&self) -> Seq<MessageView> {
        self.messages.deep_view()
    }
}

impl Speech {
    /// Nothing has been said.
    pub fn new() -> (speech: Speech)
        ensures
            speech@ == silence(),
    {
        Speech { messages: Vec::new() }
    }

    /// Adds a message.
    pub fn say(&mut self, tone: Tone, text: String)
        ensures
            final(self)@ == old(self)@.push(said(tone, text@)),
    {
        self.messages.push(Message { tone, text });
    }

    /// Adds an empty line.
    pub fn blank(&mut self)
        ensures
            final(self)@ == old(self)@.push(blank()),
    {
        self.say(Tone::Plain, "".to_owned());
    }

    /// Adds the first `limit` items of a list, and how many there are
    /// besides.
    pub fn summarize(&mut self, items: &Vec<String>, limit: usize)
        ensures
            final(self)@ == summarized(old(self)@, items.deep_view(), limit),
    {
        let ghost all = items.deep_view();
        let ghost before = self@;
        let shown = if items.len() > limit {
            limit
        } else {
            items.len()
        };
        let mut i: usize = 0;
        while i < shown
            invariant
                i <= shown <= items.len(),
                all == items.deep_view(),
                self@ == listed(before, all.take(i as int)),
            decreases shown - i,
        {
            proof {
                assert(all.take(i + 1).drop_last() =~= all.take(i as int));
            }
            self.say(Tone::Dim, "  ".to_owned().concat(items[i].as_str()));
            i += 1;
        }
        if items.len() > limit {
            self.say(
                Tone::Dim,
                "  ... and ".to_owned().concat(
                    to_decimal((items.len() - limit) as u128).as_str(),
                ).concat(" more"),
            );
        } else {
            assert(all.take(shown as int) =~= all);
        }
    }

    /// Adds all items of a list.
    pub fn list(&mut self, items: &Vec<String>)
        ensures
            final(self)@ == listed(old(self)@, items.deep_view()),
    {
        self.summarize(items, items.len());
    }

    /// Ends with a request.
    pub fn need(self, request: Request) -> (progress: Progress)
        ensures
            progress@ == need(self@, request@),
    {
        Progress { messages: self.messages, next: Next::Need(request) }
    }

    /// Ends well.
    pub fn succeed(self) -> (progress: Progress)
        ensures
            progress@ == succeed(self@),
    {
        Progress { messages: self.messages, next: Next::Finish(Ok(())) }
    }

    /// Ends with an error.
    pub fn fail(self, reason: String) -> (progress: Progress)
        ensures
            progress@ == fail(self@, reason@),
    {
        Progress { messages: self.messages, next: Next::Finish(Err(reason)) }
    }
}

} // verus!
