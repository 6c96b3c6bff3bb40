//! The parts of the command line that the commands themselves read.

use vstd::prelude::*;
use crate::text::{contains, last_two, last_two_parts, occurs_in, trim_end_matches, without_suffix};

verus! {

/// The repository that is worked on where none is given and none is found.
pub const DEFAULT_REPO: &'static str = "yonasBSD/github-rs";

/// The options that hold for every command.
#[derive(Debug)]
pub struct Args {
    /// The personal access token for GitHub, where one was given.
    pub token: Option<String>,
    /// Suppress output; errors are still shown.
    pub quiet: bool,
    /// Use no colors.
    pub nocolor: bool,
}

/// The repository that the address of a remote names, where the remote is
/// on GitHub: the last two parts of the address between slashes and colons,
/// without `.git` at the end.
pub open spec fn repo_at(url: Seq<char>) -> Option<Seq<char>> {
    if occurs_in("github.com"@, url) {
        match last_two_parts(without_suffix(url, ".git"@), '/', ':') {
            Some((owner, name)) => Some(owner + "/"@ + name),
            None => None,
        }
    } else {
        None
    }
}

/// The repository to work on: the one that was given, else the one that was
/// found, else the default.
pub open spec fn resolved(provided: Option<Seq<char>>, detected: Option<Seq<char>>) -> Seq<char> {
    match provided {
        Some(repo) => repo,
        None => match detected {
            Some(repo) => repo,
            None => DEFAULT_REPO@,
        },
    }
}

impl Args {
    /// The repository to work on. `detected` is what the remote of the
    /// current directory was found to name.
    pub fn resolve_repo(provided: &Option<String>, detected: &Option<String>) -> (repo: String)
        ensures
            repo@ == resolved(provided.deep_view(), detected.deep_view()),
    {
        if let Some(repo) = provided {
            return repo.clone();
        }
        if let Some(repo) = detected {
            return repo.clone();
        }
        DEFAULT_REPO.to_owned()
    }

    /// The repository that the address of the remote `origin` names.
    pub fn detect_git_repo(url: &str) -> (repo: Option<String>)
        ensures
            repo.deep_view() == repo_at(url@),
    {
        if contains(url, "github.com") {
            match last_two(trim_end_matches(url, ".git"), '/', ':') {
                Some((owner, name)) => Some(owner.to_owned().concat("/").concat(name)),
                None => None,
            }
        } else {
            None
        }
    }
}

/// What to do about the GitHub accounts.
#[derive(Debug, Clone)]
pub enum UserCmd {
    /// Show the accounts that are logged in.
    List,
    /// Switch to another account.
    Switch { name: String },
}

pub enum UserCmdView {
    List,
    Switch { name: Seq<char> },
}

impl View for UserCmd {
    type V = UserCmdView;

    open spec fn view(&self) -> UserCmdView {
        match *self {
            UserCmd::List => UserCmdView::List,
            UserCmd::Switch { name } => UserCmdView::Switch { name: name@ },
        }
    }
}

/// The licenses that a license file can be written for.
#[derive(Clone, Copy, Debug, PartialEq, Eq, Structural)]
pub enum LicenseKind {
    Mit,
    Apache,
    Gpl,
    Unlicense,
}

impl LicenseKind {
    pub open spec fn spec_name(self) -> Seq<char> {
        match self {
            LicenseKind::Mit => "mit"@,
            LicenseKind::Apache => "apache"@,
            LicenseKind::Gpl => "gpl"@,
            LicenseKind::Unlicense => "unlicense"@,
        }
    }

    /// The name of the license on the command line.
    pub fn name(self) -> (name: &'static str)
        ensures
            name@ == self.spec_name(),
    {
        match self {
            LicenseKind::Mit => "mit",
            LicenseKind::Apache => "apache",
            LicenseKind::Gpl => "gpl",
            LicenseKind::Unlicense => "unlicense",
        }
    }
}

} // verus!
