//! What can go wrong in the helper.

use vstd::prelude::*;

verus! {

#[derive(Debug)]
pub enum GhkError {
    GitNotInstalled,
    GhNotInstalled,
    NotLoggedIn,
    NotARepo,
    AlreadyARepo,
    NothingToCommit,
    NoRemote,
    CommandFailed { cmd: String, reason: String },
    Cancelled,
}

pub enum GhkErrorView {
    GitNotInstalled,
    GhNotInstalled,
    NotLoggedIn,
    NotARepo,
    AlreadyARepo,
    NothingToCommit,
    NoRemote,
    CommandFailed { cmd: Seq<char>, reason: Seq<char> },
    Cancelled,
}

impl View for GhkError {
    type V = GhkErrorView;

    open spec fn view(&self) -> GhkErrorView {
        match *self {
            GhkError::GitNotInstalled => GhkErrorView::GitNotInstalled,
            GhkError::GhNotInstalled => GhkErrorView::GhNotInstalled,
            GhkError::NotLoggedIn => GhkErrorView::NotLoggedIn,
            GhkError::NotARepo => GhkErrorView::NotARepo,
            GhkError::AlreadyARepo => GhkErrorView::AlreadyARepo,
            GhkError::NothingToCommit => GhkErrorView::NothingToCommit,
            GhkError::NoRemote => GhkErrorView::NoRemote,
            GhkError::CommandFailed { cmd, reason } => GhkErrorView::CommandFailed {
                cmd: cmd@,
                reason: reason@,
            },
            GhkError::Cancelled => GhkErrorView::Cancelled,
        }
    }
}

impl GhkErrorView {
    /// The error in words.
    pub open spec fn message(self) -> Seq<char> {
        match self {
            GhkErrorView::GitNotInstalled => "Git is not installed. Run 'ghk setup' first"@,
            GhkErrorView::GhNotInstalled =>
                "GitHub CLI (gh) is not installed. Run 'ghk setup' first"@,
            GhkErrorView::NotLoggedIn => "Not logged in to GitHub. Run 'ghk login' first"@,
            GhkErrorView::NotARepo => "Not a git repository. Run 'ghk init' first"@,
            GhkErrorView::AlreadyARepo => "Already a git repository"@,
            GhkErrorView::NothingToCommit => "No changes to save"@,
            GhkErrorView::NoRemote => "No remote configured. Run 'ghk create' first"@,
            GhkErrorView::CommandFailed { cmd, reason } => cmd + " failed: "@ + reason,
            GhkErrorView::Cancelled => "Cancelled by user"@,
        }
    }
}

impl GhkError {
    /// The error in words.
    pub fn message(&self) -> (text: String)
        ensures
            text@ == self@.message(),
    {
        match self {
            GhkError::GitNotInstalled => "Git is not installed. Run 'ghk setup' first".to_owned(),
            GhkError::GhNotInstalled =>
                "GitHub CLI (gh) is not installed. Run 'ghk setup' first".to_owned(),
            GhkError::NotLoggedIn => "Not logged in to GitHub. Run 'ghk login' first".to_owned(),
            GhkError::NotARepo => "Not a git repository. Run 'ghk init' first".to_owned(),
            GhkError::AlreadyARepo => "Already a git repository".to_owned(),
            GhkError::NothingToCommit => "No changes to save".to_owned(),
            GhkError::NoRemote => "No remote configured. Run 'ghk create' first".to_owned(),
            GhkError::CommandFailed { cmd, reason } => cmd.clone().concat(" failed: ").concat(
                reason.as_str(),
            ),
            GhkError::Cancelled => "Cancelled by user".to_owned(),
        }
    }
}

} // verus!
