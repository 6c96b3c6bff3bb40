//! Finding the repository that a command works on.

use vstd::prelude::*;

verus! {

/// Where the name of the repository comes from.
#[derive(Debug)]
pub enum RepoSource {
    /// It was given.
    Given(String),
    /// It is the address of the remote of the current repository.
    Remote,
    /// The user is to be asked.
    Prompt,
}

pub enum RepoSourceView {
    Given(Seq<char>),
    Remote,
    Prompt,
}

impl View for RepoSource {
    type V = RepoSourceView;

    open spec fn view(&self) -> RepoSourceView {
        match *self {
            RepoSource::Given(repo) => RepoSourceView::Given(repo@),
            RepoSource::Remote => RepoSourceView::Remote,
            RepoSource::Prompt => RepoSourceView::Prompt,
        }
    }
}

/// What the user is asked for a repository to merge.
pub const REPO_PROMPT: &'static str = "Repository to merge (owner/repo or URL)";

/// What is reported where the address of the remote cannot be found out.
pub const NO_REMOTE_URL: &'static str = "Could not determine remote URL of current repo";

/// Where the name of the repository comes from: it is taken as given;
/// else, inside a repository, from its remote; else from the user.
pub fn get_repo(target: &Option<String>, in_repo: bool) -> (source: RepoSource)
    ensures
        source@ == match target.deep_view() {
            Some(repo) => RepoSourceView::Given(repo),
            None => if in_repo {
                RepoSourceView::Remote
            } else {
                RepoSourceView::Prompt
            },
        },
{
    match target {
        Some(repo) => RepoSource::Given(repo.clone()),
        None => if in_repo {
            RepoSource::Remote
        } else {
            RepoSource::Prompt
        },
    }
}

} // verus!
