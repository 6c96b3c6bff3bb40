//! Releases, tags and container versions: what is deleted, and what is
//! created.
//!
//! Tags are deleted in a mirror of the repository that the host clones.
//! The host makes the clone, lists the tags and pushes; what follows from
//! each of these is decided here.

use vstd::prelude::*;
use crate::text::{decimal, find_char, lines, lines_of, split_at_first, split_once, to_decimal};
use crate::views::{lemma_filter_map_none, lemma_filter_map_step};

verus! {

/// A release.
#[derive(Debug)]
pub struct Release {
    pub id: u64,
    pub tag_name: String,
}

/// A version of a package.
#[derive(Debug)]
pub struct PackageVersion {
    pub id: u64,
    pub metadata: Option<PackageMetadata>,
}

#[derive(Debug)]
pub struct PackageMetadata {
    pub container: Option<ContainerMetadata>,
}

#[derive(Debug)]
pub struct ContainerMetadata {
    pub tags: Option<Vec<String>>,
}

/// A request for a new release.
#[derive(Debug)]
pub struct CreateRelease {
    pub tag_name: String,
    pub target_commitish: String,
    pub name: String,
    pub body: String,
    pub draft: bool,
    pub prerelease: bool,
    pub generate_release_notes: bool,
}

pub struct CreateReleaseView {
    pub tag_name: Seq<char>,
    pub target_commitish: Seq<char>,
    pub name: Seq<char>,
    pub body: Seq<char>,
    pub draft: bool,
    pub prerelease: bool,
    pub generate_release_notes: bool,
}

impl View for CreateRelease {
    type V = CreateReleaseView;

    open spec fn view(&self) -> CreateReleaseView {
        CreateReleaseView {
            tag_name: self.tag_name@,
            target_commitish: self.target_commitish@,
            name: self.name@,
            body: self.body@,
            draft: self.draft,
            prerelease: self.prerelease,
            generate_release_notes: self.generate_release_notes,
        }
    }
}

impl PackageVersion {
    /// How many tags the version has: none where its metadata names none.
    pub open spec fn tag_count(self) -> nat {
        match self.metadata {
            Some(PackageMetadata { container: Some(ContainerMetadata { tags: Some(tags) }) }) =>
                tags@.len(),
            _ => 0,
        }
    }

    /// Whether the version has no tag.
    pub fn is_untagged(&self) -> (untagged: bool)
        ensures
            untagged == (self.tag_count() == 0),
    {
        match &self.metadata {
            Some(metadata) => match &metadata.container {
                Some(container) => match &container.tags {
                    Some(tags) => tags.len() == 0,
                    None => true,
                },
                None => true,
            },
            None => true,
        }
    }
}

/// The versions without a tag among `versions`, by their identifiers.
pub open spec fn untagged(versions: Seq<PackageVersion>) -> Seq<u64> {
    versions.filter(|version: PackageVersion| version.tag_count() == 0).map_values(
        |version: PackageVersion| version.id,
    )
}

/// The versions without a tag, by their identifiers and in their order.
pub fn untagged_versions(versions: &Vec<PackageVersion>) -> (ids: Vec<u64>)
    ensures
        ids@ == untagged(versions@),
{
    let ghost keep = |version: PackageVersion| version.tag_count() == 0;
    let ghost id = |version: PackageVersion| version.id;
    let mut ids: Vec<u64> = Vec::new();
    let mut i: usize = 0;
    proof {
        lemma_filter_map_none(versions@, keep, id);
    }
    while i < versions.len()
        invariant
            i <= versions.len(),
            keep == |version: PackageVersion| version.tag_count() == 0,
            id == |version: PackageVersion| version.id,
            ids@ == versions@.take(i as int).filter(keep).map_values(id),
        decreases versions.len() - i,
    {
        proof {
            lemma_filter_map_step(versions@, i as int, keep, id);
        }
        if versions[i].is_untagged() {
            ids.push(versions[i].id);
        }
        i += 1;
    }
    assert(versions@.take(i as int) =~= versions@);
    ids
}

/// The organization and the project that a repository is named by: the
/// parts around its one slash.
pub open spec fn repo_parts(repo: Seq<char>) -> Option<(Seq<char>, Seq<char>)> {
    match split_at_first(repo, '/') {
        Some((org, project)) => if project.contains('/') {
            None
        } else {
            Some((org, project))
        },
        None => None,
    }
}

/// The organization and the project that a repository is named by, where
/// the name has the form `owner/project`.
pub fn split_repo(repo: &str) -> (parts: Option<(&str, &str)>)
    ensures
        match parts {
            Some((org, project)) => repo_parts(repo@) == Some((org@, project@)),
            None => repo_parts(repo@) is None,
        },
{
    match split_once(repo, '/') {
        None => None,
        Some((org, project)) => match find_char(project, '/') {
            Some(at) => {
                assert(project@.contains('/')) by {
                }
                None
            },
            None => Some((org, project)),
        },
    }
}

/// Where the versions of a container are listed.
pub open spec fn versions_path(org: Seq<char>, project: Seq<char>) -> Seq<char> {
    "orgs/"@ + org + "/packages/container/"@ + project + "/versions"@
}

/// Where the versions of a container are listed.
pub fn container_versions_path(org: &str, project: &str) -> (path: String)
    ensures
        path@ == versions_path(org@, project@),
{
    "orgs/".to_owned().concat(org).concat("/packages/container/").concat(project).concat("/versions")
}

/// Where one version of a container is deleted.
pub fn container_version_path(org: &str, project: &str, id: u64) -> (path: String)
    ensures
        path@ == versions_path(org@, project@) + "/"@ + decimal(id as nat),
{
    container_versions_path(org, project).concat("/").concat(to_decimal(id as u128).as_str())
}

/// What is to be done about the old versions of a container.
#[derive(Debug)]
pub enum ContainerCleanup {
    /// The repository is not named as `owner/project`.
    InvalidRepo,
    /// These versions are to be deleted, each at its path.
    Delete(Vec<String>),
}

/// The paths at which the versions of `ids` are deleted.
pub open spec fn version_paths(org: Seq<char>, project: Seq<char>, ids: Seq<u64>) -> Seq<
    Seq<char>,
> {
    ids.map_values(|id: u64| versions_path(org, project) + "/"@ + decimal(id as nat))
}

/// Says which versions of the container of `repo` are to be deleted: those
/// without a tag.
pub fn delete_old_container_versions(repo: &str, versions: &Vec<PackageVersion>) -> (cleanup:
    ContainerCleanup)
    ensures
        match cleanup {
            ContainerCleanup::InvalidRepo => repo_parts(repo@) is None,
            ContainerCleanup::Delete(paths) => repo_parts(repo@) matches Some((org, project))
                && paths.deep_view() == version_paths(org, project, untagged(versions@)),
        },
{
    match split_repo(repo) {
        None => ContainerCleanup::InvalidRepo,
        Some((org, project)) => {
            let ids = untagged_versions(versions);
            let mut paths: Vec<String> = Vec::new();
            let mut i: usize = 0;
            while i < ids.len()
                invariant
                    i <= ids.len(),
                    paths.deep_view() == version_paths(org@, project@, ids@.take(i as int)),
                decreases ids.len() - i,
            {
                let ghost before = paths.deep_view();
                let path = container_version_path(org, project, ids[i]);
                paths.push(path);
                assert(paths.deep_view() =~= before.push(path@));
                i += 1;
            }
            ContainerCleanup::Delete(paths)
        },
    }
}

/// Where the releases of a repository are listed and created.
pub fn releases_path(repo: &str) -> (path: String)
    ensures
        path@ == "repos/"@ + repo@ + "/releases"@,
{
    "repos/".to_owned().concat(repo).concat("/releases")
}

/// Where the repository is cloned from.
pub fn clone_url(repo: &str) -> (url: String)
    ensures
        url@ == "https://github.com/"@ + repo@,
{
    "https://github.com/".to_owned().concat(repo)
}

/// The paths at which the releases are deleted.
pub open spec fn release_paths(repo: Seq<char>, releases: Seq<Release>) -> Seq<Seq<char>> {
    releases.map_values(
        |release: Release| "repos/"@ + repo + "/releases/"@ + decimal(release.id as nat),
    )
}

/// Says where each release of a repository is deleted.
pub fn delete_all_releases(repo: &str, releases: &Vec<Release>) -> (paths: Vec<String>)
    ensures
        paths.deep_view() == release_paths(repo@, releases@),
{
    let mut paths: Vec<String> = Vec::new();
    let mut i: usize = 0;
    while i < releases.len()
        invariant
            i <= releases.len(),
            paths.deep_view() == release_paths(repo@, releases@.take(i as int)),
        decreases releases.len() - i,
    {
        let ghost before = paths.deep_view();
        let path = "repos/".to_owned().concat(repo).concat("/releases/").concat(
            to_decimal(releases[i].id as u128).as_str(),
        );
        paths.push(path);
        assert(paths.deep_view() =~= before.push(path@));
        i += 1;
    }
    paths
}

/// The arguments with which git deletes tags on the remote.
pub fn delete_tags_args(tags: &Vec<String>) -> (args: Vec<String>)
    ensures
        args.deep_view() == seq!["push"@, "origin"@, "--delete"@] + tags.deep_view(),
{
    let mut args: Vec<String> = Vec::new();
    args.push("push".to_owned());
    args.push("origin".to_owned());
    args.push("--delete".to_owned());
    let ghost head = seq!["push"@, "origin"@, "--delete"@];
    let mut i: usize = 0;
    while i < tags.len()
        invariant
            i <= tags.len(),
            head == seq!["push"@, "origin"@, "--delete"@],
            args.deep_view() == head + tags.deep_view().take(i as int),
        decreases tags.len() - i,
    {
        let ghost before = args.deep_view();
        args.push(tags[i].clone());
        assert(args.deep_view() =~= before.push(tags[i as int]@));
        i += 1;
    }
    args
}

/// Why the cleanup of tags ends early.
#[derive(Debug)]
pub struct Abort {
    /// The line for the error stream.
    pub complaint: String,
    /// The error that the work ends with.
    pub error: String,
}

pub struct AbortView {
    pub complaint: Seq<char>,
    pub error: Seq<char>,
}

impl View for Abort {
    type V = AbortView;

    open spec fn view(&self) -> AbortView {
        AbortView { complaint: self.complaint@, error: self.error@ }
    }
}

/// What the cleanup of tags does once the host has tried to mirror the
/// repository and, in the mirror, has listed the tags.
#[derive(Debug)]
pub enum TagStep {
    /// There is no mirror: the work ends.
    GiveUp(Abort),
    /// There is no tag: nothing is pushed. The line to print.
    Nothing { notice: String },
    /// All tags are deleted with one push. The line to print before, and the
    /// arguments for git.
    Push { notice: String, args: Vec<String> },
}

pub enum TagStepView {
    GiveUp(AbortView),
    Nothing { notice: Seq<char> },
    Push { notice: Seq<char>, args: Seq<Seq<char>> },
}

impl View for TagStep {
    type V = TagStepView;

    open spec fn view(&self) -> TagStepView {
        match *self {
            TagStep::GiveUp(abort) => TagStepView::GiveUp(abort@),
            TagStep::Nothing { notice } => TagStepView::Nothing { notice: notice@ },
            TagStep::Push { notice, args } => TagStepView::Push {
                notice: notice@,
                args: args.deep_view(),
            },
        }
    }
}

/// What the cleanup of tags does, for the tags that the mirror holds: it
/// gives up where the repository could not be cloned, pushes nothing where
/// there is no tag, and else deletes all tags with one push.
pub open spec fn tag_plan(repo: Seq<char>, cloned: bool, tags: Seq<Seq<char>>) -> TagStepView {
    if !cloned {
        TagStepView::GiveUp(
            AbortView {
                complaint: "Error: Unable to clone repo "@ + repo
                    + ". Ensure it exists and you have permission."@,
                error: "Git clone failed"@,
            },
        )
    } else if tags.len() == 0 {
        TagStepView::Nothing { notice: "No tags found to delete."@ }
    } else {
        TagStepView::Push {
            notice: "Found "@ + decimal(tags.len()) + " tags. Deleting..."@,
            args: seq!["push"@, "origin"@, "--delete"@] + tags,
        }
    }
}

/// Decides what the cleanup of tags does. `cloned` says whether the mirror
/// was made, `listing` is what `git tag` printed in it: one tag on each
/// line.
pub fn tag_cleanup(repo: &str, cloned: bool, listing: &str) -> (step: TagStep)
    ensures
        step@ == tag_plan(repo@, cloned, lines_of(listing@)),
{
    if !cloned {
        return TagStep::GiveUp(
            Abort {
                complaint: "Error: Unable to clone repo ".to_owned().concat(repo).concat(
                    ". Ensure it exists and you have permission.",
                ),
                error: "Git clone failed".to_owned(),
            },
        );
    }
    let tags = lines(listing);
    if tags.len() == 0 {
        TagStep::Nothing { notice: "No tags found to delete.".to_owned() }
    } else {
        TagStep::Push {
            notice: "Found ".to_owned().concat(to_decimal(tags.len() as u128).as_str()).concat(
                " tags. Deleting...",
            ),
            args: delete_tags_args(&tags),
        }
    }
}

/// What came of the push that deletes the tags: nothing where it succeeded,
/// and else what it wrote to its error stream.
pub open spec fn push_outcome(succeeded: bool, stderr: Seq<char>) -> Result<(), AbortView> {
    if succeeded {
        Ok(())
    } else {
        Err(
            AbortView {
                complaint: "Error pushing tag deletions: "@ + stderr,
                error: "Git push --delete failed"@,
            },
        )
    }
}

/// Decides whether the cleanup of tags ends well, given how the push ended.
pub fn tag_push_outcome(succeeded: bool, stderr: &str) -> (outcome: Result<(), Abort>)
    ensures
        outcome is Ok <==> succeeded,
        outcome matches Err(abort) ==> Err::<(), AbortView>(abort@) == push_outcome(
            succeeded,
            stderr@,
        ),
{
    if succeeded {
        Ok(())
    } else {
        Err(
            Abort {
                complaint: "Error pushing tag deletions: ".to_owned().concat(stderr),
                error: "Git push --delete failed".to_owned(),
            },
        )
    }
}

/// The first release.
pub open spec fn first_release() -> CreateReleaseView {
    CreateReleaseView {
        tag_name: "v0.1.0"@,
        target_commitish: "main"@,
        name: "v0.1.0"@,
        body: "First release of github-rs."@,
        draft: false,
        prerelease: false,
        generate_release_notes: true,
    }
}

/// The request that creates the first release.
pub fn create_release() -> (release: CreateRelease)
    ensures
        release@ == first_release(),
{
    CreateRelease {
        tag_name: "v0.1.0".to_owned(),
        target_commitish: "main".to_owned(),
        name: "v0.1.0".to_owned(),
        body: "First release of github-rs.".to_owned(),
        draft: false,
        prerelease: false,
        generate_release_notes: true,
    }
}

} // verus!
