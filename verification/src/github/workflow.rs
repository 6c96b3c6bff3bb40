//! The runs of a repository's workflows: which are run again, and which
//! are deleted.

use vstd::prelude::*;
use crate::text::{decimal, last_two, last_two_parts, to_decimal, trim_end_matches, without_suffix};
use crate::views::{lemma_filter_map_none, lemma_filter_map_step};

verus! {

/// How many runs are deleted at a time.
pub const DELETE_BATCH: usize = 10;

/// A run of a workflow.
#[derive(Debug)]
pub struct WorkflowRun {
    pub id: u64,
    pub name: String,
    pub status: String,
    pub conclusion: Option<String>,
    pub html_url: String,
}

impl WorkflowRun {
    /// Whether the run ended with the conclusion `text`.
    pub open spec fn concluded(&self, text: Seq<char>) -> bool {
        self.conclusion matches Some(conclusion) && conclusion@ == text
    }

    /// Whether the run failed.
    pub open spec fn spec_has_failed(&self) -> bool {
        self.concluded("failure"@)
    }

    /// Whether the run failed or was cancelled.
    pub open spec fn spec_is_deletable(&self) -> bool {
        self.concluded("failure"@) || self.concluded("cancelled"@)
    }

    /// Whether the run failed, timed out or was cancelled.
    pub open spec fn spec_needs_rerun(&self) -> bool {
        self.concluded("failure"@) || self.concluded("timed_out"@) || self.concluded("cancelled"@)
    }

    fn has_conclusion(&self, text: &str) -> (yes: bool)
        ensures
            yes == self.concluded(text@),
    {
        match &self.conclusion {
            Some(conclusion) => conclusion.as_str().eq(text),
            None => false,
        }
    }

    /// Whether the run failed.
    #[verifier::when_used_as_spec(spec_has_failed)]
    pub fn has_failed(&self) -> (yes: bool)
        ensures
            yes == self.spec_has_failed(),
    {
        self.has_conclusion("failure")
    }

    /// Whether the run failed or was cancelled.
    #[verifier::when_used_as_spec(spec_is_deletable)]
    pub fn is_deletable(&self) -> (yes: bool)
        ensures
            yes == self.spec_is_deletable(),
    {
        self.has_conclusion("failure") || self.has_conclusion("cancelled")
    }

    /// Whether the run failed, timed out or was cancelled.
    #[verifier::when_used_as_spec(spec_needs_rerun)]
    pub fn needs_rerun(&self) -> (yes: bool)
        ensures
            yes == self.spec_needs_rerun(),
    {
        self.has_conclusion("failure") || self.has_conclusion("timed_out") || self.has_conclusion(
            "cancelled",
        )
    }
}

/// Where the runs for a commit are listed.
pub fn runs_url(repo: &str, commit: &str) -> (url: String)
    ensures
        url@ == "https://api.github.com/repos/"@ + repo@ + "/actions/runs?head_sha="@ + commit@,
{
    "https://api.github.com/repos/".to_owned().concat(repo).concat("/actions/runs?head_sha=").concat(
        commit,
    )
}

/// Where the failed jobs of a run are run again.
pub fn rerun_url(repo: &str, run_id: u64) -> (url: String)
    ensures
        url@ == "https://api.github.com/"@ + rerun_path(repo@, run_id),
{
    "https://api.github.com/".to_owned().concat(rerun(repo, run_id).as_str())
}

/// The path of a run.
pub open spec fn run_path(repo: Seq<char>, id: u64) -> Seq<char> {
    "repos/"@ + repo + "/actions/runs/"@ + decimal(id as nat)
}

/// The path at which the failed jobs of a run are run again.
pub open spec fn rerun_path(repo: Seq<char>, id: u64) -> Seq<char> {
    run_path(repo, id) + "/rerun-failed-jobs"@
}

fn run(repo: &str, id: u64) -> (path: String)
    ensures
        path@ == run_path(repo@, id),
{
    "repos/".to_owned().concat(repo).concat("/actions/runs/").concat(
        to_decimal(id as u128).as_str(),
    )
}

fn rerun(repo: &str, id: u64) -> (path: String)
    ensures
        path@ == rerun_path(repo@, id),
{
    run(repo, id).concat("/rerun-failed-jobs")
}

/// The repository that a remote's address names: the last two parts of the
/// address between slashes, without `.git` at the end.
pub open spec fn repo_of_url(url: Seq<char>) -> Seq<char> {
    let bare = without_suffix(url, ".git"@);
    match last_two_parts(bare, '/', '/') {
        Some((owner, name)) => owner + "/"@ + name,
        None => bare,
    }
}

/// The repository that a remote's address names.
pub fn get_repo_from_git(url: &str) -> (repo: String)
    ensures
        repo@ == repo_of_url(url@),
{
    let bare = trim_end_matches(url, ".git");
    match last_two(bare, '/', '/') {
        Some((owner, name)) => owner.to_owned().concat("/").concat(name),
        None => bare.to_owned(),
    }
}

/// The runs for a commit that are run again: those that failed, timed out
/// or were cancelled, by their identifiers and in their order.
pub open spec fn to_rerun(runs: Seq<WorkflowRun>) -> Seq<u64> {
    runs.filter(|run: WorkflowRun| run.needs_rerun()).map_values(|run: WorkflowRun| run.id)
}

/// Says which runs for a commit are run again.
pub fn rerun_workflows(runs: &Vec<WorkflowRun>) -> (ids: Vec<u64>)
    ensures
        ids@ == to_rerun(runs@),
{
    let ghost keep = |run: WorkflowRun| run.needs_rerun();
    let ghost id = |run: WorkflowRun| run.id;
    let mut ids: Vec<u64> = Vec::new();
    let mut i: usize = 0;
    proof {
        lemma_filter_map_none(runs@, keep, id);
    }
    while i < runs.len()
        invariant
            i <= runs.len(),
            keep == |run: WorkflowRun| run.needs_rerun(),
            id == |run: WorkflowRun| run.id,
            ids@ == runs@.take(i as int).filter(keep).map_values(id),
        decreases runs.len() - i,
    {
        proof {
            lemma_filter_map_step(runs@, i as int, keep, id);
        }
        if runs[i].needs_rerun() {
            ids.push(runs[i].id);
        }
        i += 1;
    }
    assert(runs@.take(i as int) =~= runs@);
    ids
}

/// The paths at which the failed jobs of the failed runs are run again.
pub open spec fn rerun_paths(repo: Seq<char>, runs: Seq<WorkflowRun>) -> Seq<Seq<char>> {
    runs.filter(|run: WorkflowRun| run.has_failed()).map_values(
        |run: WorkflowRun| rerun_path(repo, run.id),
    )
}

/// Says where the failed jobs of each failed run are run again.
pub fn rerun_failed_jobs(repo: &str, runs: &Vec<WorkflowRun>) -> (paths: Vec<String>)
    ensures
        paths.deep_view() == rerun_paths(repo@, runs@),
{
    let ghost keep = |run: WorkflowRun| run.has_failed();
    let ghost path = |run: WorkflowRun| rerun_path(repo@, run.id);
    let mut paths: Vec<String> = Vec::new();
    let mut i: usize = 0;
    proof {
        lemma_filter_map_none(runs@, keep, path);
    }
    while i < runs.len()
        invariant
            i <= runs.len(),
            keep == |run: WorkflowRun| run.has_failed(),
            path == |run: WorkflowRun| rerun_path(repo@, run.id),
            paths.deep_view() == runs@.take(i as int).filter(keep).map_values(path),
        decreases runs.len() - i,
    {
        proof {
            lemma_filter_map_step(runs@, i as int, keep, path);
        }
        if runs[i].has_failed() {
            paths.push(rerun(repo, runs[i].id));
        }
        i += 1;
    }
    assert(runs@.take(i as int) =~= runs@);
    paths
}

/// The paths of the runs that failed or were cancelled.
pub open spec fn deletable_paths(repo: Seq<char>, runs: Seq<WorkflowRun>) -> Seq<Seq<char>> {
    runs.filter(|run: WorkflowRun| run.is_deletable()).map_values(
        |run: WorkflowRun| run_path(repo, run.id),
    )
}

/// A sequence cut into batches of `size`, the last of them possibly
/// shorter.
pub open spec fn batches<T>(items: Seq<T>, size: nat) -> Seq<Seq<T>>
    decreases items.len(),
{
    if items.len() == 0 || size == 0 {
        Seq::empty()
    } else if items.len() <= size {
        seq![items]
    } else {
        seq![items.take(size as int)] + batches(items.skip(size as int), size)
    }
}

fn deletable(repo: &str, runs: &Vec<WorkflowRun>) -> (paths: Vec<String>)
    ensures
        paths.deep_view() == deletable_paths(repo@, runs@),
{
    let ghost keep = |run: WorkflowRun| run.is_deletable();
    let ghost path = |run: WorkflowRun| run_path(repo@, run.id);
    let mut paths: Vec<String> = Vec::new();
    let mut i: usize = 0;
    proof {
        lemma_filter_map_none(runs@, keep, path);
    }
    while i < runs.len()
        invariant
            i <= runs.len(),
            keep == |run: WorkflowRun| run.is_deletable(),
            path == |run: WorkflowRun| run_path(repo@, run.id),
            paths.deep_view() == runs@.take(i as int).filter(keep).map_values(path),
        decreases runs.len() - i,
    {
        proof {
            lemma_filter_map_step(runs@, i as int, keep, path);
        }
        if runs[i].is_deletable() {
            paths.push(run(repo, runs[i].id));
        }
        i += 1;
    }
    assert(runs@.take(i as int) =~= runs@);
    paths
}

/// The views of batches of texts.
pub open spec fn batch_views(batches: Seq<Vec<String>>) -> Seq<Seq<Seq<char>>> {
    batches.map_values(|batch: Vec<String>| batch.deep_view())
}

/// Says where the runs that failed or were cancelled are deleted, in
/// batches of `DELETE_BATCH`: the host deletes the runs of a batch at once
/// and waits for them before it takes the next.
pub fn delete_failed_workflows(repo: &str, runs: &Vec<WorkflowRun>) -> (plan: Vec<Vec<String>>)
    ensures
        batch_views(plan@) == batches(deletable_paths(repo@, runs@), DELETE_BATCH as nat),
{
    let paths = deletable(repo, runs);
    let ghost all = paths.deep_view();
    let mut plan: Vec<Vec<String>> = Vec::new();
    let mut start: usize = 0;
    assert(all.skip(0) =~= all);
    while start < paths.len()
        invariant
            start <= paths.len(),
            all == paths.deep_view(),
            batch_views(plan@) + batches(all.skip(start as int), DELETE_BATCH as nat) == batches(
                all,
                DELETE_BATCH as nat,
            ),
        decreases paths.len() - start,
    {
        let rest = paths.len() - start;
        let count = if rest <= DELETE_BATCH {
            rest
        } else {
            DELETE_BATCH
        };
        let mut batch: Vec<String> = Vec::new();
        let mut k: usize = 0;
        while k < count
            invariant
                k <= count,
                start + count <= paths.len(),
                all == paths.deep_view(),
                batch.deep_view() == all.skip(start as int).take(k as int),
            decreases count - k,
        {
            let ghost before = batch.deep_view();
            batch.push(paths[start + k].clone());
            assert(batch.deep_view() =~= before.push(paths[start + k]@));
            k += 1;
        }
        proof {
            let tail = all.skip(start as int);
            if rest <= DELETE_BATCH {
                assert(tail.take(count as int) =~= tail);
            } else {
                assert(tail.skip(DELETE_BATCH as int) =~= all.skip(start + count));
            }
        }
        plan.push(batch);
        start += count;
    }
    plan
}

} // verus!
