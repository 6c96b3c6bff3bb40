//! What holds of every command, whatever the host finds out.
//!
//! A command asks only for what it does not know, so that each answer
//! brings it nearer to its end; and it never takes back what it has said,
//! so that the host can show each message once.

use vstd::prelude::*;
use crate::cli::UserCmdView;
use crate::cli::LicenseKind;
use crate::ghk::commands::{
    branch,
    clone,
    config,
    create,
    diff,
    fork,
    history,
    ignore,
    init,
    license,
    login,
    logout,
    open,
    pull,
    push,
    status,
    undo,
    user,
};
use crate::ghk::config::ConfigView;
use crate::ghk::flow::{blank, listed, said, silence, summarized, MessageView, Tone};
use crate::ghk::flow::{goes_on, FactsView, NextView, RequestView};

verus! {

/// The law for `init`.
pub proof fn lemma_init_goes_on(facts: FactsView, request: RequestView, later: FactsView)
    requires
        init::plan(facts).next == NextView::Need(request),
        facts.answered(request, later),
    ensures
        goes_on(facts, init::plan(facts), init::plan(later)),
{
}

/// The law for `login`.
pub proof fn lemma_login_goes_on(facts: FactsView, request: RequestView, later: FactsView)
    requires
        login::plan(facts).next == NextView::Need(request),
        facts.answered(request, later),
    ensures
        goes_on(facts, login::plan(facts), login::plan(later)),
{
}

/// The law for `logout`.
pub proof fn lemma_logout_goes_on(facts: FactsView, request: RequestView, later: FactsView)
    requires
        logout::plan(facts).next == NextView::Need(request),
        facts.answered(request, later),
    ensures
        goes_on(facts, logout::plan(facts), logout::plan(later)),
{
}

/// The law for `open`.
pub proof fn lemma_open_goes_on(facts: FactsView, request: RequestView, later: FactsView)
    requires
        open::plan(facts).next == NextView::Need(request),
        facts.answered(request, later),
    ensures
        goes_on(facts, open::plan(facts), open::plan(later)),
{
}

/// The law for `pull`.
pub proof fn lemma_pull_goes_on(facts: FactsView, request: RequestView, later: FactsView)
    requires
        pull::plan(facts).next == NextView::Need(request),
        facts.answered(request, later),
    ensures
        goes_on(facts, pull::plan(facts), pull::plan(later)),
{
}

/// The law for `user`.
pub proof fn lemma_user_goes_on(
    cmd: UserCmdView,
    facts: FactsView,
    request: RequestView,
    later: FactsView,
)
    requires
        user::plan(cmd, facts).next == NextView::Need(request),
        facts.answered(request, later),
    ensures
        goes_on(facts, user::plan(cmd, facts), user::plan(cmd, later)),
{
}

/// What is said of a list begins with what was said before it.
pub proof fn lemma_listed_extends(before: Seq<MessageView>, items: Seq<Seq<char>>)
    ensures
        before.is_prefix_of(listed(before, items)),
        listed(before, items).len() == before.len() + items.len(),
    decreases items.len(),
{
    if items.len() > 0 {
        lemma_listed_extends(before, items.drop_last());
    }
}

/// What is said of a summary begins with what was said before it.
pub proof fn lemma_summarized_extends(before: Seq<MessageView>, items: Seq<Seq<char>>, limit: usize)
    ensures
        before.is_prefix_of(summarized(before, items, limit)),
{
    lemma_listed_extends(before, items);
    lemma_listed_extends(before, items.take(limit as int));
}

proof fn lemma_lists_extend()
    ensures
        forall|before: Seq<MessageView>, items: Seq<Seq<char>>|
            before.len() <= (#[trigger] listed(before, items)).len(),
        forall|before: Seq<MessageView>, items: Seq<Seq<char>>, i: int|
            0 <= i < before.len() ==> (#[trigger] listed(before, items)[i]) == before[i],
        forall|before: Seq<MessageView>, items: Seq<Seq<char>>, limit: usize|
            before.len() <= (#[trigger] summarized(before, items, limit)).len(),
        forall|before: Seq<MessageView>, items: Seq<Seq<char>>, limit: usize, i: int|
            0 <= i < before.len() ==> (#[trigger] summarized(before, items, limit)[i])
                == before[i],
{
    assert forall|before: Seq<MessageView>, items: Seq<Seq<char>>|
        before.len() <= (#[trigger] listed(before, items)).len() by {
        lemma_listed_extends(before, items);
    }
    assert forall|before: Seq<MessageView>, items: Seq<Seq<char>>, i: int|
        0 <= i < before.len() implies (#[trigger] listed(before, items)[i]) == before[i] by {
        lemma_listed_extends(before, items);
    }
    assert forall|before: Seq<MessageView>, items: Seq<Seq<char>>, limit: usize|
        before.len() <= (#[trigger] summarized(before, items, limit)).len() by {
        lemma_summarized_extends(before, items, limit);
    }
    assert forall|before: Seq<MessageView>, items: Seq<Seq<char>>, limit: usize, i: int|
        0 <= i < before.len() implies (#[trigger] summarized(before, items, limit)[i])
            == before[i] by {
        lemma_summarized_extends(before, items, limit);
    }
}

/// The law for `clone`.
pub proof fn lemma_clone_goes_on(
    repo: Option<Seq<char>>,
    dir: Option<Seq<char>>,
    facts: FactsView,
    request: RequestView,
    later: FactsView,
)
    requires
        clone::plan(repo, dir, facts).next == NextView::Need(request),
        facts.answered(request, later),
    ensures
        goes_on(facts, clone::plan(repo, dir, facts), clone::plan(repo, dir, later)),
{
}

/// The law for `history`.
pub proof fn lemma_history_goes_on(
    count: Option<usize>,
    facts: FactsView,
    request: RequestView,
    later: FactsView,
)
    requires
        history::plan(count, facts).next == NextView::Need(request),
        facts.answered(request, later),
    ensures
        goes_on(facts, history::plan(count, facts), history::plan(count, later)),
{
}

/// The law for `undo`.
pub proof fn lemma_undo_goes_on(
    facts: FactsView,
    request: RequestView,
    later: FactsView,
)
    requires
        undo::plan(facts).next == NextView::Need(request),
        facts.answered(request, later),
    ensures
        goes_on(facts, undo::plan(facts), undo::plan(later)),
{
}

/// What is said of the account begins with what was said before it.
proof fn lemma_account_extends(before: Seq<MessageView>, facts: FactsView)
    ensures
        before.push(blank()).is_prefix_of(
            status::account_report(before, facts).messages,
        ),
{
}

/// What is said inside a repository begins with what is known of the
/// branch and of the remote.
proof fn lemma_repo_report_extends(facts: FactsView)
    ensures
        status::ready().is_prefix_of(status::repo_report(facts).messages),
        facts.branch is Some ==> status::with_branch(status::ready(), facts).is_prefix_of(
            status::repo_report(facts).messages,
        ),
        facts.branch is Some && (facts.has_remote == Some(false) || (facts.has_remote == Some(true)
            && facts.remote_url is Some)) ==> status::with_remote(
            status::with_branch(status::ready(), facts),
            facts,
        ).is_prefix_of(status::repo_report(facts).messages),
{
    lemma_lists_extend();
    let known = status::with_branch(status::ready(), facts);
    let before = status::with_remote(known, facts);
    lemma_account_extends(before, facts);
    lemma_account_extends(
        before.push(said(Tone::Dim, "No unsaved changes"@)),
        facts,
    );
    lemma_account_extends(status::changes_report(before, status::changed(facts)), facts);
}

/// The law for `status`.
pub proof fn lemma_status_goes_on(facts: FactsView, request: RequestView, later: FactsView)
    requires
        status::plan(facts).next == NextView::Need(request),
        facts.answered(request, later),
    ensures
        goes_on(facts, status::plan(facts), status::plan(later)),
{
    lemma_repo_report_extends(later);
    let before = status::with_remote(status::with_branch(status::ready(), facts), facts);
    lemma_account_extends(
        silence().push(blank()).push(said(Tone::Warning, "Git: Not initialized"@)).push(
            said(Tone::Dim, "Run 'ghk init' to set up"@),
        ),
        later,
    );
    lemma_account_extends(before, later);
    lemma_account_extends(before.push(said(Tone::Dim, "No unsaved changes"@)), later);
    lemma_account_extends(status::changes_report(before, status::changed(facts)), later);
}

/// The law for `push`.
pub proof fn lemma_push_goes_on(
    facts: FactsView,
    request: RequestView,
    later: FactsView,
)
    requires
        push::plan(facts).next == NextView::Need(request),
        facts.answered(request, later),
    ensures
        goes_on(facts, push::plan(facts), push::plan(later)),
{
    lemma_lists_extend();
}

/// The law for `create`.
pub proof fn lemma_create_goes_on(
    facts: FactsView,
    request: RequestView,
    later: FactsView,
)
    requires
        create::plan(facts).next == NextView::Need(request),
        facts.answered(request, later),
    ensures
        goes_on(facts, create::plan(facts), create::plan(later)),
{
}

/// The law for `fork`.
pub proof fn lemma_fork_goes_on(
    cfg: ConfigView,
    target: Option<Seq<char>>,
    facts: FactsView,
    request: RequestView,
    later: FactsView,
)
    requires
        fork::plan(cfg, target, facts).next == NextView::Need(request),
        facts.answered(request, later),
    ensures
        goes_on(facts, fork::plan(cfg, target, facts), fork::plan(cfg, target, later)),
{
}

/// The law for `diff`.
pub proof fn lemma_diff_goes_on(
    facts: FactsView,
    request: RequestView,
    later: FactsView,
)
    requires
        diff::plan(facts).next == NextView::Need(request),
        facts.answered(request, later),
    ensures
        goes_on(facts, diff::plan(facts), diff::plan(later)),
{
}

/// The law for `config`.
pub proof fn lemma_config_goes_on(
    cfg: ConfigView,
    path: Seq<char>,
    key: Option<Seq<char>>,
    value: Option<Seq<char>>,
    facts: FactsView,
    request: RequestView,
    later: FactsView,
)
    requires
        config::plan(cfg, path, key, value, facts).next == NextView::Need(request),
        facts.answered(request, later),
    ensures
        goes_on(facts, config::plan(cfg, path, key, value, facts), config::plan(cfg, path, key, value, later)),
{
}

/// The law for `branch`.
pub proof fn lemma_branch_goes_on(
    name: Option<Seq<char>>,
    facts: FactsView,
    request: RequestView,
    later: FactsView,
)
    requires
        branch::plan(name, facts).next == NextView::Need(request),
        facts.answered(request, later),
    ensures
        goes_on(facts, branch::plan(name, facts), branch::plan(name, later)),
{
}

/// The law for `ignore`.
pub proof fn lemma_ignore_goes_on(
    named: Option<Seq<char>>,
    facts: FactsView,
    request: RequestView,
    later: FactsView,
)
    requires
        ignore::plan(named, facts).next == NextView::Need(request),
        facts.answered(request, later),
    ensures
        goes_on(facts, ignore::plan(named, facts), ignore::plan(named, later)),
{
}

/// The law for `license`.
pub proof fn lemma_license_goes_on(
    kind: Option<LicenseKind>,
    facts: FactsView,
    request: RequestView,
    later: FactsView,
)
    requires
        license::plan(kind, facts).next == NextView::Need(request),
        facts.answered(request, later),
    ensures
        goes_on(facts, license::plan(kind, facts), license::plan(kind, later)),
{
}

} // verus!
