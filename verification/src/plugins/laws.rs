//! What holds of discovery, of the encoding of events and of a sweep,
//! whatever the plugins are.

use vstd::prelude::*;
use crate::plugins::encoding::{EventDataView, PayloadView};
use crate::plugins::event::EventView;
use crate::plugins::execution::{
    failure_diagnostic,
    failures,
    has_failed,
    ran,
    ExecutionView,
};
use crate::plugins::loader::{
    discovery,
    is_malformed,
    is_well_formed,
    load,
    loaded,
    rejected,
    FileReadView,
    PluginDirView,
    PluginRootView,
    PluginView,
    RootEntryView,
};

verus! {

/// The name that a script reads off an encoded event: the string itself, or
/// the one key of the mapping.
pub open spec fn discriminant(data: EventDataView) -> Seq<char> {
    match data {
        EventDataView::Name(name) => name,
        EventDataView::Tagged(tag, _) => tag,
    }
}

/// A directory is a plugin only if it has a script, and the plugin keeps the
/// place of the script and of the directory.
pub proof fn lemma_plugin_has_script(dir: PluginDirView)
    requires
        load(dir) is Ok,
    ensures
        dir.script_found,
        load(dir)->Ok_0.script_path == dir.script_path,
        load(dir)->Ok_0.path == dir.path,
{
}

/// Discovery gives exactly one plugin for each well-formed directory, and
/// exactly one diagnostic for each malformed directory and for each entry
/// that could not be read, so that each of them is accounted for once.
pub proof fn lemma_discovery_counts(entries: Seq<RootEntryView>)
    ensures
        discovery(PluginRootView::Listing(entries)) is Ok,
        discovery(PluginRootView::Listing(entries))->Ok_0.plugins.len() == entries.filter(
            |entry: RootEntryView| is_well_formed(entry),
        ).len(),
        discovery(PluginRootView::Listing(entries))->Ok_0.diagnostics.len() == entries.filter(
            |entry: RootEntryView| is_malformed(entry),
        ).len() + entries.filter(|entry: RootEntryView| entry is Unreadable).len(),
        loaded(entries).len() + rejected(entries).len() == entries.filter(
            |entry: RootEntryView| entry is Directory,
        ).len() + entries.filter(|entry: RootEntryView| entry is Unreadable).len(),
    decreases entries.len(),
{
    reveal(Seq::filter);
    if entries.len() > 0 {
        lemma_discovery_counts(entries.drop_last());
    }
}

/// Where the host could read every entry, discovery logs exactly one
/// diagnostic for each malformed directory.
pub proof fn lemma_diagnostics_are_the_malformed(entries: Seq<RootEntryView>)
    requires
        forall|i: int| 0 <= i < entries.len() ==> !(#[trigger] entries[i] is Unreadable),
    ensures
        rejected(entries).len() == entries.filter(
            |entry: RootEntryView| is_malformed(entry),
        ).len(),
    decreases entries.len(),
{
    reveal(Seq::filter);
    if entries.len() > 0 {
        assert forall|i: int| 0 <= i < entries.drop_last().len() implies !(
            #[trigger] entries.drop_last()[i] is Unreadable
        ) by {
            assert(entries.drop_last()[i] == entries[i]);
        }
        lemma_diagnostics_are_the_malformed(entries.drop_last());
    }
}

/// Discovery fails only where the configuration directory is unknown; a
/// plugin root that cannot be listed holds no plugins, and its reason is
/// logged.
pub proof fn lemma_discovery_fails_only_without_config_dir(root: PluginRootView)
    ensures
        discovery(root) is Err <==> root is NoConfigDir,
        root matches PluginRootView::Unreadable(reason) ==> discovery(root)->Ok_0.plugins.len() == 0
            && discovery(root)->Ok_0.diagnostics.len() == 1,
{
}

/// An entry that is no plugin takes nothing from the others: the plugins
/// found are those found without it.
pub proof fn lemma_malformed_directory_is_passed_over(
    before: Seq<RootEntryView>,
    entry: RootEntryView,
    after: Seq<RootEntryView>,
)
    requires
        !is_well_formed(entry),
    ensures
        loaded(before.push(entry) + after) == loaded(before + after),
{
    let well = |entry: RootEntryView| is_well_formed(entry);
    Seq::filter_distributes_over_add(before.push(entry), after, well);
    Seq::filter_distributes_over_add(before, after, well);
    reveal(Seq::filter);
    assert(before.push(entry).drop_last() =~= before);
}

/// The name of an event tells its variant: two events have the same name
/// only if they are of the same variant.
pub proof fn lemma_name_identifies_variant(a: EventView, b: EventView)
    requires
        a.name() == b.name(),
    ensures
        a is PluginRegistrationInit <==> b is PluginRegistrationInit,
        a is PluginRegistered <==> b is PluginRegistered,
        a is PluginRegistrationEnd <==> b is PluginRegistrationEnd,
        a is CliCommandExecutionInit <==> b is CliCommandExecutionInit,
        a is CliCommandExecutionRun <==> b is CliCommandExecutionRun,
        a is CliCommandExecutionEnd <==> b is CliCommandExecutionEnd,
{
    reveal_strlit("plugin-registration-init");
    reveal_strlit("plugin-registered");
    reveal_strlit("plugin-registration-end");
    reveal_strlit("cli-command-execution-init");
    reveal_strlit("cli-command-execution-run");
    reveal_strlit("cli-command-execution-end");
    assert("plugin-registration-init"@.len() == 24);
    assert("plugin-registered"@.len() == 17);
    assert("plugin-registration-end"@.len() == 23);
    assert("cli-command-execution-init"@.len() == 26);
    assert("cli-command-execution-run"@[22] == 'r');
}

/// An event is encoded as a bare string exactly when its variant carries no
/// data, and in either form a script reads the name of the variant off it.
pub proof fn lemma_encoding_shows_the_name(event: EventView)
    ensures
        discriminant(event.encoding()) == event.name(),
        event.encoding() is Name <==> !(event is PluginRegistered || event
            is CliCommandExecutionRun),
        event matches EventView::PluginRegistered(plugin) ==> event.encoding()
            == EventDataView::Tagged(event.name(), PayloadView::Text(plugin)),
{
}

/// Events that are encoded alike are the same event.
pub proof fn lemma_encoding_is_injective(a: EventView, b: EventView)
    requires
        a.encoding() == b.encoding(),
    ensures
        a == b,
{
    lemma_encoding_shows_the_name(a);
    lemma_encoding_shows_the_name(b);
    lemma_name_identifies_variant(a, b);
}

/// A run is tied to its plugin and to its event: it bears the name of the
/// plugin and the event as the script was given it, and a run whose script
/// could not be read has failed.
pub proof fn lemma_run_is_tied_to_plugin_and_event(
    plugin: PluginView,
    event: EventView,
    script: FileReadView,
    execution: ExecutionView,
)
    requires
        ran(plugin, event, script, execution),
    ensures
        execution.plugin == plugin.manifest.name,
        execution.event == event.encoding(),
        script is Failed ==> has_failed(execution),
{
}

/// A run tells the event it was made for: what is a run of a plugin for one
/// event is a run of it for no other.
pub proof fn lemma_run_tells_its_event(
    plugin: PluginView,
    first: EventView,
    second: EventView,
    script: FileReadView,
    execution: ExecutionView,
)
    requires
        ran(plugin, first, script, execution),
        ran(plugin, second, script, execution),
    ensures
        first == second,
{
    lemma_encoding_is_injective(first, second);
}

/// A sweep logs one line for each run that failed, and nothing for the
/// others.
pub proof fn lemma_failures_are_counted(executions: Seq<ExecutionView>)
    ensures
        failures(executions).len() == executions.filter(
            |execution: ExecutionView| has_failed(execution),
        ).len(),
        (forall|i: int| 0 <= i < executions.len() ==> !has_failed(#[trigger] executions[i]))
            ==> failures(executions).len() == 0,
    decreases executions.len(),
{
    reveal(Seq::filter);
    if executions.len() > 0 {
        lemma_failures_are_counted(executions.drop_last());
        assert forall|i: int| 0 <= i < executions.drop_last().len() implies executions.drop_last()[i]
            == executions[i] by {}
    }
}

/// Where exactly one run of a sweep failed, the sweep logs the line for
/// that run and no other.
pub proof fn lemma_single_failure_is_isolated(executions: Seq<ExecutionView>, failed: int)
    requires
        0 <= failed < executions.len(),
        has_failed(executions[failed]),
        forall|i: int|
            0 <= i < executions.len() && i != failed ==> !has_failed(#[trigger] executions[i]),
    ensures
        failures(executions) == seq![failure_diagnostic(executions[failed])],
{
    let is_failed = |execution: ExecutionView| has_failed(execution);
    let before = executions.take(failed);
    let after = executions.skip(failed + 1);
    assert(executions =~= before.push(executions[failed]) + after);
    Seq::filter_distributes_over_add(before.push(executions[failed]), after, is_failed);
    lemma_failures_are_counted(before);
    lemma_failures_are_counted(after);
    reveal(Seq::filter);
    assert(before.push(executions[failed]).drop_last() =~= before);
}

} // verus!
