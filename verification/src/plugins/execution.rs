//! Running the script of a plugin for an event, and sending an event to all
//! plugins.
//!
//! Each run gets an interpreter of its own, and the host reads the script
//! anew for each run, so that nothing of one run is left for the next. A
//! script that fails gives a failure that is handed back as a value; it
//! stops neither the host nor the other plugins.
//!
//! A script is given no deadline: one that does not end holds up its own
//! run for good.

use vstd::prelude::*;
use crate::plugins::encoding::{EventData, EventDataView};
use crate::plugins::event::{Event, EventView};
use crate::plugins::loader::{caused_by, FileRead, FileReadView, Plugin, PluginView};
use crate::plugins::sandbox::{evaluate, Emission, EmissionView};

verus! {

/// Why a run of a script gave no success.
#[derive(Debug)]
pub enum ExecutionError {
    /// The script could not be read.
    ScriptUnreadable { script_path: String, reason: String },
    /// The interpreter gave up on the script; its diagnostic.
    ScriptFailed { plugin: String, diagnostic: String },
}

pub enum ExecutionErrorView {
    ScriptUnreadable { script_path: Seq<char>, reason: Seq<char> },
    ScriptFailed { plugin: Seq<char>, diagnostic: Seq<char> },
}

impl View for ExecutionError {
    type V = ExecutionErrorView;

    open spec fn view(&self) -> ExecutionErrorView {
        match *self {
            ExecutionError::ScriptUnreadable {
                script_path,
                reason,
            } => ExecutionErrorView::ScriptUnreadable {
                script_path: script_path@,
                reason: reason@,
            },
            ExecutionError::ScriptFailed { plugin, diagnostic } => ExecutionErrorView::ScriptFailed {
                plugin: plugin@,
                diagnostic: diagnostic@,
            },
        }
    }
}

impl ExecutionErrorView {
    /// What went wrong.
    pub open spec fn message(self) -> Seq<char> {
        match self {
            ExecutionErrorView::ScriptUnreadable { script_path, .. } =>
                "Failed to read Rhai script: "@ + script_path,
            ExecutionErrorView::ScriptFailed { plugin, diagnostic } => "Plugin '"@ + plugin
                + "' script failed during Rhai execution.\nError: "@ + diagnostic,
        }
    }

    /// What went wrong, with its cause.
    pub open spec fn report(self) -> Seq<char> {
        match self {
            ExecutionErrorView::ScriptUnreadable { reason, .. } => caused_by(self.message(), reason),
            ExecutionErrorView::ScriptFailed { .. } => self.message(),
        }
    }
}

impl ExecutionError {
    /// What went wrong.
    pub fn message(&self) -> (text: String)
        ensures
            text@ == self@.message(),
    {
        match self {
            ExecutionError::ScriptUnreadable { script_path, .. } =>
                "Failed to read Rhai script: ".to_owned().concat(script_path.as_str()),
            ExecutionError::ScriptFailed { plugin, diagnostic } => "Plugin '".to_owned().concat(
                plugin.as_str(),
            ).concat("' script failed during Rhai execution.\nError: ").concat(diagnostic.as_str()),
        }
    }

    /// What went wrong, with its cause.
    pub fn report(&self) -> (text: String)
        ensures
            text@ == self@.report(),
    {
        let message = self.message();
        match self {
            ExecutionError::ScriptUnreadable { reason, .. } => message.concat(
                "\n\nCaused by:\n    ",
            ).concat(reason.as_str()),
            ExecutionError::ScriptFailed { .. } => message,
        }
    }
}

/// What came of running the script of one plugin for one event.
#[derive(Debug)]
pub struct Execution {
    /// The name of the plugin.
    pub plugin: String,
    /// The event that the run was made for, as the script was given it.
    pub event: EventData,
    /// What the script sent to the console, in order.
    pub output: Vec<Emission>,
    /// Whether the script ran to its end.
    pub outcome: Result<(), ExecutionError>,
}

pub struct ExecutionView {
    pub plugin: Seq<char>,
    pub event: EventDataView,
    pub output: Seq<EmissionView>,
    pub outcome: Result<(), ExecutionErrorView>,
}

impl View for Execution {
    type V = ExecutionView;

    open spec fn view(&self) -> ExecutionView {
        ExecutionView {
            plugin: self.plugin@,
            event: self.event@,
            output: self.output.deep_view(),
            outcome: match self.outcome {
                Ok(_) => Ok(()),
                Err(error) => Err(error@),
            },
        }
    }
}

impl DeepView for Execution {
    type V = ExecutionView;

    open spec fn deep_view(&self) -> ExecutionView {
        self@
    }
}

/// What a run for an encoded event amounts to, given what the interpreter
/// handed back: a script that ran to its end is a success, whatever its last
/// value; a diagnostic is a failure that names the plugin.
pub open spec fn execution_of(
    plugin: Seq<char>,
    event: EventDataView,
    output: Seq<EmissionView>,
    result: Result<(), Seq<char>>,
) -> ExecutionView {
    ExecutionView {
        plugin,
        event,
        output,
        outcome: match result {
            Ok(_) => Ok(()),
            Err(diagnostic) => Err(ExecutionErrorView::ScriptFailed { plugin, diagnostic }),
        },
    }
}

/// What the interpreter handed back for a script: nothing, or a diagnostic.
pub open spec fn evaluation_view(result: Result<(), String>) -> Result<(), Seq<char>> {
    match result {
        Ok(_) => Ok(()),
        Err(diagnostic) => Err(diagnostic@),
    }
}

/// What a run for an encoded event amounts to where the script could not
/// be read.
pub open spec fn unread(plugin: PluginView, event: EventDataView, reason: Seq<char>) -> ExecutionView {
    ExecutionView {
        plugin: plugin.manifest.name,
        event,
        output: seq![],
        outcome: Err(
            ExecutionErrorView::ScriptUnreadable { script_path: plugin.script_path, reason },
        ),
    }
}

/// Whether `execution` can be what came of running `plugin` for `event` on
/// what was read of its script. The run bears the name of the plugin and the
/// event as it is encoded for the script. Where the script was read, the
/// interpreter decides between success and failure, and on what was printed.
pub open spec fn ran(
    plugin: PluginView,
    event: EventView,
    script: FileReadView,
    execution: ExecutionView,
) -> bool {
    match script {
        FileReadView::Failed(reason) => execution == unread(plugin, event.encoding(), reason),
        FileReadView::Content(_) => exists|result: Result<(), Seq<char>>|
            execution == execution_of(
                plugin.manifest.name,
                event.encoding(),
                execution.output,
                result,
            ),
    }
}

impl Execution {
    /// The run of a plugin for an encoded event, for which the interpreter
    /// handed back `output` and `result`.
    pub fn from_evaluation(
        plugin: &str,
        event: EventData,
        output: Vec<Emission>,
        result: Result<(), String>,
    ) -> (execution: Execution)
        ensures
            execution@ == execution_of(
                plugin@,
                event@,
                output.deep_view(),
                evaluation_view(result),
            ),
    {
        let outcome = match result {
            Ok(_) => Ok(()),
            Err(diagnostic) => Err(
                ExecutionError::ScriptFailed { plugin: plugin.to_owned(), diagnostic },
            ),
        };
        Execution { plugin: plugin.to_owned(), event, output, outcome }
    }

    /// Whether the script ran to its end.
    pub fn succeeded(&self) -> (yes: bool)
        ensures
            yes == (self@.outcome is Ok),
    {
        self.outcome.is_ok()
    }
}

impl Plugin {
    /// Runs the script of the plugin for an event, in an interpreter made
    /// for this run. `script` is what the host just read at `script_path`.
    /// The run that comes back bears the event as the script was given it.
    pub fn run_script(&self, event: &Event, script: &FileRead) -> (execution: Execution)
        ensures
            ran(self@, event@, script@, execution@),
    {
        let data = event.encode();
        match script {
            FileRead::Failed(reason) => {
                let execution = Execution {
                    plugin: self.manifest.name.clone(),
                    event: data,
                    output: Vec::new(),
                    outcome: Err(
                        ExecutionError::ScriptUnreadable {
                            script_path: self.script_path.clone(),
                            reason: reason.clone(),
                        },
                    ),
                };
                assert(execution@.output =~= Seq::<EmissionView>::empty());
                execution
            },
            FileRead::Content(source) => {
                let (output, result) = evaluate(source.as_str(), &data);
                Execution::from_evaluation(self.manifest.name.as_str(), data, output, result)
            },
        }
    }
}

/// One run that a sweep is to make: a plugin, with what the host read of
/// its script for this sweep.
#[derive(Debug)]
pub struct Invocation<'a> {
    pub plugin: &'a Plugin,
    pub script: FileRead,
}

/// What came of sending one event to all plugins.
#[derive(Debug)]
pub struct Broadcast {
    /// One run for each plugin, in the order of the plugins.
    pub executions: Vec<Execution>,
    /// One line for each run that failed, in the same order.
    pub diagnostics: Vec<String>,
}

/// Whether a run failed.
pub open spec fn has_failed(execution: ExecutionView) -> bool {
    execution.outcome is Err
}

/// The line that is logged for a run that failed.
pub open spec fn failure_diagnostic(execution: ExecutionView) -> Seq<char> {
    "Plugin execution failure for '"@ + execution.plugin + "': "@ + execution.outcome->Err_0.report()
}

/// The lines that are logged for a sweep: one for each run that failed.
pub open spec fn failures(executions: Seq<ExecutionView>) -> Seq<Seq<char>> {
    executions.filter(|execution: ExecutionView| has_failed(execution)).map_values(
        |execution: ExecutionView| failure_diagnostic(execution),
    )
}

proof fn lemma_failures_step(executions: Seq<ExecutionView>, next: ExecutionView)
    ensures
        failures(executions.push(next)) == if has_failed(next) {
            failures(executions).push(failure_diagnostic(next))
        } else {
            failures(executions)
        },
{
    assert(executions.push(next).drop_last() =~= executions);
    reveal(Seq::filter);
}

impl Broadcast {
    /// Gathers the runs of a sweep, in whatever manner they were made, and
    /// notes a line for each that failed.
    pub fn collect(executions: Vec<Execution>) -> (sweep: Broadcast)
        ensures
            sweep.executions == executions,
            sweep.diagnostics.deep_view() == failures(executions.deep_view()),
    {
        let ghost all = executions.deep_view();
        let mut diagnostics: Vec<String> = Vec::new();
        let mut i: usize = 0;
        proof {
            reveal(Seq::filter);
        }
        while i < executions.len()
            invariant
                i <= executions.len(),
                all == executions.deep_view(),
                diagnostics.deep_view() == failures(all.take(i as int)),
            decreases executions.len() - i,
        {
            proof {
                lemma_failures_step(all.take(i as int), executions[i as int]@);
                assert(all.take(i + 1) =~= all.take(i as int).push(executions[i as int]@));
            }
            match &executions[i].outcome {
                Ok(_) => {},
                Err(error) => {
                    let line = "Plugin execution failure for '".to_owned().concat(
                        executions[i].plugin.as_str(),
                    ).concat("': ").concat(error.report().as_str());
                    diagnostics.push(line);
                },
            }
            i += 1;
        }
        assert(all.take(i as int) =~= all);
        Broadcast { executions, diagnostics }
    }
}

/// Sends an event to all plugins: runs each of them once for this event,
/// whatever came of the ones before, and notes a line for each that failed.
/// A host that has
/// workers can instead hand each run to a worker of its own and gather the
/// runs with [`Broadcast::collect`].
pub fn broadcast_event(invocations: &Vec<Invocation>, event: &Event) -> (sweep: Broadcast)
    ensures
        sweep.executions.len() == invocations.len(),
        forall|i: int|
            0 <= i < invocations.len() ==> ran(
                (#[trigger] invocations[i]).plugin@,
                event@,
                invocations[i].script@,
                sweep.executions[i]@,
            ),
        sweep.diagnostics.deep_view() == failures(sweep.executions.deep_view()),
{
    let mut executions: Vec<Execution> = Vec::new();
    let mut i: usize = 0;
    while i < invocations.len()
        invariant
            i <= invocations.len(),
            executions.len() == i,
            forall|j: int|
                0 <= j < i ==> ran(
                    (#[trigger] invocations[j]).plugin@,
                    event@,
                    invocations[j].script@,
                    executions[j]@,
                ),
        decreases invocations.len() - i,
    {
        let execution = invocations[i].plugin.run_script(event, &invocations[i].script);
        executions.push(execution);
        i += 1;
    }
    Broadcast::collect(executions)
}

} // verus!
