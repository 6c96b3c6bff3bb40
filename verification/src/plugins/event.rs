//! The lifecycle events that the host sends to plugins.

use vstd::prelude::*;
use crate::plugins::encoding::{EventData, EventDataView, FieldValue, FieldValueView, Payload, PayloadView};

verus! {

/// A lifecycle notification that the host sends to every plugin.
#[derive(Debug, Clone)]
pub enum Event {
    PluginRegistrationInit,
    PluginRegistered(String),
    PluginRegistrationEnd,
    CliCommandExecutionInit,
    CliCommandExecutionRun { command: String, args: Vec<String> },
    CliCommandExecutionEnd,
}

/// The mathematical value of an [`Event`].
pub enum EventView {
    PluginRegistrationInit,
    PluginRegistered(Seq<char>),
    PluginRegistrationEnd,
    CliCommandExecutionInit,
    CliCommandExecutionRun { command: Seq<char>, args: Seq<Seq<char>> },
    CliCommandExecutionEnd,
}

impl View for Event {
    type V = EventView;

    open spec fn view(&self) -> EventView {
        match *self {
            Event::PluginRegistrationInit => EventView::PluginRegistrationInit,
            Event::PluginRegistered(name) => EventView::PluginRegistered(name@),
            Event::PluginRegistrationEnd => EventView::PluginRegistrationEnd,
            Event::CliCommandExecutionInit => EventView::CliCommandExecutionInit,
            Event::CliCommandExecutionRun { command, args } => EventView::CliCommandExecutionRun {
                command: command@,
                args: args.deep_view(),
            },
            Event::CliCommandExecutionEnd => EventView::CliCommandExecutionEnd,
        }
    }
}

impl EventView {
    /// The name of the variant in kebab-case, by which scripts tell events apart.
    pub open spec fn name(self) -> Seq<char> {
        match self {
            EventView::PluginRegistrationInit => "plugin-registration-init"@,
            EventView::PluginRegistered(_) => "plugin-registered"@,
            EventView::PluginRegistrationEnd => "plugin-registration-end"@,
            EventView::CliCommandExecutionInit => "cli-command-execution-init"@,
            EventView::CliCommandExecutionRun { .. } => "cli-command-execution-run"@,
            EventView::CliCommandExecutionEnd => "cli-command-execution-end"@,
        }
    }

    /// What a script finds bound to the event variable: the bare name for a
    /// variant without data, otherwise a mapping with the name as its one key.
    pub open spec fn encoding(self) -> EventDataView {
        match self {
            EventView::PluginRegistered(plugin) => EventDataView::Tagged(
                self.name(),
                PayloadView::Text(plugin),
            ),
            EventView::CliCommandExecutionRun { command, args } => EventDataView::Tagged(
                self.name(),
                PayloadView::Record(
                    seq![
                        ("command"@, FieldValueView::Text(command)),
                        ("args"@, FieldValueView::List(args)),
                    ],
                ),
            ),
            _ => EventDataView::Name(self.name()),
        }
    }
}

impl Event {
    /// The kebab-case name of this event's variant.
    pub fn name(&self) -> (name: &'static str)
        ensures
            name@ == self@.name(),
    {
        match self {
            Event::PluginRegistrationInit => "plugin-registration-init",
            Event::PluginRegistered(_) => "plugin-registered",
            Event::PluginRegistrationEnd => "plugin-registration-end",
            Event::CliCommandExecutionInit => "cli-command-execution-init",
            Event::CliCommandExecutionRun { .. } => "cli-command-execution-run",
            Event::CliCommandExecutionEnd => "cli-command-execution-end",
        }
    }

    /// Encodes the event for the sandbox.
    pub fn encode(&self) -> (data: EventData)
        ensures
            data@ == self@.encoding(),
    {
        let tag = self.name().to_owned();
        match self {
            Event::PluginRegistered(plugin) => EventData::Tagged(tag, Payload::Text(plugin.clone())),
            Event::CliCommandExecutionRun { command, args } => {
                let copied_args = args.clone();
                let mut fields: Vec<(String, FieldValue)> = Vec::new();
                fields.push(("command".to_owned(), FieldValue::Text(command.clone())));
                fields.push(("args".to_owned(), FieldValue::List(copied_args)));
                let data = EventData::Tagged(tag, Payload::Record(fields));
                assert(data@->Tagged_1->Record_0 =~= self@.encoding()->Tagged_1->Record_0);
                data
            },
            _ => EventData::Name(tag),
        }
    }
}

} // verus!
